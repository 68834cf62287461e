use vstd::prelude::*;
use vstd::string::StringExecFns;

verus! {

/// Where a managed artifact comes from and where it lies on disk.
#[derive(Debug, Clone, PartialEq, Eq)]
pub struct ArtifactLocation {
    /// Where the artifact is fetched from.
    pub url: String,
    /// The local file that holds the fetched body, verbatim.
    pub file_name: String,
    /// The directory that the artifact is extracted to, where it is an archive.
    pub directory: Option<String>,
}

/// The name of the language server's snapshot.
pub open spec fn server_name() -> Seq<char> {
    "jdt-language-server-latest"@
}

/// The local file name of the language server's archive.
pub open spec fn server_file_name() -> Seq<char> {
    server_name() + ".tar.gz"@
}

/// Where the language server's archive is fetched from.
pub open spec fn server_url() -> Seq<char> {
    "https://download.eclipse.org/jdtls/snapshots/"@ + server_name() + ".tar.gz"@
}

/// The backend's executable, relative to the working directory.
pub open spec fn server_executable_path() -> Seq<char> {
    server_name() + "/bin/jdtls"@
}

/// The local file name of the agent jar.
pub open spec fn agent_file_name() -> Seq<char> {
    "lombok.jar"@
}

/// Where the agent jar is fetched from.
pub open spec fn agent_url() -> Seq<char> {
    "https://projectlombok.org/downloads/"@ + agent_file_name()
}

/// The name of the language server's snapshot, which is also the directory
/// that its archive is extracted to.
pub fn server_directory() -> (name: String)
    ensures
        name@ == server_name(),
{
    String::from_str("jdt-language-server-latest")
}

/// The local file name of the language server's archive.
pub fn server_file() -> (name: String)
    ensures
        name@ == server_file_name(),
{
    server_directory().concat(".tar.gz")
}

/// Where the language server's archive is fetched from.
pub fn server_source() -> (url: String)
    ensures
        url@ == server_url(),
{
    String::from_str("https://download.eclipse.org/jdtls/snapshots/").concat(
        server_directory().as_str(),
    ).concat(".tar.gz")
}

/// The backend's executable, relative to the working directory.
pub fn server_executable() -> (path: String)
    ensures
        path@ == server_executable_path(),
{
    server_directory().concat("/bin/jdtls")
}

/// The local file name of the agent jar.
pub fn agent_file() -> (name: String)
    ensures
        name@ == agent_file_name(),
{
    String::from_str("lombok.jar")
}

/// Where the agent jar is fetched from.
pub fn agent_source() -> (url: String)
    ensures
        url@ == agent_url(),
{
    String::from_str("https://projectlombok.org/downloads/").concat(agent_file().as_str())
}

/// The language server's archive: fetched as a snapshot, kept under its own
/// name, and extracted to a directory of the snapshot's name.
pub fn server_archive() -> (location: ArtifactLocation)
    ensures
        location.url@ == server_url(),
        location.file_name@ == server_file_name(),
        location.directory matches Some(directory) && directory@ == server_name(),
{
    ArtifactLocation {
        url: server_source(),
        file_name: server_file(),
        directory: Some(server_directory()),
    }
}

/// The agent jar: one file, with nothing to extract.
pub fn agent_jar() -> (location: ArtifactLocation)
    ensures
        location.url@ == agent_url(),
        location.file_name@ == agent_file_name(),
        location.directory is None,
{
    ArtifactLocation { url: agent_source(), file_name: agent_file(), directory: None }
}

/// Which of the language server's artifacts lie on disk.
#[derive(Clone, Copy, Debug, PartialEq, Eq, Structural)]
pub struct Presence {
    /// Whether the extracted directory exists.
    pub directory: bool,
    /// Whether the local archive file exists.
    pub archive: bool,
}

/// What the artifacts on disk call for.
#[derive(Clone, Copy, Debug, PartialEq, Eq, Structural)]
pub enum CachePlan {
    /// The directory is there: nothing is fetched and nothing is extracted.
    Reuse,
    /// Only the archive is there: it is extracted, and nothing is fetched.
    Extract,
    /// Neither is there: the archive is fetched, then extracted.
    DownloadAndExtract,
}

/// The plan for a state of the disk. The directory is looked at first: where
/// it exists, the archive does not matter.
pub open spec fn plan_of(presence: Presence) -> CachePlan {
    if presence.directory {
        CachePlan::Reuse
    } else if presence.archive {
        CachePlan::Extract
    } else {
        CachePlan::DownloadAndExtract
    }
}

/// How many downloads a plan makes.
pub open spec fn downloads(plan: CachePlan) -> nat {
    if plan == CachePlan::DownloadAndExtract {
        1
    } else {
        0
    }
}

/// How many extractions a plan makes.
pub open spec fn extractions(plan: CachePlan) -> nat {
    if plan == CachePlan::Reuse {
        0
    } else {
        1
    }
}

/// The disk after a plan was carried out to its end: the directory exists,
/// and so does the archive where it was there before or has been fetched.
pub open spec fn provisioned(presence: Presence) -> Presence {
    Presence {
        directory: true,
        archive: presence.archive || plan_of(presence) == CachePlan::DownloadAndExtract,
    }
}

/// Decides what is to be done for the language server.
pub fn plan_server(presence: Presence) -> (plan: CachePlan)
    ensures
        plan == plan_of(presence),
{
    if presence.directory {
        CachePlan::Reuse
    } else if presence.archive {
        CachePlan::Extract
    } else {
        CachePlan::DownloadAndExtract
    }
}

/// Whether a single-file artifact is to be fetched: only where it is absent.
pub open spec fn download_needed(present: bool) -> bool {
    !present
}

/// Decides whether a single-file artifact is to be fetched.
pub fn needs_download(present: bool) -> (needed: bool)
    ensures
        needed == download_needed(present),
{
    !present
}

/// Whether an HTTP status reports success.
pub open spec fn is_success_status(status: u16) -> bool {
    200 <= status < 300
}

/// Tells whether a response may be kept: only one with a success status.
pub fn accepts_status(status: u16) -> (accepted: bool)
    ensures
        accepted == is_success_status(status),
{
    200 <= status && status < 300
}

/// Provisioning is idempotent. A second run, on the disk that a first run
/// left behind, fetches nothing and extracts nothing; so the two runs
/// together make at most one download and at most one extraction.
pub proof fn lemma_second_run_reuses(presence: Presence)
    ensures
        plan_of(provisioned(presence)) == CachePlan::Reuse,
        downloads(plan_of(provisioned(presence))) == 0,
        extractions(plan_of(provisioned(presence))) == 0,
        downloads(plan_of(presence)) + downloads(plan_of(provisioned(presence))) <= 1,
        extractions(plan_of(presence)) + extractions(plan_of(provisioned(presence))) <= 1,
{
}

/// What lies on disk is not fetched again: with the directory or the archive
/// present there is no download, and with the directory present there is no
/// extraction either.
pub proof fn lemma_present_artifacts_are_kept(presence: Presence)
    ensures
        presence.directory || presence.archive ==> downloads(plan_of(presence)) == 0,
        presence.directory ==> extractions(plan_of(presence)) == 0,
        !presence.directory && presence.archive ==> plan_of(presence) == CachePlan::Extract,
{
}

} // verus!
