use vstd::prelude::*;
use crate::error::BootstrapError;

verus! {

/// `std::io::Error`: why an archive could not be decoded. It is carried,
/// never read.
#[verifier::external_type_specification]
#[verifier::external_body]
pub struct ExIoError(std::io::Error);

/// The byte that separates the components of an entry's path.
pub const SEPARATOR: u8 = 47;

/// The byte of which the parent component `..` is made.
pub const DOT: u8 = 46;

/// One member of an archive, as the archive lists it.
#[derive(Debug, Clone, PartialEq, Eq)]
pub struct ArchiveEntry {
    /// The member's path, as the bytes that the archive holds.
    pub path: Vec<u8>,
    /// Whether the member is a regular file.
    pub is_file: bool,
    /// Whether the member is a directory.
    pub is_dir: bool,
    /// The member's content.
    pub data: Vec<u8>,
}

/// An archive member as plain data.
pub struct EntryModel {
    pub path: Seq<u8>,
    pub is_file: bool,
    pub is_dir: bool,
    pub data: Seq<u8>,
}

impl View for ArchiveEntry {
    type V = EntryModel;

    open spec fn view(&self) -> EntryModel {
        EntryModel { path: self.path@, is_file: self.is_file, is_dir: self.is_dir, data: self.data@ }
    }
}

/// One thing to do below the destination directory. Paths are relative to it.
#[derive(Debug, Clone, PartialEq, Eq)]
pub enum FsAction {
    /// Create the directory, and every ancestor of it that is missing.
    CreateDirectories { path: Vec<u8> },
    /// Create the file and write the bytes to it.
    WriteFile { path: Vec<u8>, data: Vec<u8> },
}

/// A filesystem action as plain data.
pub enum FsActionModel {
    CreateDirectories { path: Seq<u8> },
    WriteFile { path: Seq<u8>, data: Seq<u8> },
}

impl View for FsAction {
    type V = FsActionModel;

    open spec fn view(&self) -> FsActionModel {
        match *self {
            FsAction::CreateDirectories { path } => FsActionModel::CreateDirectories {
                path: path@,
            },
            FsAction::WriteFile { path, data } => FsActionModel::WriteFile {
                path: path@,
                data: data@,
            },
        }
    }
}

impl FsActionModel {
    /// The path that the action creates.
    pub open spec fn path(self) -> Seq<u8> {
        match self {
            FsActionModel::CreateDirectories { path } => path,
            FsActionModel::WriteFile { path, .. } => path,
        }
    }
}

/// Each entry as plain data, in order.
pub open spec fn entry_models(entries: Seq<ArchiveEntry>) -> Seq<EntryModel> {
    entries.map_values(|entry: ArchiveEntry| entry@)
}

/// Each action as plain data, in order.
pub open spec fn action_models(actions: Seq<FsAction>) -> Seq<FsActionModel> {
    actions.map_values(|action: FsAction| action@)
}

/// The members of a gzip-compressed tar archive, in the archive's order and
/// as the archive lists them, or `None` where the bytes cannot be decoded to
/// the end.
pub uninterp spec fn unpacked(archive: Seq<u8>) -> Option<Seq<EntryModel>>;

/// Decodes a gzip-compressed tar archive held in memory: a
/// `flate2::read::MultiGzDecoder` over the bytes, a `tar::Archive` over that,
/// and its raw entries one after the other, each with `Entry::path_bytes`, the
/// `is_file` and `is_dir` of its header's entry type, and its content read to
/// the end. The contract only names the outcome: it is `unpacked` of the
/// bytes, an error exactly where that is `None`.
#[verifier::external_body]
pub(crate) fn read_entries(archive: &[u8]) -> (listing: Result<Vec<ArchiveEntry>, std::io::Error>)
    ensures
        match listing {
            Ok(entries) => unpacked(archive@) == Some(entry_models(entries@)),
            Err(_) => unpacked(archive@) is None,
        },
{
    let mut archive = tar::Archive::new(flate2::read::MultiGzDecoder::new(archive));
    let mut entries = Vec::new();
    for item in archive.entries()?.raw(true) {
        let mut entry = item?;
        let kind = entry.header().entry_type();
        let path = entry.path_bytes().into_owned();
        let mut data = Vec::new();
        std::io::Read::read_to_end(&mut entry, &mut data)?;
        entries.push(ArchiveEntry { path, is_file: kind.is_file(), is_dir: kind.is_dir(), data });
    }
    Ok(entries)
}

/// Whether a path starts at the root.
pub open spec fn is_absolute(path: Seq<u8>) -> bool {
    path.len() > 0 && path[0] == SEPARATOR
}

/// Whether the component `..` stands at a position of a path: two dots with a
/// separator, or an end of the path, on either side.
pub open spec fn parent_component_at(path: Seq<u8>, at: int) -> bool {
    &&& 0 <= at
    &&& at + 2 <= path.len()
    &&& path[at] == DOT
    &&& path[at + 1] == DOT
    &&& (at == 0 || path[at - 1] == SEPARATOR)
    &&& (at + 2 == path.len() || path[at + 2] == SEPARATOR)
}

/// Whether a path stays below the directory that it is joined to: it does not
/// start at the root and none of its components is `..`.
pub open spec fn is_safe_path(path: Seq<u8>) -> bool {
    !is_absolute(path) && forall|at: int| !parent_component_at(path, at)
}

/// Whether extraction writes an entry: only regular files and directories.
pub open spec fn is_extractable(entry: EntryModel) -> bool {
    entry.is_dir || entry.is_file
}

/// What extraction does for an entry: a directory is created with its
/// ancestors, a regular file is written, and every other entry is passed over.
pub open spec fn action_of(entry: EntryModel) -> Option<FsActionModel> {
    if entry.is_dir {
        Some(FsActionModel::CreateDirectories { path: entry.path })
    } else if entry.is_file {
        Some(FsActionModel::WriteFile { path: entry.path, data: entry.data })
    } else {
        None
    }
}

/// Whether every entry that extraction writes has a safe path.
pub open spec fn all_paths_safe(entries: Seq<EntryModel>) -> bool {
    forall|index: int|
        0 <= index < entries.len() && is_extractable(#[trigger] entries[index]) ==> is_safe_path(
            entries[index].path,
        )
}

/// The actions that extract a listing, in the listing's order, or `None`
/// where an entry to be written has an unsafe path: then nothing is written.
pub open spec fn extraction_plan(entries: Seq<EntryModel>) -> Option<Seq<FsActionModel>> {
    if all_paths_safe(entries) {
        Some(entries.filter_map(|entry: EntryModel| action_of(entry)))
    } else {
        None
    }
}

/// Tells whether a path stays below the directory that it is joined to.
pub fn is_safe(path: &Vec<u8>) -> (safe: bool)
    ensures
        safe == is_safe_path(path@),
{
    let len = path.len();
    if len > 0 && path[0] == SEPARATOR {
        return false;
    }
    let mut at: usize = 0;
    while at < len
        invariant
            len == path.len(),
            at <= len,
            forall|before: int| 0 <= before < at ==> !parent_component_at(path@, before),
        decreases len - at,
    {
        if len - at >= 2 && path[at] == DOT && path[at + 1] == DOT && (at == 0 || path[at - 1]
            == SEPARATOR) && (at + 2 == len || path[at + 2] == SEPARATOR) {
            assert(parent_component_at(path@, at as int));
            return false;
        }
        at = at + 1;
    }
    true
}

/// Plans the extraction of a listing: one action for each regular file and
/// each directory, in the listing's order, and none for any other entry. A
/// listing in which an entry to be written has an unsafe path is refused as a
/// whole.
pub fn plan_extraction(entries: Vec<ArchiveEntry>) -> (outcome: Result<
    Vec<FsAction>,
    BootstrapError,
>)
    ensures
        match outcome {
            Ok(actions) => extraction_plan(entry_models(entries@)) == Some(
                action_models(actions@),
            ),
            Err(error) => error == BootstrapError::ExtractError && extraction_plan(
                entry_models(entries@),
            ) is None,
        },
{
    let ghost listing = entry_models(entries@);
    let mut actions: Vec<FsAction> = Vec::new();
    for entry in iter: entries
        invariant
            iter.seq() == entries@,
            listing == entry_models(entries@),
            all_paths_safe(listing.take(iter.index())),
            action_models(actions@) == listing.take(iter.index()).filter_map(
                |entry: EntryModel| action_of(entry),
            ),
    {
        let ghost index = iter.index();
        let ghost before = action_models(actions@);
        proof {
            listing.lemma_filter_map_take_succ(|entry: EntryModel| action_of(entry), index);
            assert(listing[index] == entry@);
        }
        if entry.is_dir || entry.is_file {
            if !is_safe(&entry.path) {
                assert(!all_paths_safe(listing));
                return Err(BootstrapError::ExtractError);
            }
            let ArchiveEntry { path, is_file: _, is_dir, data } = entry;
            if is_dir {
                actions.push(FsAction::CreateDirectories { path });
            } else {
                actions.push(FsAction::WriteFile { path, data });
            }
            assert(action_models(actions@) =~= before.push(action_of(listing[index]).unwrap()));
        }
        assert(all_paths_safe(listing.take(index + 1))) by {
            assert forall|at: int|
                0 <= at < index + 1 && is_extractable(
                    #[trigger] listing.take(index + 1)[at],
                ) implies is_safe_path(listing.take(index + 1)[at].path) by {
                if at < index {
                    assert(listing.take(index)[at] == listing.take(index + 1)[at]);
                }
            }
        }
    }
    assert(listing.take(listing.len() as int) =~= listing);
    Ok(actions)
}

/// The actions that extract an archive, or `None` where the archive cannot
/// be decoded or an entry to be written has an unsafe path.
pub open spec fn archive_plan(archive: Seq<u8>) -> Option<Seq<FsActionModel>> {
    match unpacked(archive) {
        Some(entries) => extraction_plan(entries),
        None => None,
    }
}

/// Decodes an archive and plans its extraction. Both failures are extract
/// errors, and both come before anything is written.
pub fn unpack_plan(archive: &[u8]) -> (outcome: Result<Vec<FsAction>, BootstrapError>)
    ensures
        match outcome {
            Ok(actions) => archive_plan(archive@) == Some(action_models(actions@)),
            Err(error) => error == BootstrapError::ExtractError && archive_plan(archive@) is None,
        },
{
    match read_entries(archive) {
        Ok(entries) => plan_extraction(entries),
        Err(_) => Err(BootstrapError::ExtractError),
    }
}

/// Extraction writes only regular files and directories: every action of a
/// plan stands for an entry of the listing that is one of the two, and
/// creates that entry's path.
pub proof fn lemma_plan_writes_only_files_and_directories(entries: Seq<EntryModel>, at: int)
    requires
        extraction_plan(entries) is Some,
        0 <= at < extraction_plan(entries).unwrap().len(),
    ensures
        exists|index: int|
            0 <= index < entries.len() && is_extractable(#[trigger] entries[index]) && action_of(
                entries[index],
            ) == Some(extraction_plan(entries).unwrap()[at]) && entries[index].path
                == extraction_plan(entries).unwrap()[at].path(),
{
    let convert = |entry: EntryModel| action_of(entry);
    let plan = entries.filter_map(convert);
    assert(plan.contains(plan[at]));
    entries.lemma_filter_map_contains(convert, plan[at]);
    let entry = choose|entry: EntryModel| #[trigger]
        entries.contains(entry) && convert(entry) == Some(plan[at]);
    let index = choose|index: int| 0 <= index < entries.len() && entries[index] == entry;
    assert(is_extractable(entries[index]));
}

/// A path under which the listing holds only entries that are neither
/// regular files nor directories (a symlink, a hard link, a device) is
/// created by no action of the plan.
pub proof fn lemma_skipped_path_is_not_written(entries: Seq<EntryModel>, path: Seq<u8>)
    requires
        extraction_plan(entries) is Some,
        forall|index: int|
            0 <= index < entries.len() && (#[trigger] entries[index]).path == path
                ==> !is_extractable(entries[index]),
    ensures
        forall|at: int|
            0 <= at < extraction_plan(entries).unwrap().len() ==> (
            #[trigger] extraction_plan(entries).unwrap()[at]).path() != path,
{
    let plan = extraction_plan(entries).unwrap();
    assert forall|at: int| 0 <= at < plan.len() implies (#[trigger] plan[at]).path() != path by {
        lemma_plan_writes_only_files_and_directories(entries, at);
    }
}

/// Every path that a plan creates is safe.
pub proof fn lemma_plan_paths_are_safe(entries: Seq<EntryModel>, at: int)
    requires
        extraction_plan(entries) is Some,
        0 <= at < extraction_plan(entries).unwrap().len(),
    ensures
        is_safe_path(extraction_plan(entries).unwrap()[at].path()),
{
    lemma_plan_writes_only_files_and_directories(entries, at);
}

} // verus!
