use vstd::prelude::*;
use crate::agent::{
    agent_argument, agent_argument_of, append_agent, is_agent_argument, launch_args,
    lemma_agent_argument_comes_last, names_agent,
};
use crate::archive::{action_models, archive_plan, unpack_plan, FsAction, FsActionModel};
use crate::cache::{
    accepts_status, agent_file, agent_file_name, agent_source, agent_url, download_needed,
    is_success_status, needs_download, plan_of, plan_server, server_directory,
    server_executable, server_executable_path, server_file, server_file_name, server_name,
    server_source, server_url, CachePlan, Presence,
};
use crate::config::{
    configured_args, configured_path, lemma_server_path_makes_explicit, resolution_of_options,
    resolve, DecisionModel, ResolvedDecision,
};
use crate::error::BootstrapError;
use crate::json::json_of;
use crate::launch::{
    compose_launch, document_pattern, language_id, launch_of, LaunchDescriptor, LaunchModel,
};
use crate::uri::{join_uri, parse_uri, uri_joined, uri_parsed, uri_text};

verus! {

/// What a session waits for: the answer to the request that it made last.
#[derive(Debug, PartialEq, Eq)]
pub enum Stage {
    /// Which of the language server's artifacts lie on disk.
    Presence,
    /// The response to the fetch of the archive.
    Download,
    /// The archive being persisted.
    Store,
    /// The bytes of the archive.
    Contents,
    /// The destination directory, or the action made last, being done; the
    /// actions that are still to be made follow.
    Unpack { pending: Vec<FsAction> },
    /// The working-directory URI.
    WorkingDirectory,
    /// Whether the agent jar lies on disk.
    AgentPresence { base: url::Url },
    /// The response to the fetch of the agent jar.
    AgentDownload { base: url::Url },
    /// The agent jar being persisted.
    AgentStore { base: url::Url },
}

/// A stage as plain data. The working directory stands with its
/// serialization.
pub enum StageModel {
    Presence,
    Download,
    Store,
    Contents,
    Unpack { pending: Seq<FsActionModel> },
    WorkingDirectory,
    AgentPresence { base: Seq<char> },
    AgentDownload { base: Seq<char> },
    AgentStore { base: Seq<char> },
}

impl View for Stage {
    type V = StageModel;

    open spec fn view(&self) -> StageModel {
        match *self {
            Stage::Presence => StageModel::Presence,
            Stage::Download => StageModel::Download,
            Stage::Store => StageModel::Store,
            Stage::Contents => StageModel::Contents,
            Stage::Unpack { pending } => StageModel::Unpack { pending: action_models(pending@) },
            Stage::WorkingDirectory => StageModel::WorkingDirectory,
            Stage::AgentPresence { base } => StageModel::AgentPresence { base: uri_text(base) },
            Stage::AgentDownload { base } => StageModel::AgentDownload { base: uri_text(base) },
            Stage::AgentStore { base } => StageModel::AgentStore { base: uri_text(base) },
        }
    }
}

/// The provisioning of a managed server in progress: where it stands, and
/// what the launch will be made of.
#[derive(Debug, PartialEq, Eq)]
pub struct Session {
    /// What the session waits for.
    pub stage: Stage,
    /// Whether the agent is injected.
    pub agent_enabled: bool,
    /// The configured launch arguments.
    pub args: Vec<String>,
    /// The host's configuration, as it was received.
    pub options: Option<serde_json::Value>,
}

/// A session as plain data.
pub struct SessionModel {
    pub stage: StageModel,
    pub agent_enabled: bool,
    pub args: Seq<Seq<char>>,
    pub options: Option<serde_json::Value>,
}

impl View for Session {
    type V = SessionModel;

    open spec fn view(&self) -> SessionModel {
        SessionModel {
            stage: self.stage@,
            agent_enabled: self.agent_enabled,
            args: self.args.deep_view(),
            options: self.options,
        }
    }
}

/// What a session asks its driver to do. File and directory names are
/// relative to the working directory.
#[derive(Debug, Clone, PartialEq, Eq)]
pub enum Request {
    /// Tell whether the extracted directory and the archive file exist.
    ProbeServer { directory: String, archive: String },
    /// Tell whether a file exists.
    Probe { path: String },
    /// Fetch a URL with a plain GET and hand over status and body.
    Fetch { url: String },
    /// Write the bytes to a file, verbatim.
    Store { file: String, data: Vec<u8> },
    /// Hand over the bytes of a file.
    Read { file: String },
    /// Create a directory, failing where it exists.
    CreateDirectory { path: String },
    /// Do one action of an extraction below a directory.
    Apply { directory: String, action: FsAction },
    /// Hand over the plugin's working-directory URI.
    WorkingDirectory,
}

/// A request as plain data.
pub enum RequestModel {
    ProbeServer { directory: Seq<char>, archive: Seq<char> },
    Probe { path: Seq<char> },
    Fetch { url: Seq<char> },
    Store { file: Seq<char>, data: Seq<u8> },
    Read { file: Seq<char> },
    CreateDirectory { path: Seq<char> },
    Apply { directory: Seq<char>, action: FsActionModel },
    WorkingDirectory,
}

impl View for Request {
    type V = RequestModel;

    open spec fn view(&self) -> RequestModel {
        match *self {
            Request::ProbeServer { directory, archive } => RequestModel::ProbeServer {
                directory: directory@,
                archive: archive@,
            },
            Request::Probe { path } => RequestModel::Probe { path: path@ },
            Request::Fetch { url } => RequestModel::Fetch { url: url@ },
            Request::Store { file, data } => RequestModel::Store { file: file@, data: data@ },
            Request::Read { file } => RequestModel::Read { file: file@ },
            Request::CreateDirectory { path } => RequestModel::CreateDirectory { path: path@ },
            Request::Apply { directory, action } => RequestModel::Apply {
                directory: directory@,
                action: action@,
            },
            Request::WorkingDirectory => RequestModel::WorkingDirectory,
        }
    }
}

/// What the driver reports back.
#[derive(Debug, Clone, PartialEq, Eq)]
pub enum Event {
    /// Which of the language server's artifacts exist.
    Presence { directory: bool, archive: bool },
    /// Whether the file exists.
    Exists(bool),
    /// The response to a fetch.
    Response { status: u16, body: Vec<u8> },
    /// The bytes of the file.
    Contents(Vec<u8>),
    /// The working-directory URI.
    Location(String),
    /// The request was carried out and has nothing to hand over.
    Completed,
    /// The request could not be carried out.
    Failed,
}

/// An event as plain data.
pub enum EventModel {
    Presence { directory: bool, archive: bool },
    Exists(bool),
    Response { status: u16, body: Seq<u8> },
    Contents(Seq<u8>),
    Location(Seq<char>),
    Completed,
    Failed,
}

impl View for Event {
    type V = EventModel;

    open spec fn view(&self) -> EventModel {
        match *self {
            Event::Presence { directory, archive } => EventModel::Presence { directory, archive },
            Event::Exists(present) => EventModel::Exists(present),
            Event::Response { status, body } => EventModel::Response { status, body: body@ },
            Event::Contents(bytes) => EventModel::Contents(bytes@),
            Event::Location(text) => EventModel::Location(text@),
            Event::Completed => EventModel::Completed,
            Event::Failed => EventModel::Failed,
        }
    }
}

/// How an initialize call goes on: with a request to the driver, with the
/// launch, or not at all.
#[derive(Debug, PartialEq, Eq)]
pub enum Step {
    /// The driver carries out the request and reports back to the session.
    Ask(Session, Request),
    /// The driver starts the backend: the call is done.
    Launch(LaunchDescriptor),
    /// The call is aborted: nothing is launched.
    Abort(BootstrapError),
}

/// A step as plain data.
pub enum StepModel {
    Ask(SessionModel, RequestModel),
    Launch(LaunchModel),
    Abort(BootstrapError),
}

impl View for Step {
    type V = StepModel;

    open spec fn view(&self) -> StepModel {
        match *self {
            Step::Ask(session, request) => StepModel::Ask(session@, request@),
            Step::Launch(descriptor) => StepModel::Launch(descriptor@),
            Step::Abort(error) => StepModel::Abort(error),
        }
    }
}

/// The error that ends a session where the request of a stage could not be
/// carried out.
pub open spec fn failure_of(stage: StageModel) -> BootstrapError {
    match stage {
        StageModel::Presence => BootstrapError::ExtractError,
        StageModel::Download => BootstrapError::DownloadError,
        StageModel::Store => BootstrapError::DownloadError,
        StageModel::Contents => BootstrapError::ExtractError,
        StageModel::Unpack { .. } => BootstrapError::ExtractError,
        StageModel::WorkingDirectory => BootstrapError::AgentPathError,
        StageModel::AgentPresence { .. } => BootstrapError::AgentPathError,
        StageModel::AgentDownload { .. } => BootstrapError::DownloadError,
        StageModel::AgentStore { .. } => BootstrapError::DownloadError,
    }
}

/// The step that moves a session to a stage with a request.
pub open spec fn ask(pre: SessionModel, stage: StageModel, request: RequestModel) -> StepModel {
    StepModel::Ask(SessionModel { stage, ..pre }, request)
}

/// The step that ends a session once everything is in place: the launch of
/// the backend's executable below the working directory, or an agent path
/// error where that gives no URI.
pub open spec fn finish(
    args: Seq<Seq<char>>,
    options: Option<serde_json::Value>,
    base: Seq<char>,
    agent: Option<Seq<char>>,
) -> StepModel {
    match uri_joined(base, server_executable_path()) {
        Some(uri) => StepModel::Launch(launch_of(uri, launch_args(args, agent), options)),
        None => StepModel::Abort(BootstrapError::AgentPathError),
    }
}

/// The step that ends a session with the agent, for the path that the
/// platform gave to the jar below the working directory, if it gave one.
pub open spec fn finish_with_agent(
    args: Seq<Seq<char>>,
    options: Option<serde_json::Value>,
    base: Seq<char>,
    agent_path: Option<Seq<char>>,
) -> StepModel {
    match (uri_joined(base, agent_file_name()), agent_path) {
        (Some(_), Some(path)) => if names_agent(path) {
            finish(args, options, base, Some(agent_argument_of(path)))
        } else {
            StepModel::Abort(BootstrapError::AgentPathError)
        },
        _ => StepModel::Abort(BootstrapError::AgentPathError),
    }
}

/// The step that follows the fetch of an artifact: the body of a response
/// with a success status is persisted, every other answer is a download error.
pub open spec fn after_fetch(
    pre: SessionModel,
    event: EventModel,
    stage: StageModel,
    file: Seq<char>,
) -> StepModel {
    match event {
        EventModel::Response { status, body } => if is_success_status(status) {
            ask(pre, stage, RequestModel::Store { file, data: body })
        } else {
            StepModel::Abort(BootstrapError::DownloadError)
        },
        _ => StepModel::Abort(BootstrapError::DownloadError),
    }
}

/// The step that a session takes on an event. An event that does not answer
/// the request made last counts as that request's failure. `agent_path` is
/// what the platform makes of the agent jar's URI, and matters only where the
/// session ends with the agent.
pub open spec fn next(
    pre: SessionModel,
    event: EventModel,
    agent_path: Option<Seq<char>>,
) -> StepModel {
    match pre.stage {
        StageModel::Presence => match event {
            EventModel::Presence { directory, archive } => match plan_of(
                Presence { directory, archive },
            ) {
                CachePlan::Reuse => ask(
                    pre,
                    StageModel::WorkingDirectory,
                    RequestModel::WorkingDirectory,
                ),
                CachePlan::Extract => ask(
                    pre,
                    StageModel::Contents,
                    RequestModel::Read { file: server_file_name() },
                ),
                CachePlan::DownloadAndExtract => ask(
                    pre,
                    StageModel::Download,
                    RequestModel::Fetch { url: server_url() },
                ),
            },
            _ => StepModel::Abort(failure_of(pre.stage)),
        },
        StageModel::Download => after_fetch(pre, event, StageModel::Store, server_file_name()),
        StageModel::Store => match event {
            EventModel::Completed => ask(
                pre,
                StageModel::Contents,
                RequestModel::Read { file: server_file_name() },
            ),
            _ => StepModel::Abort(failure_of(pre.stage)),
        },
        StageModel::Contents => match event {
            EventModel::Contents(bytes) => match archive_plan(bytes) {
                Some(plan) => ask(
                    pre,
                    StageModel::Unpack { pending: plan },
                    RequestModel::CreateDirectory { path: server_name() },
                ),
                None => StepModel::Abort(BootstrapError::ExtractError),
            },
            _ => StepModel::Abort(failure_of(pre.stage)),
        },
        StageModel::Unpack { pending } => match event {
            EventModel::Completed => if pending.len() > 0 {
                ask(
                    pre,
                    StageModel::Unpack { pending: pending.drop_first() },
                    RequestModel::Apply { directory: server_name(), action: pending.first() },
                )
            } else {
                ask(pre, StageModel::WorkingDirectory, RequestModel::WorkingDirectory)
            },
            _ => StepModel::Abort(failure_of(pre.stage)),
        },
        StageModel::WorkingDirectory => match event {
            EventModel::Location(text) => match uri_parsed(text) {
                Some(base) => if pre.agent_enabled {
                    ask(
                        pre,
                        StageModel::AgentPresence { base },
                        RequestModel::Probe { path: agent_file_name() },
                    )
                } else {
                    finish(pre.args, pre.options, base, None)
                },
                None => StepModel::Abort(BootstrapError::AgentPathError),
            },
            _ => StepModel::Abort(failure_of(pre.stage)),
        },
        StageModel::AgentPresence { base } => match event {
            EventModel::Exists(present) => if download_needed(present) {
                ask(
                    pre,
                    StageModel::AgentDownload { base },
                    RequestModel::Fetch { url: agent_url() },
                )
            } else {
                finish_with_agent(pre.args, pre.options, base, agent_path)
            },
            _ => StepModel::Abort(failure_of(pre.stage)),
        },
        StageModel::AgentDownload { base } => after_fetch(
            pre,
            event,
            StageModel::AgentStore { base },
            agent_file_name(),
        ),
        StageModel::AgentStore { base } => match event {
            EventModel::Completed => finish_with_agent(pre.args, pre.options, base, agent_path),
            _ => StepModel::Abort(failure_of(pre.stage)),
        },
    }
}

/// The first step of an initialize call. An explicit server is launched at
/// once, with nothing provisioned; a managed one starts with a look at the
/// disk; a configuration error aborts the call.
pub open spec fn start_of(options: Option<serde_json::Value>) -> StepModel {
    match resolution_of_options(
        match options {
            Some(config) => Some(json_of(config)),
            None => None,
        },
        Seq::empty(),
    ) {
        Ok(DecisionModel::ExplicitServer { uri, args }) => StepModel::Launch(
            launch_of(uri, args, options),
        ),
        Ok(DecisionModel::ManagedServer { agent_enabled, args }) => StepModel::Ask(
            SessionModel { stage: StageModel::Presence, agent_enabled, args, options },
            RequestModel::ProbeServer { directory: server_name(), archive: server_file_name() },
        ),
        Err(error) => StepModel::Abort(error),
    }
}

/// Whether a session hangs together: only a session with the agent waits
/// for anything about the agent jar.
pub open spec fn well_formed(session: SessionModel) -> bool {
    match session.stage {
        StageModel::AgentPresence { .. } => session.agent_enabled,
        StageModel::AgentDownload { .. } => session.agent_enabled,
        StageModel::AgentStore { .. } => session.agent_enabled,
        _ => true,
    }
}

/// Ends a session with the launch of the backend below the working
/// directory.
fn launch_managed(
    args: Vec<String>,
    options: Option<serde_json::Value>,
    base: &url::Url,
    agent: Option<String>,
) -> (step: Step)
    ensures
        step@ == finish(
            args.deep_view(),
            options,
            uri_text(*base),
            match agent {
                Some(argument) => Some(argument@),
                None => None,
            },
        ),
{
    let executable = server_executable();
    match join_uri(base, executable.as_str()) {
        Ok(uri) => Step::Launch(compose_launch(uri, append_agent(args, agent), options)),
        Err(_) => Step::Abort(BootstrapError::AgentPathError),
    }
}

/// Ends a session with the agent: resolves the jar, then launches.
fn launch_with_agent(
    args: Vec<String>,
    options: Option<serde_json::Value>,
    base: &url::Url,
) -> (step: Step)
    ensures
        exists|agent_path: Option<Seq<char>>|
            step@ == #[trigger] finish_with_agent(
                args.deep_view(),
                options,
                uri_text(*base),
                agent_path,
            ),
{
    let ghost configured = args.deep_view();
    match agent_argument(base) {
        Ok(argument) => {
            let ghost path = choose|path: Seq<char>|
                names_agent(path) && argument@ == agent_argument_of(path);
            let step = launch_managed(args, options, base, Some(argument));
            assert(step@ == finish_with_agent(configured, options, uri_text(*base), Some(path)));
            step
        },
        Err(_) => {
            let step = Step::Abort(BootstrapError::AgentPathError);
            assert(step@ == finish_with_agent(configured, options, uri_text(*base), None));
            step
        },
    }
}

/// Begins an initialize call: resolves the configuration and takes the first
/// step.
pub fn begin(options: Option<serde_json::Value>) -> (step: Step)
    ensures
        step@ == start_of(options),
        step matches Step::Ask(session, _) ==> well_formed(session@),
{
    match resolve(options.as_ref()) {
        Ok(ResolvedDecision::ExplicitServer { uri, args }) => Step::Launch(
            compose_launch(uri, args, options),
        ),
        Ok(ResolvedDecision::ManagedServer { agent_enabled, args }) => Step::Ask(
            Session { stage: Stage::Presence, agent_enabled, args, options },
            Request::ProbeServer { directory: server_directory(), archive: server_file() },
        ),
        Err(error) => Step::Abort(error),
    }
}

impl Session {
    /// Takes the step that an event calls for. The session is used up: a step
    /// that asks for more hands the session on.
    pub fn advance(self, event: Event) -> (step: Step)
        ensures
            exists|agent_path: Option<Seq<char>>| step@ == #[trigger] next(self@, event@, agent_path),
            well_formed(self@) ==> (step matches Step::Ask(session, _) ==> well_formed(session@)),
    {
        let ghost pre = self@;
        let ghost happened = event@;
        let step = self.take_step(event);
        proof {
            let agent_path = choose|agent_path: Option<Seq<char>>|
                step@ == #[trigger] next(pre, happened, agent_path);
            if well_formed(pre) {
                lemma_next_keeps_session(pre, happened, agent_path);
            }
        }
        step
    }

    fn take_step(self, event: Event) -> (step: Step)
        ensures
            exists|agent_path: Option<Seq<char>>| step@ == #[trigger] next(self@, event@, agent_path),
    {
        let ghost pre = self@;
        let ghost happened = event@;
        let Session { stage, agent_enabled, args, options } = self;
        match stage {
            Stage::Presence => {
                let step = match event {
                    Event::Presence { directory, archive } => match plan_server(
                        Presence { directory, archive },
                    ) {
                        CachePlan::Reuse => Step::Ask(
                            Session { stage: Stage::WorkingDirectory, agent_enabled, args, options },
                            Request::WorkingDirectory,
                        ),
                        CachePlan::Extract => Step::Ask(
                            Session { stage: Stage::Contents, agent_enabled, args, options },
                            Request::Read { file: server_file() },
                        ),
                        CachePlan::DownloadAndExtract => Step::Ask(
                            Session { stage: Stage::Download, agent_enabled, args, options },
                            Request::Fetch { url: server_source() },
                        ),
                    },
                    _ => Step::Abort(BootstrapError::ExtractError),
                };
                assert(step@ == next(pre, happened, None));
                step
            },
            Stage::Download => {
                let step = match event {
                    Event::Response { status, body } => if accepts_status(status) {
                        Step::Ask(
                            Session { stage: Stage::Store, agent_enabled, args, options },
                            Request::Store { file: server_file(), data: body },
                        )
                    } else {
                        Step::Abort(BootstrapError::DownloadError)
                    },
                    _ => Step::Abort(BootstrapError::DownloadError),
                };
                assert(step@ == next(pre, happened, None));
                step
            },
            Stage::Store => {
                let step = match event {
                    Event::Completed => Step::Ask(
                        Session { stage: Stage::Contents, agent_enabled, args, options },
                        Request::Read { file: server_file() },
                    ),
                    _ => Step::Abort(BootstrapError::DownloadError),
                };
                assert(step@ == next(pre, happened, None));
                step
            },
            Stage::Contents => {
                let step = match event {
                    Event::Contents(bytes) => match unpack_plan(bytes.as_slice()) {
                        Ok(pending) => Step::Ask(
                            Session {
                                stage: Stage::Unpack { pending },
                                agent_enabled,
                                args,
                                options,
                            },
                            Request::CreateDirectory { path: server_directory() },
                        ),
                        Err(error) => Step::Abort(error),
                    },
                    _ => Step::Abort(BootstrapError::ExtractError),
                };
                assert(step@ == next(pre, happened, None));
                step
            },
            Stage::Unpack { pending } => {
                let step = match event {
                    Event::Completed => {
                        let mut pending = pending;
                        if pending.len() > 0 {
                            let ghost before = action_models(pending@);
                            let action = pending.remove(0);
                            assert(action_models(pending@) =~= before.drop_first());
                            Step::Ask(
                                Session {
                                    stage: Stage::Unpack { pending },
                                    agent_enabled,
                                    args,
                                    options,
                                },
                                Request::Apply { directory: server_directory(), action },
                            )
                        } else {
                            Step::Ask(
                                Session {
                                    stage: Stage::WorkingDirectory,
                                    agent_enabled,
                                    args,
                                    options,
                                },
                                Request::WorkingDirectory,
                            )
                        }
                    },
                    _ => Step::Abort(BootstrapError::ExtractError),
                };
                assert(step@ == next(pre, happened, None));
                step
            },
            Stage::WorkingDirectory => {
                let step = match event {
                    Event::Location(text) => match parse_uri(text.as_str()) {
                        Ok(base) => if agent_enabled {
                            Step::Ask(
                                Session {
                                    stage: Stage::AgentPresence { base },
                                    agent_enabled,
                                    args,
                                    options,
                                },
                                Request::Probe { path: agent_file() },
                            )
                        } else {
                            launch_managed(args, options, &base, None)
                        },
                        Err(_) => Step::Abort(BootstrapError::AgentPathError),
                    },
                    _ => Step::Abort(BootstrapError::AgentPathError),
                };
                assert(step@ == next(pre, happened, None));
                step
            },
            Stage::AgentPresence { base } => match event {
                Event::Exists(present) => if needs_download(present) {
                    let step = Step::Ask(
                        Session {
                            stage: Stage::AgentDownload { base },
                            agent_enabled,
                            args,
                            options,
                        },
                        Request::Fetch { url: agent_source() },
                    );
                    assert(step@ == next(pre, happened, None));
                    step
                } else {
                    let step = launch_with_agent(args, options, &base);
                    proof {
                        let agent_path = choose|agent_path: Option<Seq<char>>|
                            step@ == #[trigger] finish_with_agent(
                                pre.args,
                                pre.options,
                                uri_text(base),
                                agent_path,
                            );
                        assert(step@ == next(pre, happened, agent_path));
                    }
                    step
                },
                _ => {
                    let step = Step::Abort(BootstrapError::AgentPathError);
                    assert(step@ == next(pre, happened, None));
                    step
                },
            },
            Stage::AgentDownload { base } => {
                let step = match event {
                    Event::Response { status, body } => if accepts_status(status) {
                        Step::Ask(
                            Session {
                                stage: Stage::AgentStore { base },
                                agent_enabled,
                                args,
                                options,
                            },
                            Request::Store { file: agent_file(), data: body },
                        )
                    } else {
                        Step::Abort(BootstrapError::DownloadError)
                    },
                    _ => Step::Abort(BootstrapError::DownloadError),
                };
                assert(step@ == next(pre, happened, None));
                step
            },
            Stage::AgentStore { base } => match event {
                Event::Completed => {
                    let step = launch_with_agent(args, options, &base);
                    proof {
                        let agent_path = choose|agent_path: Option<Seq<char>>|
                            step@ == #[trigger] finish_with_agent(
                                pre.args,
                                pre.options,
                                uri_text(base),
                                agent_path,
                            );
                        assert(step@ == next(pre, happened, agent_path));
                    }
                    step
                },
                _ => {
                    let step = Step::Abort(BootstrapError::DownloadError);
                    assert(step@ == next(pre, happened, None));
                    step
                },
            },
        }
    }
}

/// The session that a call begins with hangs together, and holds the
/// options as the host gave them.
pub proof fn lemma_start_is_well_formed(options: Option<serde_json::Value>)
    ensures
        start_of(options) matches StepModel::Ask(session, _) ==> well_formed(session)
            && session.options == options,
        start_of(options) matches StepModel::Launch(launch) ==> launch.options == options,
{
}

/// A step that asks for more hands the session on as it was, but for the
/// stage: the agent flag, the configured arguments and the options stay.
pub proof fn lemma_next_keeps_session(
    pre: SessionModel,
    event: EventModel,
    agent_path: Option<Seq<char>>,
)
    requires
        well_formed(pre),
    ensures
        next(pre, event, agent_path) matches StepModel::Ask(post, _) ==> well_formed(post)
            && post.agent_enabled == pre.agent_enabled && post.args == pre.args && post.options
            == pre.options,
{
}

/// What a session launches. The options are the host's, untouched, and the
/// document rule is the fixed one. With the agent, the last argument injects
/// it and the configured arguments stand before it; without the agent, the
/// arguments are the configured ones and nothing else.
pub proof fn lemma_launch_carries_session(
    pre: SessionModel,
    event: EventModel,
    agent_path: Option<Seq<char>>,
)
    requires
        well_formed(pre),
    ensures
        next(pre, event, agent_path) matches StepModel::Launch(launch) ==> {
            &&& launch.options == pre.options
            &&& launch.language == language_id()
            &&& launch.pattern == document_pattern()
            &&& pre.agent_enabled ==> launch.args.len() > 0 && is_agent_argument(
                launch.args.last(),
            ) && launch.args.drop_last() == pre.args
            &&& !pre.agent_enabled ==> launch.args == pre.args
        },
{
    if next(pre, event, agent_path) is Launch && pre.agent_enabled {
        let path = agent_path.unwrap();
        lemma_agent_argument_comes_last(pre.args, path);
    }
}

/// Nothing is fetched that lies on disk: a fetch is asked for only after a
/// look at the disk that found the artifact absent, and, for the language
/// server, the extracted directory absent too.
pub proof fn lemma_fetch_only_when_absent(
    pre: SessionModel,
    event: EventModel,
    agent_path: Option<Seq<char>>,
)
    ensures
        next(pre, event, agent_path) matches StepModel::Ask(_, RequestModel::Fetch { .. }) ==> {
            ||| pre.stage is Presence && event == (EventModel::Presence {
                directory: false,
                archive: false,
            })
            ||| pre.stage is AgentPresence && event == EventModel::Exists(false)
        },
{
}

/// Every failure aborts the call: a request that could not be carried out
/// ends the session with the error of its stage, and nothing is launched.
pub proof fn lemma_failure_aborts(pre: SessionModel, agent_path: Option<Seq<char>>)
    ensures
        next(pre, EventModel::Failed, agent_path) == StepModel::Abort(failure_of(pre.stage)),
{
}

/// An extracted directory that lies on disk is reused: the session goes on
/// to the working directory, with nothing fetched, read or written.
pub proof fn lemma_present_directory_is_reused(
    pre: SessionModel,
    archive: bool,
    agent_path: Option<Seq<char>>,
)
    requires
        pre.stage is Presence,
    ensures
        next(pre, EventModel::Presence { directory: true, archive }, agent_path) == ask(
            pre,
            StageModel::WorkingDirectory,
            RequestModel::WorkingDirectory,
        ),
{
}

/// A call on a provisioned disk changes nothing. With the extracted
/// directory on disk, and the agent jar where the agent is wanted, the
/// session asks for the working directory and for a look at the jar, and for
/// nothing else: it fetches, stores, reads and writes nothing before it ends.
pub proof fn lemma_provisioned_call_is_quiet(
    pre: SessionModel,
    archive: bool,
    location: Seq<char>,
    agent_path: Option<Seq<char>>,
)
    requires
        pre.stage is Presence,
    ensures
        next(pre, EventModel::Presence { directory: true, archive }, agent_path) matches StepModel::Ask(
            located,
            request,
        ) && request == RequestModel::WorkingDirectory && (next(
            located,
            EventModel::Location(location),
            agent_path,
        ) matches StepModel::Ask(probing, request) ==> pre.agent_enabled && request
            == (RequestModel::Probe { path: agent_file_name() }) && !(next(
            probing,
            EventModel::Exists(true),
            agent_path,
        ) is Ask)),
{
}

/// A configuration with a non-empty `volt.serverPath` asks the driver for
/// nothing: the call ends at once, with the launch or with a configuration
/// error.
pub proof fn lemma_explicit_server_skips_provisioning(config: serde_json::Value)
    requires
        configured_path(json_of(config)) is Some,
        configured_path(json_of(config)).unwrap().len() > 0,
    ensures
        !(start_of(Some(config)) is Ask),
        start_of(Some(config)) matches StepModel::Abort(error) ==> error
            == BootstrapError::ConfigError,
        start_of(Some(config)) matches StepModel::Launch(launch) ==> launch.args
            == configured_args(json_of(config), Seq::empty()) && launch.options == Some(config),
{
    lemma_server_path_makes_explicit(json_of(config), Seq::empty());
}

} // verus!
