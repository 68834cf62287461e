use vstd::prelude::*;
use vstd::string::{StrSliceExecFns, StringExecFns};
use crate::cache::{agent_file, agent_file_name};
use crate::error::BootstrapError;
use crate::uri::{file_path_of, join_uri, uri_joined, uri_text};

verus! {

/// What stands before the agent's path in its launch argument.
pub open spec fn agent_prefix() -> Seq<char> {
    "--jvm-arg=-javaagent:"@
}

/// The launch argument that injects the agent from a path.
pub open spec fn agent_argument_of(path: Seq<char>) -> Seq<char> {
    agent_prefix() + path
}

/// Whether a path names the agent jar: it ends with the jar's file name.
pub open spec fn names_agent(path: Seq<char>) -> bool {
    agent_file_name().is_suffix_of(path)
}

/// Whether an argument injects the agent: the prefix, then a path that ends
/// with the jar's file name.
pub open spec fn is_agent_argument(argument: Seq<char>) -> bool {
    exists|path: Seq<char>| names_agent(path) && argument == agent_argument_of(path)
}

/// Tells whether a text ends with another.
pub fn ends_with(text: &str, suffix: &str) -> (ends: bool)
    ensures
        ends == suffix@.is_suffix_of(text@),
{
    let length = text.unicode_len();
    let tail = suffix.unicode_len();
    if tail > length {
        return false;
    }
    let end = text.substring_char(length - tail, length);
    let same = end.to_owned() == suffix.to_owned();
    proof {
        if same {
            assert(suffix@ =~= text@.subrange(text@.len() - suffix@.len(), text@.len() as int));
        }
    }
    same
}

/// The launch argument for an agent path that was resolved, or the error
/// where none was: a path that does not name the jar counts as none.
pub fn agent_argument_for(path: Option<String>) -> (outcome: Result<String, BootstrapError>)
    ensures
        match outcome {
            Ok(argument) => path matches Some(text) && names_agent(text@) && argument@
                == agent_argument_of(text@),
            Err(error) => error == BootstrapError::AgentPathError && !(path matches Some(text)
                && names_agent(text@)),
        },
{
    match path {
        Some(text) => {
            if ends_with(text.as_str(), agent_file().as_str()) {
                Ok(String::from_str("--jvm-arg=-javaagent:").concat(text.as_str()))
            } else {
                Err(BootstrapError::AgentPathError)
            }
        },
        None => Err(BootstrapError::AgentPathError),
    }
}

/// Resolves the agent jar against the working directory and makes its
/// launch argument. Whether the jar's URI has a filesystem path is for the
/// platform to say: whatever it says, an argument that comes back injects the
/// agent, and every failure is an agent path error.
pub fn agent_argument(base: &url::Url) -> (outcome: Result<String, BootstrapError>)
    ensures
        match outcome {
            Ok(argument) => is_agent_argument(argument@) && uri_joined(
                uri_text(*base),
                agent_file_name(),
            ) is Some,
            Err(error) => error == BootstrapError::AgentPathError,
        },
        uri_joined(uri_text(*base), agent_file_name()) is None ==> outcome is Err,
{
    match join_uri(base, agent_file().as_str()) {
        Ok(jar) => agent_argument_for(file_path_of(&jar)),
        Err(_) => Err(BootstrapError::AgentPathError),
    }
}

/// The final launch arguments: the configured ones in their order, and the
/// agent's argument after all of them where there is one.
pub open spec fn launch_args(configured: Seq<Seq<char>>, agent: Option<Seq<char>>) -> Seq<
    Seq<char>,
> {
    match agent {
        Some(argument) => configured.push(argument),
        None => configured,
    }
}

/// Appends the agent's argument, where there is one, after the configured
/// arguments.
pub fn append_agent(configured: Vec<String>, agent: Option<String>) -> (args: Vec<String>)
    ensures
        args.deep_view() == launch_args(
            configured.deep_view(),
            match agent {
                Some(argument) => Some(argument@),
                None => None,
            },
        ),
{
    let mut args = configured;
    match agent {
        Some(argument) => {
            let ghost before = args.deep_view();
            let ghost text = argument@;
            args.push(argument);
            assert(args.deep_view() =~= before.push(text));
        },
        None => {},
    }
    args
}

/// With the agent, the last launch argument injects it and the configured
/// arguments stand before it, unchanged and in order.
pub proof fn lemma_agent_argument_comes_last(configured: Seq<Seq<char>>, path: Seq<char>)
    requires
        names_agent(path),
    ensures
        is_agent_argument(launch_args(configured, Some(agent_argument_of(path))).last()),
        launch_args(configured, Some(agent_argument_of(path))).drop_last() == configured,
{
    assert(configured.push(agent_argument_of(path)).drop_last() =~= configured);
}

/// Without the agent, the launch arguments are the configured ones: where
/// none of those injects the agent, no launch argument does.
pub proof fn lemma_no_agent_argument_without_agent(configured: Seq<Seq<char>>)
    requires
        forall|index: int|
            0 <= index < configured.len() ==> !is_agent_argument(#[trigger] configured[index]),
    ensures
        launch_args(configured, None) == configured,
        forall|index: int|
            0 <= index < launch_args(configured, None).len() ==> !is_agent_argument(
                #[trigger] launch_args(configured, None)[index],
            ),
{
}

} // verus!
