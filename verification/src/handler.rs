use vstd::prelude::*;

verus! {

/// Where the handler stands in the host's handshake.
#[derive(Clone, Copy, Debug, PartialEq, Eq, Structural)]
pub enum HandlerState {
    /// No backend has been started yet.
    Idle,
    /// The start operation has been invoked.
    Started,
}

/// What the handler does with an inbound request.
#[derive(Clone, Copy, Debug, PartialEq, Eq, Structural)]
pub enum RequestAction {
    /// Run the whole resolution, provisioning and launch sequence.
    Initialize,
    /// Accept the request and do nothing.
    Ignore,
}

/// The method of the initialize handshake.
pub open spec fn initialize_method() -> Seq<char> {
    "initialize"@
}

/// What a request method calls for: the handshake is run, every other
/// method is accepted and ignored.
pub open spec fn action_of_method(method: Seq<char>) -> RequestAction {
    if method == initialize_method() {
        RequestAction::Initialize
    } else {
        RequestAction::Ignore
    }
}

/// The state after an initialize call: started once the start operation has
/// been invoked, and unchanged by a call that was aborted.
pub open spec fn state_after(state: HandlerState, launched: bool) -> HandlerState {
    if launched {
        HandlerState::Started
    } else {
        state
    }
}

/// The handler of the host's requests.
#[derive(Clone, Copy, Debug, PartialEq, Eq, Structural)]
pub struct Handler {
    /// Where the handler stands.
    pub state: HandlerState,
}

impl Handler {
    /// A handler before the first handshake.
    pub fn new() -> (handler: Handler)
        ensures
            handler.state == HandlerState::Idle,
    {
        Handler { state: HandlerState::Idle }
    }

    /// Decides what to do with a request. The state plays no part: a second
    /// handshake runs the whole sequence again.
    pub fn handle_request(&self, method: &str) -> (action: RequestAction)
        ensures
            action == action_of_method(method@),
    {
        if method.to_owned() == "initialize".to_owned() {
            RequestAction::Initialize
        } else {
            RequestAction::Ignore
        }
    }

    /// Records how an initialize call ended.
    pub fn record_outcome(&mut self, launched: bool)
        ensures
            final(self).state == state_after(old(self).state, launched),
    {
        if launched {
            self.state = HandlerState::Started;
        }
    }
}

/// A handler that has started stays started, however later calls end.
pub proof fn lemma_started_is_kept(launched: bool)
    ensures
        state_after(HandlerState::Started, launched) == HandlerState::Started,
{
}

} // verus!
