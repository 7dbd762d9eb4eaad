//! The record kept by a mock IBus daemon: every `CommitText` and
//! `UpdatePreeditText` call an engine backend makes to it. Serving the calls
//! on the session bus is done by the caller.
use vstd::prelude::*;

verus! {

/// A method call captured by the mock daemon.
#[derive(Clone, Debug)]
pub enum IbusCall {
    CommitText(String),
    UpdatePreedit { text: String, cursor: u32, visible: bool },
}

/// A captured call with its text as characters.
pub enum IbusCallV {
    CommitText(Seq<char>),
    UpdatePreedit(Seq<char>, u32, bool),
}

/// The call as an [`IbusCallV`].
pub open spec fn call_view(c: IbusCall) -> IbusCallV {
    match c {
        IbusCall::CommitText(t) => IbusCallV::CommitText(t@),
        IbusCall::UpdatePreedit { text, cursor, visible } => IbusCallV::UpdatePreedit(text@, cursor, visible),
    }
}

/// The calls as views.
pub open spec fn calls_view(v: Seq<IbusCall>) -> Seq<IbusCallV> {
    Seq::new(v.len(), |i: int| call_view(v[i]))
}

/// The engine-side object of the mock daemon, recording each call in order.
pub struct MockEngineServer {
    pub calls: Vec<IbusCall>,
}

impl MockEngineServer {
    pub fn new() -> (s: Self)
        ensures
            s.calls@.len() == 0,
    {
        MockEngineServer { calls: Vec::new() }
    }

    /// Record a `CommitText` call.
    pub fn commit_text(&mut self, text: String)
        ensures
            calls_view(final(self).calls@) == calls_view(old(self).calls@).push(IbusCallV::CommitText(text@)),
    {
        let ghost before = self.calls@;
        let ghost t = text@;
        self.calls.push(IbusCall::CommitText(text));
        assert(calls_view(self.calls@) =~= calls_view(before).push(IbusCallV::CommitText(t)));
    }

    /// Record an `UpdatePreeditText` call.
    pub fn update_preedit_text(&mut self, text: String, cursor: u32, visible: bool)
        ensures
            calls_view(final(self).calls@) == calls_view(old(self).calls@).push(
                IbusCallV::UpdatePreedit(text@, cursor, visible),
            ),
    {
        let ghost before = self.calls@;
        let ghost t = text@;
        self.calls.push(IbusCall::UpdatePreedit { text, cursor, visible });
        assert(calls_view(self.calls@) =~= calls_view(before).push(IbusCallV::UpdatePreedit(t, cursor, visible)));
    }

    /// Forget every captured call.
    pub fn clear_calls(&mut self)
        ensures
            final(self).calls@.len() == 0,
    {
        self.calls = Vec::new();
    }
}

} // verus!
