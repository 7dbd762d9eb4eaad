//! What the daemon asks of the backend for each engine transition.
//!
//! The event loop feeds each input event to the composition engine and then
//! carries out the resulting transition on the backend. Which backend calls
//! are made, in which order, which failures abort the dispatch and what the
//! engine must do afterwards is decided here, as a [`DispatchPlan`]; the loop
//! performs the calls and rolls the engine back to its pre-event snapshot
//! when the dispatch fails.
use vstd::prelude::*;
use crate::types::{InputEvent, Key, StateTransition, TransitionResult};
use crate::text::{chars_at_byte_offset, chars_within, owned, push_str};

verus! {

/// One backend operation.
#[derive(Clone, Debug)]
pub enum BackendCall {
    /// Show `text` as the preedit, with the cursor at `cursor` characters.
    UpdatePreedit { text: String, cursor: usize },
    /// Clear the preedit and commit `text` in one protocol frame.
    CommitReplacingPreedit { text: String },
    /// Commit `text`, then show `preedit` with the cursor at `cursor`.
    CommitThenUpdatePreedit { text: String, preedit: String, cursor: usize },
    /// Clear the preedit without committing.
    ClearPreedit,
    /// Forward the original key event to the application.
    ForwardKey,
}

/// A backend operation and whether its failure aborts the dispatch.
#[derive(Clone, Debug)]
pub struct PlannedCall {
    pub call: BackendCall,
    /// A failure of this call fails the whole dispatch (and stops it there).
    pub error_is_fatal: bool,
}

/// What to do for one transition.
#[derive(Clone, Debug)]
pub struct DispatchPlan {
    /// The backend calls, in order.
    pub calls: Vec<PlannedCall>,
    /// The engine must be reset (the transition was a composition error).
    pub reset_engine: bool,
    /// The dispatch fails with this D-Bus error message once the calls are made.
    pub error: Option<String>,
}

/// A backend call with its texts as character sequences.
pub enum CallV {
    UpdatePreedit(Seq<char>, nat),
    CommitReplacingPreedit(Seq<char>),
    CommitThenUpdatePreedit(Seq<char>, Seq<char>, nat),
    ClearPreedit,
    ForwardKey,
}

/// A planned call as `(call, error_is_fatal)`.
pub open spec fn planned_view(p: PlannedCall) -> (CallV, bool) {
    let c = match p.call {
        BackendCall::UpdatePreedit { text, cursor } => CallV::UpdatePreedit(text@, cursor as nat),
        BackendCall::CommitReplacingPreedit { text } => CallV::CommitReplacingPreedit(text@),
        BackendCall::CommitThenUpdatePreedit { text, preedit, cursor } => CallV::CommitThenUpdatePreedit(
            text@,
            preedit@,
            cursor as nat,
        ),
        BackendCall::ClearPreedit => CallV::ClearPreedit,
        BackendCall::ForwardKey => CallV::ForwardKey,
    };
    (c, p.error_is_fatal)
}

/// The planned calls as views.
pub open spec fn calls_view(v: Seq<PlannedCall>) -> Seq<(CallV, bool)> {
    Seq::new(v.len(), |i: int| planned_view(v[i]))
}

/// A Return or Tab press, which still reaches the application after the
/// commit it triggers.
pub open spec fn is_return_or_tab_press(event: InputEvent) -> bool {
    match event {
        InputEvent::KeyDown(Key::Return, _) => true,
        InputEvent::KeyDown(Key::Tab, _) => true,
        _ => false,
    }
}

/// The calls for each transition: a preedit update, its cursor being the
/// number of characters before the engine's byte offset; a commit that replaces
/// the preedit (followed by the key when the key passes through, and by a
/// best-effort forward of Return and Tab); a commit then a new preedit; a
/// clear; the key itself for a pass-through; nothing for a consumed key or
/// a composition error.
pub open spec fn planned_calls(t: TransitionResult, event: InputEvent) -> Seq<(CallV, bool)> {
    match t {
        Ok(StateTransition::PreeditUpdated(p)) => seq![
            (CallV::UpdatePreedit(p.text@, chars_within(p.text@, p.cursor_byte_offset as int)), true),
        ],
        Ok(StateTransition::CommitThenPassThrough(c)) => seq![
            (CallV::CommitReplacingPreedit(c@), true),
            (CallV::ForwardKey, true),
        ],
        Ok(StateTransition::Commit(c)) => if is_return_or_tab_press(event) {
            seq![(CallV::CommitReplacingPreedit(c@), true), (CallV::ForwardKey, false)]
        } else {
            seq![(CallV::CommitReplacingPreedit(c@), true)]
        },
        Ok(StateTransition::CommitAndClear(c)) => if is_return_or_tab_press(event) {
            seq![(CallV::CommitReplacingPreedit(c@), true), (CallV::ForwardKey, false)]
        } else {
            seq![(CallV::CommitReplacingPreedit(c@), true)]
        },
        Ok(StateTransition::CommitThenPreedit(c, p)) => seq![
            (CallV::CommitThenUpdatePreedit(c@, p.text@, chars_within(p.text@, p.cursor_byte_offset as int)), true),
        ],
        Ok(StateTransition::Cleared) => seq![(CallV::ClearPreedit, true)],
        Ok(StateTransition::PassThrough) => seq![(CallV::ForwardKey, true)],
        Ok(StateTransition::Consumed) => Seq::empty(),
        Err(_) => Seq::empty(),
    }
}

/// A commit triggered by a Return or Tab press is carried out, then that key
/// is forwarded best-effort (its failure does not fail the dispatch) so the
/// application still acts on it; a commit triggered by anything else is
/// carried out alone.  Both kinds of commit behave alike.
pub proof fn lemma_commit_forwards_return_and_tab(c: String, e: InputEvent, clear: bool)
    ensures
        ({
            let t = if clear { StateTransition::CommitAndClear(c) } else { StateTransition::Commit(c) };
            let plan = planned_calls(Ok(t), e);
            &&& (e matches InputEvent::KeyDown(Key::Return, _) || e matches InputEvent::KeyDown(Key::Tab, _)) ==>
                plan == seq![(CallV::CommitReplacingPreedit(c@), true), (CallV::ForwardKey, false)]
            &&& !(e matches InputEvent::KeyDown(Key::Return, _)) && !(e matches InputEvent::KeyDown(Key::Tab, _)) ==>
                plan == seq![(CallV::CommitReplacingPreedit(c@), true)]
        }),
{
}

/// The message of the error a composition failure is reported as.
pub open spec fn composition_error_message(detail: Seq<char>) -> Seq<char> {
    "composition error: "@ + detail
}

fn fatal(call: BackendCall) -> (p: PlannedCall)
    ensures
        p.call == call,
        p.error_is_fatal,
{
    PlannedCall { call, error_is_fatal: true }
}

/// Plan the backend calls that carry out `transition` for `event`.
///
/// A composition error makes no call: the engine is reset and the dispatch
/// fails with `composition error: <detail>`.
pub fn plan_dispatch(transition: &TransitionResult, event: &InputEvent) -> (plan: DispatchPlan)
    ensures
        calls_view(plan.calls@) == planned_calls(*transition, *event),
        plan.reset_engine == (*transition is Err),
        match *transition {
            Err(e) => plan.error matches Some(m) && m@ == composition_error_message(e.message@),
            Ok(_) => plan.error is None,
        },
{
    let mut calls: Vec<PlannedCall> = Vec::new();
    let forwards_key = match event {
        InputEvent::KeyDown(Key::Return, _) => true,
        InputEvent::KeyDown(Key::Tab, _) => true,
        _ => false,
    };
    let mut reset_engine = false;
    let mut error: Option<String> = None;
    match transition {
        Ok(StateTransition::PreeditUpdated(p)) => {
            calls.push(fatal(BackendCall::UpdatePreedit {
                text: p.text.clone(),
                cursor: chars_at_byte_offset(p.text.as_str(), p.cursor_byte_offset),
            }));
        },
        Ok(StateTransition::CommitThenPassThrough(c)) => {
            calls.push(fatal(BackendCall::CommitReplacingPreedit { text: c.clone() }));
            calls.push(fatal(BackendCall::ForwardKey));
        },
        Ok(StateTransition::Commit(c)) | Ok(StateTransition::CommitAndClear(c)) => {
            calls.push(fatal(BackendCall::CommitReplacingPreedit { text: c.clone() }));
            if forwards_key {
                calls.push(PlannedCall { call: BackendCall::ForwardKey, error_is_fatal: false });
            }
        },
        Ok(StateTransition::CommitThenPreedit(c, p)) => {
            calls.push(fatal(BackendCall::CommitThenUpdatePreedit {
                text: c.clone(),
                preedit: p.text.clone(),
                cursor: chars_at_byte_offset(p.text.as_str(), p.cursor_byte_offset),
            }));
        },
        Ok(StateTransition::Cleared) => {
            calls.push(fatal(BackendCall::ClearPreedit));
        },
        Ok(StateTransition::PassThrough) => {
            calls.push(fatal(BackendCall::ForwardKey));
        },
        Ok(StateTransition::Consumed) => {},
        Err(e) => {
            reset_engine = true;
            let mut m = owned("composition error: ");
            push_str(&mut m, e.message.as_str());
            error = Some(m);
        },
    }
    assert(calls_view(calls@) =~= planned_calls(*transition, *event));
    DispatchPlan { calls, reset_engine, error }
}

} // verus!
