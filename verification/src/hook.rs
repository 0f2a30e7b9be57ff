//! Per-event decision of the event-hook capture strategy: every key
//! transition reported by the hook runs through the translator and the
//! incremental differ, and the policy decides whether Escape ends the
//! session or is reported like any other key.

use vstd::prelude::*;
use crate::differ::{spec_press, spec_release, KeyTracker};
use crate::translate::{spec_translate, translate, ESCAPE_CODE};

verus! {

/// What a press of Escape means to the event-hook strategy: a reportable
/// key like any other, or a session terminator.
pub enum EscapePolicy {
    Report,
    EndSession,
}

/// The decision taken for one hook event.
pub enum HookOutcome {
    /// Deliver this full snapshot of the keys currently down.
    Report(Vec<String>),
    /// Nothing to deliver (a spurious release).
    Quiet,
    /// The terminator key was pressed: the session is to end.
    EndSession,
}

/// True when a hook event ends the session instead of being reported.
pub open spec fn spec_hook_ends(policy: EscapePolicy, code: u8, press: bool) -> bool {
    policy is EndSession && code == ESCAPE_CODE && press
}

/// Process one key transition seen by the hook. A terminating press of
/// Escape leaves the tracker untouched and asks for shutdown; every other
/// press reports the full updated set; a release reports the updated set
/// exactly when the key was down.
pub fn hook_step(tracker: &mut KeyTracker, policy: &EscapePolicy, code: u8, press: bool) -> (out:
    HookOutcome)
    requires
        old(tracker).wf(),
    ensures
        final(tracker).wf(),
        spec_hook_ends(*policy, code, press) ==> out is EndSession && final(tracker)@ == old(
            tracker,
        )@,
        !spec_hook_ends(*policy, code, press) && press ==> final(tracker)@ == spec_press(
            old(tracker)@,
            spec_translate(code),
        ) && (out matches HookOutcome::Report(snap) && snap.deep_view() == final(tracker)@),
        !spec_hook_ends(*policy, code, press) && !press ==> final(tracker)@ == spec_release(
            old(tracker)@,
            spec_translate(code),
        ) && (old(tracker)@.contains(spec_translate(code)) ==> (out
            matches HookOutcome::Report(snap) && snap.deep_view() == final(tracker)@)) && (!old(
            tracker,
        )@.contains(spec_translate(code)) ==> out is Quiet),
{
    let ends = match policy {
        EscapePolicy::EndSession => code == ESCAPE_CODE && press,
        EscapePolicy::Report => false,
    };
    if ends {
        return HookOutcome::EndSession;
    }
    let name = translate(code);
    if press {
        HookOutcome::Report(tracker.press(name))
    } else {
        match tracker.release(&name) {
            Option::Some(snap) => HookOutcome::Report(snap),
            Option::None => HookOutcome::Quiet,
        }
    }
}

} // verus!
