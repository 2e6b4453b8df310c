//! Whole runs: what holds of every sequence of events that a session may be
//! taken through.

use vstd::prelude::*;
use crate::fetch::{is_success, json_document};
use crate::session::{initial, next, ActionView, EventView, Reason, SessionView, Stage};
use crate::storage::pretty_text;

verus! {

/// How often a run that goes on from `s` through `events` asks for the file
/// to be written.
pub open spec fn saves(s: SessionView, events: Seq<EventView>) -> nat
    decreases events.len(),
{
    if events.len() == 0 {
        0
    } else {
        let (t, action) = next(s, events[0]);
        saves(t, events.drop_first()) + if action is Save {
            1nat
        } else {
            0nat
        }
    }
}

/// The state that a run reaches from `s` through `events`.
pub open spec fn state_after(s: SessionView, events: Seq<EventView>) -> SessionView
    decreases events.len(),
{
    if events.len() == 0 {
        s
    } else {
        state_after(next(s, events[0]).0, events.drop_first())
    }
}

/// Whether the file has been asked for by the time a run is at `stage`.
pub open spec fn stored_by(stage: Stage) -> bool {
    stage == Stage::Storing || stage == Stage::Done
}

/// Whether a run at `stage` may still ask for the file.
pub open spec fn may_still_save(stage: Stage) -> bool {
    stage != Stage::Storing && stage != Stage::Done && stage != Stage::Failed
}

/// The file is asked for only in answer to a response that is a success and
/// holds a JSON document, and the text is that document's, indented, for the
/// path that the run was started with.
pub proof fn save_answers_a_good_response(s: SessionView, event: EventView)
    requires
        next(s, event).1 is Save,
    ensures
        s.stage == Stage::Response,
        next(s, event).0.stage == Stage::Storing,
        event matches EventView::Response { status, body } && is_success(status) && (
        json_document(body) matches Some(doc) && pretty_text(doc) == Some(
            next(s, event).1->Save_text,
        )),
        next(s, event).1->Save_path == s.out,
{
}

/// A failed run stays failed, whatever it is told.
pub proof fn failure_is_final(s: SessionView, events: Seq<EventView>)
    requires
        s.stage == Stage::Failed,
    ensures
        state_after(s, events).stage == Stage::Failed,
        saves(s, events) == 0,
    decreases events.len(),
{
    if events.len() > 0 {
        failure_is_final(next(s, events[0]).0, events.drop_first());
    }
}

/// No run asks for the file twice, and one that has asked for it, or has
/// failed, does not ask again.
pub proof fn at_most_one_save(s: SessionView, events: Seq<EventView>)
    ensures
        saves(s, events) <= 1,
        !may_still_save(s.stage) ==> saves(s, events) == 0,
    decreases events.len(),
{
    if events.len() > 0 {
        at_most_one_save(next(s, events[0]).0, events.drop_first());
    }
}

/// An answer whose status is no success ends the run in failure, with that
/// status as the reason where the run was waiting for an answer, and the
/// file is never asked for after it.
pub proof fn refused_response_saves_nothing(
    s: SessionView,
    status: u16,
    body: Seq<u8>,
    later: Seq<EventView>,
)
    requires
        !is_success(status),
    ensures
        next(s, EventView::Response { status, body }).0.stage == Stage::Failed,
        s.stage == Stage::Response ==> next(s, EventView::Response { status, body }).1
            == ActionView::Fail(Reason::Status(status)),
        saves(s, seq![EventView::Response { status, body }] + later) == 0,
{
    let event = EventView::Response { status, body };
    let events = seq![event] + later;
    assert(events[0] == event);
    assert(events.drop_first() =~= later);
    failure_is_final(next(s, event).0, later);
}

/// A run that ends in success has asked for the file exactly once.
pub proof fn success_saves_once(api_key: Seq<char>, out: Seq<char>, events: Seq<EventView>)
    requires
        state_after(initial(api_key, out), events).stage == Stage::Done,
    ensures
        saves(initial(api_key, out), events) == 1,
{
    saves_by_stage(initial(api_key, out), events);
}

proof fn saves_by_stage(s: SessionView, events: Seq<EventView>)
    requires
        stored_by(state_after(s, events).stage),
    ensures
        stored_by(s.stage) ==> saves(s, events) == 0,
        !stored_by(s.stage) ==> saves(s, events) == 1,
    decreases events.len(),
{
    if events.len() > 0 {
        let t = next(s, events[0]).0;
        if t.stage == Stage::Failed {
            failure_is_final(t, events.drop_first());
        } else {
            saves_by_stage(t, events.drop_first());
        }
    }
}

} // verus!
