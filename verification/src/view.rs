use crate::model::ViewChars;
use vstd::prelude::*;

verus! {

/// What one look into the queue of rendered frames found, without waiting.
pub enum Received {
    /// The oldest frame that was still in the queue.
    Frame(ViewChars),
    /// No frame is waiting.
    Empty,
    /// No frame is waiting, and none will come: the simulation is gone.
    Disconnected,
}

/// What the presentation does after a look into the queue.
#[derive(Clone, Copy, Debug, PartialEq, Eq, Structural)]
pub enum DrainAction {
    /// Look into the queue again.
    Continue,
    /// The queue is drained: go on to drawing.
    Stop,
    /// The queue is drained for good: shut the presentation down.
    Quit,
}

/// The frame that waits to be shown, and what to do next, after one look into the queue
/// has been handled. A frame that was found takes the place of the one that waited, which
/// is never shown; a look that found none ends the drain and keeps what waited.
pub open spec fn after_look(pending: Option<ViewChars>, received: Received) -> (
    Option<ViewChars>,
    DrainAction,
) {
    match received {
        Received::Frame(frame) => (Some(frame), DrainAction::Continue),
        Received::Empty => (pending, DrainAction::Stop),
        Received::Disconnected => (pending, DrainAction::Quit),
    }
}

/// The frame that waits to be shown once the looks into the queue have been handled in
/// their order, up to the first that ends the drain.
pub open spec fn drained(pending: Option<ViewChars>, looks: Seq<Received>) -> Option<ViewChars>
    decreases looks.len(),
{
    if looks.len() == 0 {
        pending
    } else {
        let (waiting, action) = after_look(pending, looks.first());
        if action == DrainAction::Continue {
            drained(waiting, looks.drop_first())
        } else {
            waiting
        }
    }
}

/// What the screen shows once a drain is over: the frame that the drain left, and without
/// one what it showed before.
pub open spec fn shown_after(displayed: ViewChars, pending: Option<ViewChars>) -> ViewChars {
    match pending {
        Some(frame) => frame,
        None => displayed,
    }
}

/// The looks into the queue that find the frames of `frames`, oldest first, and then find
/// the queue empty.
pub open spec fn looks_finding(frames: Seq<ViewChars>) -> Seq<Received> {
    Seq::new(frames.len(), |i: int| Received::Frame(frames[i])).push(Received::Empty)
}

/// Handles one look into the queue of frames during a drain. `pending` is the newest frame
/// that the drain has found so far.
pub fn drain_step(pending: Option<ViewChars>, received: Received) -> (out: (
    Option<ViewChars>,
    DrainAction,
))
    ensures
        out == after_look(pending, received),
{
    match received {
        Received::Frame(frame) => (Some(frame), DrainAction::Continue),
        Received::Empty => (pending, DrainAction::Stop),
        Received::Disconnected => (pending, DrainAction::Quit),
    }
}

/// Ends a drain: makes the frame that the drain left the one on screen. The result says
/// whether the screen has to be drawn again.
pub fn install(displayed: &mut ViewChars, pending: Option<ViewChars>) -> (redraw: bool)
    ensures
        *final(displayed) == shown_after(*old(displayed), pending),
        redraw == pending.is_some(),
{
    match pending {
        Some(frame) => {
            *displayed = frame;
            true
        },
        None => false,
    }
}

/// A drain keeps the newest frame only: of the frames that it finds, the last one waits
/// to be shown when it ends, and the others are dropped.
pub proof fn lemma_drain_keeps_newest(pending: Option<ViewChars>, frames: Seq<ViewChars>)
    ensures
        drained(pending, looks_finding(frames)) == if frames.len() == 0 {
            pending
        } else {
            Some(frames.last())
        },
    decreases frames.len(),
{
    let looks = looks_finding(frames);
    if frames.len() > 0 {
        let rest = frames.drop_first();
        assert(looks.drop_first() == looks_finding(rest));
        lemma_drain_keeps_newest(Some(frames.first()), rest);
        if rest.len() > 0 {
            assert(rest.last() == frames.last());
        }
    } else {
        assert(looks.drop_first().len() == 0);
    }
}

/// A drain that finds no frame changes nothing: no frame waits when it ends, and the
/// screen shows what it showed before.
pub proof fn lemma_idle_drain_keeps_display(displayed: ViewChars, looks: Seq<Received>)
    requires
        looks.len() == 0 || !(looks.first() is Frame),
    ensures
        drained(None, looks).is_none(),
        shown_after(displayed, drained(None, looks)) == displayed,
{
}

} // verus!
