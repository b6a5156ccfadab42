//! The frame-loop decisions: which events exit, which events are followed
//! by a rendered frame, and what keyboard input does to the scene.
//!
//! The loop itself is owned by the window collaborator; this module is the
//! pure state machine it drives.  Each delivered event is dispatched here,
//! and the returned action tells the driver whether to render a frame.

use vstd::prelude::*;
use crate::consts::FRAME_INTERVAL_NS;
use crate::scene_object::{SceneObject, MAX_SCALE, scaled_up, scaled_down};

verus! {

/// A key the demo reacts to.
#[derive(Clone, Copy, PartialEq, Eq, Structural, Debug)]
pub enum Key {
    Escape,
    W,
    S,
    Other,
}

/// One event delivered by the window collaborator.
#[derive(Clone, Copy, PartialEq, Eq, Structural, Debug)]
pub enum Event {
    CloseRequested,
    Resized(u32, u32),
    KeyInput { key: Key, pressed: bool },
    /// Any other event aimed at the window.
    WindowOther,
    RedrawRequested,
    /// The frame timer's deadline was reached: time for the next frame.
    TimerElapsed,
    LoopDestroyed,
    /// Any event the demo ignores entirely.
    Other,
}

/// What the driver does after dispatching one event.
#[derive(Clone, Copy, PartialEq, Eq, Structural, Debug)]
pub enum LoopAction {
    /// Render and present one frame.
    Render,
    /// Do nothing this iteration.
    Skip,
}

/// Events that request the loop to terminate: a window close request, or
/// the escape key in any state.
pub open spec fn requests_exit(ev: Event) -> bool {
    ||| ev is CloseRequested
    ||| (ev matches Event::KeyInput { key, .. } && key is Escape)
}

/// Events whose iteration ends in a rendered frame: everything aimed at
/// the window, an explicit redraw request, and the frame timer's tick
/// (the steady cadence that keeps the scene animating).
pub open spec fn renders_frame(ev: Event) -> bool {
    ||| ev is Resized
    ||| ev is KeyInput
    ||| ev is WindowOther
    ||| ev is RedrawRequested
    ||| ev is TimerElapsed
}

/// Whether the session has exited after one more event.
pub open spec fn step_exited(exited: bool, ev: Event) -> bool {
    exited || requests_exit(ev)
}

/// The driver's action for one event in a given session state: render on
/// frame-producing events, except that an exit request renders nothing,
/// not even on its own iteration.
pub open spec fn action_of(exited: bool, ev: Event) -> LoopAction {
    if !exited && !requests_exit(ev) && renders_frame(ev) {
        LoopAction::Render
    } else {
        LoopAction::Skip
    }
}

/// Whether the session has exited after a whole sequence of events.
pub open spec fn run_exited(exited: bool, evs: Seq<Event>) -> bool
    decreases evs.len(),
{
    if evs.len() == 0 {
        exited
    } else {
        run_exited(step_exited(exited, evs[0]), evs.drop_first())
    }
}

/// The loop-control state: set once an exit was requested, never cleared.
pub struct Session {
    pub exited: bool,
}

impl Session {
    /// A fresh session, not yet exited.
    pub fn new() -> (s: Session)
        ensures
            !s.exited,
    {
        Session { exited: false }
    }

    /// Dispatches one event: records an exit request and decides whether
    /// this iteration renders a frame.  An exit-requesting iteration does
    /// not render, and neither does any iteration after it.
    pub fn dispatch(&mut self, ev: &Event) -> (a: LoopAction)
        ensures
            final(self).exited == step_exited(old(self).exited, *ev),
            a == action_of(old(self).exited, *ev),
    {
        let exit_now = match ev {
            Event::CloseRequested => true,
            Event::KeyInput { key: Key::Escape, pressed: _ } => true,
            _ => false,
        };
        let renders = match ev {
            Event::Resized(_, _) => true,
            Event::KeyInput { .. } => true,
            Event::WindowOther => true,
            Event::RedrawRequested => true,
            Event::TimerElapsed => true,
            _ => false,
        };
        let was_exited = self.exited;
        if exit_now {
            self.exited = true;
        }
        if !was_exited && !exit_now && renders {
            LoopAction::Render
        } else {
            LoopAction::Skip
        }
    }
}

/// Applies one event's keyboard input to the scene: W pressed scales the
/// first object up, S pressed scales it down.
pub fn apply_input(objects: &mut Vec<SceneObject>, ev: &Event)
    requires
        old(objects).len() >= 1,
        -MAX_SCALE <= old(objects)[0].transform.scale <= MAX_SCALE,
    ensures
        final(objects).len() == old(objects).len(),
        *ev matches Event::KeyInput { key: Key::W, pressed: true } ==> {
            &&& final(objects)[0].transform.scale == scaled_up(
                old(objects)[0].transform.scale as int,
            )
            &&& final(objects)[0].transform.position == old(objects)[0].transform.position
            &&& final(objects)[0].mesh == old(objects)[0].mesh
            &&& final(objects)@.skip(1) == old(objects)@.skip(1)
        },
        *ev matches Event::KeyInput { key: Key::S, pressed: true } ==> {
            &&& final(objects)[0].transform.scale == scaled_down(
                old(objects)[0].transform.scale as int,
            )
            &&& final(objects)[0].transform.position == old(objects)[0].transform.position
            &&& final(objects)[0].mesh == old(objects)[0].mesh
            &&& final(objects)@.skip(1) == old(objects)@.skip(1)
        },
        !(*ev matches Event::KeyInput { key: Key::W, pressed: true }) && !(*ev
            matches Event::KeyInput { key: Key::S, pressed: true }) ==> final(objects)@ == old(
            objects,
        )@,
{
    match ev {
        Event::KeyInput { key: Key::W, pressed: true } => {
            let mut first = objects[0];
            first.scale_up();
            objects.set(0, first);
            proof {
                assert(objects@.skip(1) =~= old(objects)@.skip(1));
            }
        },
        Event::KeyInput { key: Key::S, pressed: true } => {
            let mut first = objects[0];
            first.scale_down();
            objects.set(0, first);
            proof {
                assert(objects@.skip(1) =~= old(objects)@.skip(1));
            }
        },
        _ => {
        },
    }
}

/// The deadline of the next frame: one frame interval past `now`, so slow
/// frames reschedule from the present rather than drifting.
pub fn next_frame_deadline(now_ns: u64) -> (r: u64)
    requires
        now_ns + FRAME_INTERVAL_NS <= u64::MAX,
    ensures
        r == now_ns + FRAME_INTERVAL_NS,
{
    now_ns + FRAME_INTERVAL_NS
}

/// An exited session stays exited through any further events.
pub proof fn lemma_exit_is_permanent(exited: bool, evs: Seq<Event>)
    requires
        exited,
    ensures
        run_exited(exited, evs),
    decreases evs.len(),
{
    if evs.len() > 0 {
        lemma_exit_is_permanent(step_exited(exited, evs[0]), evs.drop_first());
    }
}

/// Once a close request (or escape) arrives, no frame is rendered: not on
/// its own iteration, and not on any later one — from that point every
/// dispatched action is `Skip`, never `Render`.
pub proof fn lemma_close_stops_rendering(exited: bool, evs: Seq<Event>, i: int, j: int)
    requires
        0 <= i <= j < evs.len(),
        requests_exit(evs[i]),
    ensures
        action_of(run_exited(exited, evs.take(j)), evs[j]) == LoopAction::Skip,
        i < j ==> run_exited(exited, evs.take(j)),
    decreases i,
{
    if i == j {
        return ;
    }
    if i == 0 {
        let after_first = step_exited(exited, evs[0]);
        assert(after_first);
        assert(evs.take(j).drop_first() =~= evs.drop_first().take(j - 1));
        lemma_exit_is_permanent(after_first, evs.drop_first().take(j - 1));
    } else {
        lemma_close_stops_rendering(step_exited(exited, evs[0]), evs.drop_first(), i - 1, j - 1);
        assert(evs.take(j).drop_first() =~= evs.drop_first().take(j - 1));
        assert(evs.drop_first()[j - 1] == evs[j]);
    }
}

} // verus!
