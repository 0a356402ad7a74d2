//! What a loop driven by a host event loop does with each host event.

use vstd::prelude::*;
use crate::base::{GameLoop, sat_count, stepped, with_exit};
use crate::time::TimeTrait;

verus! {

/// The host events that the loop itself acts on; the rest are `Other`.
#[derive(Debug, Clone, Copy, PartialEq, Eq, Structural)]
pub enum HostEvent {
    /// The host asks the window to be drawn.
    RedrawRequested,
    /// The host has handled its pending events and is about to idle.
    AboutToWait,
    /// Any other event: input, resizing, closing and the like.
    Other,
}

/// What the host event loop should do next.
#[derive(Debug, Clone, Copy, PartialEq, Eq, Structural)]
pub enum HostAction {
    /// Nothing: wait for the next event.
    Wait,
    /// Ask the host for a redraw.
    RequestRedraw,
    /// Leave the host event loop.
    Exit,
}

/// The action for an event, given whether a frame ran (for a redraw).
pub open spec fn action_for(event: HostEvent, frame_ran: bool) -> HostAction {
    match event {
        HostEvent::RedrawRequested => if frame_ran {
            HostAction::Wait
        } else {
            HostAction::Exit
        },
        HostEvent::AboutToWait => HostAction::RequestRedraw,
        HostEvent::Other => HostAction::Wait,
    }
}

impl<G, T: TimeTrait, W> GameLoop<G, T, W> {
    /// Acts on one host event, once the caller's own handler has seen it: a
    /// redraw runs one frame, and leaves the host loop where the frame reports
    /// that exit was asked for; the host's idle notice asks for the next redraw.
    pub fn on_host_event<U, R>(&mut self, event: HostEvent, update: U, render: R) -> (r:
        HostAction)
        where
            U: FnMut(&mut GameLoop<G, T, W>),
            R: FnMut(&mut GameLoop<G, T, W>),
        requires
            forall|a: (&mut GameLoop<G, T, W>,)| #[trigger] call_requires(update, a),
            forall|a: (&mut GameLoop<G, T, W>,)| #[trigger] call_requires(render, a),
        ensures
            r == action_for(event, !old(self)@.exit_next_iteration),
            event != HostEvent::RedrawRequested ==> *final(self) == *old(self),
            event == HostEvent::RedrawRequested && old(self)@.exit_next_iteration
                ==> *final(self) == *old(self),
            event == HostEvent::RedrawRequested && !old(self)@.exit_next_iteration
                ==> final(self)@.number_of_renders == sat_count(old(self)@.number_of_renders, 1),
            event == HostEvent::RedrawRequested && !old(self)@.exit_next_iteration
                ==> final(self).instants().0 == final(self).instants().1,
            event == HostEvent::RedrawRequested && !old(self)@.exit_next_iteration && (forall|a: (&mut GameLoop<G, T, W>,), o: ()| #[trigger] call_ensures(update, a, o) ==> Self::keeps_timing(mut_ref_current(a.0), mut_ref_future(a.0))) && (forall|a: (&mut GameLoop<G, T, W>,), o: ()| #[trigger] call_ensures(render, a, o) ==> Self::keeps_timing(mut_ref_current(a.0), mut_ref_future(a.0)))
                ==> final(self)@ == with_exit(
                stepped(old(self)@, final(self).instants().0.spec_sub(&old(self).instants().0)),
                final(self)@.exit_next_iteration,
            ),
            (forall|a: (&mut GameLoop<G, T, W>,), o: ()| #[trigger] call_ensures(update, a, o) ==> mut_ref_future(a.0).payload() == mut_ref_current(a.0).payload()) && (forall|a: (&mut GameLoop<G, T, W>,), o: ()| #[trigger] call_ensures(render, a, o) ==> mut_ref_future(a.0).payload() == mut_ref_current(a.0).payload()) ==> final(self).payload() == old(self).payload(),
    {
        match event {
            HostEvent::RedrawRequested => {
                if self.next_frame(update, render) {
                    HostAction::Wait
                } else {
                    HostAction::Exit
                }
            },
            HostEvent::AboutToWait => HostAction::RequestRedraw,
            HostEvent::Other => HostAction::Wait,
        }
    }
}

} // verus!
