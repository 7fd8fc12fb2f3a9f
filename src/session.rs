use vstd::prelude::*;

use crate::geometry::{
    capture_region_at,
    find_monitor_containing,
    first_match,
    region_spec,
    CaptureRegion,
    MonitorInfo,
};

verus! {

/// Side of the square region sampled around the cursor.
pub const LOUPE_SIZE: i32 = 15;

/// Pause between two ticks of the picking loop, in milliseconds.
pub const POLL_INTERVAL_MS: u64 = 16;

/// The start/stop state of the picking loop.
///
/// Each start hands out a fresh generation number; a background loop keeps
/// running only while the session is running under the generation it was
/// started with, so a stop followed by a start retires the older loop.
#[derive(Clone, Copy, Debug, PartialEq, Eq, Structural)]
pub struct PickingSession {
    pub running: bool,
    pub generation: u64,
}

/// The generation that follows `g`.
pub open spec fn next_generation(g: u64) -> u64 {
    if g == u64::MAX {
        0
    } else {
        (g + 1) as u64
    }
}

/// A loop started under `token` is still meant to run in state `s`.
pub open spec fn live(s: PickingSession, token: u64) -> bool {
    s.running && s.generation == token
}

/// The state after a start, and the token of the loop to spawn, if any.
pub open spec fn start_spec(s: PickingSession) -> (PickingSession, Option<u64>) {
    if s.running {
        (s, None)
    } else {
        let g = next_generation(s.generation);
        (PickingSession { running: true, generation: g }, Some(g))
    }
}

/// The state after a stop.
pub open spec fn stop_spec(s: PickingSession) -> PickingSession {
    PickingSession { running: false, generation: s.generation }
}

impl PickingSession {
    pub fn new() -> (r: PickingSession)
        ensures
            !r.running,
            r.generation == 0,
    {
        PickingSession { running: false, generation: 0 }
    }

    /// Moves an idle session to running and returns the token of the loop to
    /// spawn; a running session is left as it is and nothing is spawned.
    pub fn start(&mut self) -> (r: Option<u64>)
        ensures
            (*final(self), r) == start_spec(*old(self)),
    {
        if self.running {
            None
        } else {
            let g = if self.generation == u64::MAX {
                0
            } else {
                self.generation + 1
            };
            self.running = true;
            self.generation = g;
            Some(g)
        }
    }

    pub fn stop(&mut self)
        ensures
            *final(self) == stop_spec(*old(self)),
    {
        self.running = false;
    }

    /// Whether the loop started under `token` should run another tick.
    pub fn is_current(&self, token: u64) -> (r: bool)
        ensures
            r == live(*self, token),
    {
        self.running && self.generation == token
    }
}

/// Starting twice in a row spawns at most one loop, and afterwards exactly one
/// token is live.
pub proof fn lemma_start_idempotent(s: PickingSession)
    ensures
        ({
            let (s1, t1) = start_spec(s);
            let (s2, t2) = start_spec(s1);
            &&& s2 == s1
            &&& t2 is None
            &&& (t1 is Some <==> !s.running)
            &&& forall|t: u64| live(s2, t) <==> t == s1.generation
        }),
{
}

/// A stop followed by a start spawns a fresh loop whose token differs from the
/// one before, and the loop of the earlier token is no longer live.
pub proof fn lemma_restart_fresh(s: PickingSession)
    ensures
        ({
            let (s2, t) = start_spec(stop_spec(s));
            &&& t is Some
            &&& t->Some_0 != s.generation
            &&& live(s2, t->Some_0)
            &&& !live(s2, s.generation)
        }),
{
}

/// What one tick of the picking loop captures: the monitor under the cursor,
/// by index, and the region around the cursor.
pub fn plan_tick(monitors: &Vec<MonitorInfo>, cx: i32, cy: i32) -> (r: Option<(usize, CaptureRegion)>)
    requires
        cx - LOUPE_SIZE / 2 >= i32::MIN,
        cy - LOUPE_SIZE / 2 >= i32::MIN,
    ensures
        match r {
            Some((i, region)) => first_match(monitors@, cx as int, cy as int, Some(i)) && (
            region.x as int,
            region.y as int,
            region.width as int,
            ) == region_spec(cx as int, cy as int, LOUPE_SIZE as int) && region.height
                == region.width,
            None => first_match(monitors@, cx as int, cy as int, None),
        },
{
    match find_monitor_containing(monitors, cx, cy) {
        Some(i) => Some((i, capture_region_at(cx, cy, LOUPE_SIZE as u32))),
        None => None,
    }
}

} // verus!
