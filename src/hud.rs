//! Race timer and map loading state.

use vstd::prelude::*;

verus! {

/// Elapsed race time, in fixed-point seconds.
pub struct TimerText {
    pub value: i64,
}

/// Whether the race has started and whether it has finished.
#[derive(Clone, Copy, Debug, PartialEq, Eq, Structural, Default)]
pub struct Completion {
    pub started: bool,
    pub finished: bool,
}

/// Whether the track has been built.
#[derive(Clone, Copy, Debug, PartialEq, Eq, Structural)]
pub struct MapStatus {
    pub loaded: bool,
}

impl Completion {
    /// The race is under way: started and not yet finished.
    pub fn running(&self) -> (r: bool)
        ensures
            r == (self.started && !self.finished),
    {
        self.started && !self.finished
    }
}

/// Advances the race timer by the tick while the race is under way.
pub fn text_update_system(completion: &Completion, timer: &mut TimerText, dt: i64)
    requires
        0 <= dt,
        old(timer).value + dt <= i64::MAX,
    ensures
        final(timer).value == if completion.started && !completion.finished {
            old(timer).value + dt
        } else {
            old(timer).value as int
        },
{
    if completion.running() {
        timer.value = timer.value + dt;
    }
}

/// The track is to be built now: its assets have all loaded and it has not
/// been built yet.
pub fn map_setup_due(assets_loaded: bool, status: &MapStatus) -> (r: bool)
    ensures
        r == (assets_loaded && !status.loaded),
{
    assets_loaded && !status.loaded
}

} // verus!
