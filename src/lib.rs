use std::sync::atomic::AtomicBool;
use std::sync::Arc;
use vstd::prelude::*;

pub mod disk;
pub mod tray;

verus! {

/// Process-wide state shared by the sampling task, the blink toggler and the
/// on-demand query: whether the last sampling found a low volume. Written
/// only from a `SamplingOutcome`'s report, read without blocking.
pub struct AppState {
    pub is_low_space: Arc<AtomicBool>,
}

} // verus!
