//! Flags shared between the thread that reads the keyboard and the player.
use vstd::prelude::*;
use std::sync::Arc;
use std::sync::atomic::AtomicBool;

verus! {

/// Calls `Arc::clone`, which hands out another pointer to the same shared
/// value; the contract claims that the result is that value.
#[verifier::external_body]
fn share(flag: &Arc<AtomicBool>) -> (r: Arc<AtomicBool>)
    ensures
        r == *flag,
{
    Arc::clone(flag)
}

/// The flags that a keyboard reader sets: whether the space bar is held, and
/// whether the user asked to quit.
pub struct KeyboardHandler {
    spacebar_pressed: Arc<AtomicBool>,
    should_exit: Arc<AtomicBool>,
}

impl KeyboardHandler {
    /// The flag that tells whether the space bar is held.
    pub closed spec fn spacebar_flag(&self) -> Arc<AtomicBool> {
        self.spacebar_pressed
    }

    /// The flag that tells whether the user asked to quit.
    pub closed spec fn exit_flag(&self) -> Arc<AtomicBool> {
        self.should_exit
    }

    /// Create a handler with both flags down.
    pub fn new() -> Self {
        KeyboardHandler {
            spacebar_pressed: Arc::new(AtomicBool::new(false)),
            should_exit: Arc::new(AtomicBool::new(false)),
        }
    }

    /// Another handle to the space bar flag.
    pub fn spacebar_pressed(&self) -> (r: Arc<AtomicBool>)
        ensures
            r == self.spacebar_flag(),
    {
        share(&self.spacebar_pressed)
    }

    /// Another handle to the quit flag.
    pub fn should_exit(&self) -> (r: Arc<AtomicBool>)
        ensures
            r == self.exit_flag(),
    {
        share(&self.should_exit)
    }
}

} // verus!
