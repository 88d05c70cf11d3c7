//! Giving the terminal back.
//!
//! Leaving the session undoes what entering it set up, one step after the
//! other. Every step is tried whether or not an earlier one failed, and the
//! failure that is reported in the end is the first one met.

use vstd::prelude::*;

verus! {

/// One step of giving the terminal back.
#[derive(Clone, Copy, Debug, PartialEq, Eq, Structural)]
pub enum CleanupStep {
    /// Leave raw mode.
    DisableRawMode,
    /// Take back the keyboard enhancement flags.
    PopKeyboardEnhancement,
    /// Stop capturing the mouse and leave the alternate screen.
    LeaveAlternateScreen,
    /// Show the cursor again.
    ShowCursor,
}

/// What is remembered of the terminal between setup and cleanup.
#[derive(Clone, Copy, Debug, PartialEq, Eq, Structural)]
pub struct GuardState {
    /// Whether setup switched keyboard enhancement on.
    pub keyboard_enhanced: bool,
    /// Whether cleanup has been started.
    pub restored: bool,
}

/// The steps of cleanup in their order. The keyboard step is there only where
/// setup switched keyboard enhancement on.
pub open spec fn cleanup_plan(keyboard_enhanced: bool) -> Seq<CleanupStep> {
    if keyboard_enhanced {
        seq![
            CleanupStep::DisableRawMode,
            CleanupStep::PopKeyboardEnhancement,
            CleanupStep::LeaveAlternateScreen,
            CleanupStep::ShowCursor,
        ]
    } else {
        seq![
            CleanupStep::DisableRawMode,
            CleanupStep::LeaveAlternateScreen,
            CleanupStep::ShowCursor,
        ]
    }
}

/// Whether `at` is the place of the first failure among the outcomes, each
/// `true` for a step that failed.
pub open spec fn is_first_failure(failed: Seq<bool>, at: int) -> bool {
    &&& 0 <= at < failed.len()
    &&& failed[at]
    &&& forall|i: int| 0 <= i < at ==> !failed[i]
}

/// The steps of cleanup, to be run one after the other, all of them.
pub fn cleanup_steps(keyboard_enhanced: bool) -> (steps: Vec<CleanupStep>)
    ensures
        steps@ == cleanup_plan(keyboard_enhanced),
{
    let mut steps: Vec<CleanupStep> = Vec::new();
    steps.push(CleanupStep::DisableRawMode);
    if keyboard_enhanced {
        steps.push(CleanupStep::PopKeyboardEnhancement);
    }
    steps.push(CleanupStep::LeaveAlternateScreen);
    steps.push(CleanupStep::ShowCursor);
    proof {
        assert(steps@ =~= cleanup_plan(keyboard_enhanced));
    }
    steps
}

/// The place of the failure to report once every step has run: the first
/// step that failed, none where all went well.
pub fn first_failure(failed: &Vec<bool>) -> (first: Option<usize>)
    ensures
        match first {
            Some(at) => is_first_failure(failed@, at as int),
            None => forall|i: int| 0 <= i < failed.len() ==> !failed[i],
        },
{
    let mut i: usize = 0;
    while i < failed.len()
        invariant
            i <= failed.len(),
            forall|j: int| 0 <= j < i ==> !failed[j],
        decreases failed.len() - i,
    {
        if failed[i] {
            return Some(i);
        }
        i += 1;
    }
    None
}

impl GuardState {
    /// The guard of a terminal that was just set up.
    pub fn new(keyboard_enhanced: bool) -> (guard: Self)
        ensures
            guard.keyboard_enhanced == keyboard_enhanced,
            !guard.restored,
    {
        GuardState { keyboard_enhanced, restored: false }
    }

    /// Marks cleanup as started and says whether it is to run: it runs once,
    /// however often it is asked for.
    pub fn begin_restore(&mut self) -> (run: bool)
        ensures
            run == !old(self).restored,
            final(self).restored,
            final(self).keyboard_enhanced == old(self).keyboard_enhanced,
    {
        let run = !self.restored;
        self.restored = true;
        run
    }
}

} // verus!
