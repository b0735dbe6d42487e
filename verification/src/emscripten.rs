//! The main loop that the host's scheduler drives.
//!
//! The scheduler calls one function per frame. There can be only one such
//! function at a time: to change it, the current loop is cancelled first and
//! the new one is set afterwards. [`MainLoop`] keeps track of whether a loop
//! is set and says which instructions the scheduler must be given.

use vstd::prelude::*;

verus! {

/// Trait that defines a callback function for the scheduler to call once
/// per frame.
pub trait MainLoopCallback: 'static {
    /// The main loop callback.
    fn run_main_loop();
}

/// A default main loop implementation that immediately yields.
#[derive(Debug, Clone, Copy, Hash, PartialEq, Eq, PartialOrd, Ord)]
pub struct EmptyMainLoop;

impl MainLoopCallback for EmptyMainLoop {
    fn run_main_loop() {
    }
}

/// An instruction to the host's scheduler.
#[derive(Debug, Clone, Copy, PartialEq, Eq, Structural)]
pub enum Instruction {
    /// Cancel the main loop that is set.
    CancelMainLoop,
    /// Set the callback as the main loop.
    SetMainLoop {
        /// Frames per second; 0 or less leaves the pace to the host.
        fps: i32,
        /// Whether the host is to act as if the loop never returned: 1 if
        /// so, else 0.
        simulate_infinite_loop: i32,
    },
}

/// The instruction that sets a main loop which the host calls at its own
/// pace, again and again, until the loop is cancelled.
pub open spec fn spec_set_main_loop() -> Instruction {
    Instruction::SetMainLoop { fps: -1i32, simulate_infinite_loop: 1i32 }
}

/// The instructions that installing a callback issues, in order: a cancel
/// first if a main loop was set before, then the set.
pub open spec fn install_instructions(was_set: bool) -> Seq<Instruction> {
    if was_set {
        seq![Instruction::CancelMainLoop, spec_set_main_loop()]
    } else {
        seq![spec_set_main_loop()]
    }
}

/// All instructions issued by `n` installs in a row, the first of them with
/// no main loop set.
pub open spec fn install_trace(n: nat) -> Seq<Instruction>
    decreases n,
{
    if n == 0 {
        seq![]
    } else {
        install_trace((n - 1) as nat) + install_instructions(n > 1)
    }
}

/// How many of the instructions are cancels.
pub open spec fn cancels(instructions: Seq<Instruction>) -> nat
    decreases instructions.len(),
{
    if instructions.len() == 0 {
        0
    } else {
        cancels(instructions.drop_last()) + if instructions.last() is CancelMainLoop {
            1nat
        } else {
            0nat
        }
    }
}

/// The single slot for the main loop of one thread: whether a main loop has
/// been set.
#[derive(Debug)]
pub struct MainLoop {
    is_set: bool,
}

impl MainLoop {
    /// Whether a main loop has been set.
    pub closed spec fn is_set(&self) -> bool {
        self.is_set
    }

    /// The slot of a thread on which no main loop has been set.
    pub fn new() -> (main_loop: Self)
        ensures
            !main_loop.is_set(),
    {
        Self { is_set: false }
    }
}

/// Set the given callback as the main loop callback.
///
/// There can be only one main loop function at a time, per thread. If a main
/// loop has been set before, the instructions returned first cancel it and
/// then set the given one. The caller hands them to the scheduler in order.
pub fn set_main_loop_callback<F: MainLoopCallback>(
    main_loop: &mut MainLoop,
    _callback: F,
) -> (instructions: Vec<Instruction>)
    ensures
        instructions@ == install_instructions(old(main_loop).is_set()),
        final(main_loop).is_set(),
{
    let had_previous_callback = main_loop.is_set;
    main_loop.is_set = true;

    let mut instructions = Vec::new();
    if had_previous_callback {
        instructions.push(Instruction::CancelMainLoop);
    }
    instructions.push(Instruction::SetMainLoop { fps: -1, simulate_infinite_loop: 1 });
    instructions
}

/// Cancels add up over instructions issued one after the other.
proof fn lemma_cancels_add(first: Seq<Instruction>, second: Seq<Instruction>)
    ensures
        cancels(first + second) == cancels(first) + cancels(second),
    decreases second.len(),
{
    if second.len() == 0 {
        assert(first + second =~= first);
    } else {
        lemma_cancels_add(first, second.drop_last());
        assert((first + second).drop_last() =~= first + second.drop_last());
    }
}

/// An install cancels if and only if a main loop was set before, and then
/// once, before it sets the new one. Each install sets exactly one main
/// loop, last.
pub proof fn lemma_install_cancels_before_set(was_set: bool)
    ensures
        cancels(install_instructions(was_set)) == if was_set { 1nat } else { 0nat },
        was_set ==> install_instructions(was_set)[0] is CancelMainLoop,
        install_instructions(was_set).last() == spec_set_main_loop(),
{
    reveal_with_fuel(cancels, 3);
}

/// Installing twice issues exactly one cancel, between the two sets.
pub proof fn lemma_install_twice_cancels_once()
    ensures
        install_trace(2) == seq![
            spec_set_main_loop(),
            Instruction::CancelMainLoop,
            spec_set_main_loop(),
        ],
        cancels(install_trace(2)) == 1,
{
    reveal_with_fuel(install_trace, 3);
    reveal_with_fuel(cancels, 4);
    assert(install_trace(2) =~= seq![
        spec_set_main_loop(),
        Instruction::CancelMainLoop,
        spec_set_main_loop(),
    ]);
}

/// However often a callback is installed, every install but the first
/// issues one cancel.
pub proof fn lemma_cancels_one_less_than_installs(n: nat)
    requires
        n >= 1,
    ensures
        cancels(install_trace(n)) == n - 1,
    decreases n,
{
    lemma_install_cancels_before_set(n > 1);
    lemma_cancels_add(install_trace((n - 1) as nat), install_instructions(n > 1));
    if n > 1 {
        lemma_cancels_one_less_than_installs((n - 1) as nat);
    }
}

} // verus!
