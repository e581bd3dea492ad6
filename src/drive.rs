//! Drive states of a motor phase and the switch commands that realise them.
//!
//! Each half-bridge has a high-side and a low-side switch. A switch is
//! programmed with a conduction pattern over the PWM counter's range, whose
//! positions are counted in percent (`0..100`). Both switches of a bridge share
//! one counter, so they conduct at the same time exactly when their patterns
//! share a position: that is shoot-through, which no command sequence of this
//! library ever produces.

use vstd::prelude::*;

verus! {

/// Largest duty cycle, in percent.
pub const FULL_DUTY: u8 = 100;

/// How one motor phase is driven.
#[derive(Clone, Copy, Debug, PartialEq, Eq, Structural)]
pub enum PhaseDriveState {
    /// The high side conducts for the given percentage of each period and the
    /// low side for the rest of it, less the dead-time.
    Energized(u8),
    /// The low side conducts all the time, the high side never.
    Grounded,
    /// Neither side conducts.
    HighImpedance,
}

/// The role a phase plays in one commutation step, whatever its duty.
#[derive(Clone, Copy, Debug, PartialEq, Eq, Structural)]
pub enum Role {
    Energized,
    Grounded,
    HighImpedance,
}

/// `duty` limited to `0..=100`.
pub open spec fn clamped_duty(duty: int) -> int {
    if duty > FULL_DUTY {
        FULL_DUTY as int
    } else {
        duty
    }
}

/// The role of a drive state.
pub open spec fn role_of(state: PhaseDriveState) -> Role {
    match state {
        PhaseDriveState::Energized(_) => Role::Energized,
        PhaseDriveState::Grounded => Role::Grounded,
        PhaseDriveState::HighImpedance => Role::HighImpedance,
    }
}

/// A drive state with its duty, if any, limited to `0..=100`.
pub open spec fn clamped_state(state: PhaseDriveState) -> PhaseDriveState {
    match state {
        PhaseDriveState::Energized(duty) => PhaseDriveState::Energized(clamped_duty(duty as int) as u8),
        _ => state,
    }
}

impl PhaseDriveState {
    /// An energized state's duty lies in `0..=100`.
    pub open spec fn wf(self) -> bool {
        self matches PhaseDriveState::Energized(duty) ==> duty <= FULL_DUTY
    }

    pub fn role(&self) -> (r: Role)
        ensures
            r == role_of(*self),
    {
        match self {
            PhaseDriveState::Energized(_) => Role::Energized,
            PhaseDriveState::Grounded => Role::Grounded,
            PhaseDriveState::HighImpedance => Role::HighImpedance,
        }
    }

    /// The same state with an out-of-range duty clamped to 100.
    pub fn clamped(&self) -> (r: PhaseDriveState)
        ensures
            r == clamped_state(*self),
            r.wf(),
    {
        match self {
            PhaseDriveState::Energized(duty) => PhaseDriveState::Energized(clamp_duty(*duty)),
            PhaseDriveState::Grounded => PhaseDriveState::Grounded,
            PhaseDriveState::HighImpedance => PhaseDriveState::HighImpedance,
        }
    }
}

/// Limits a duty cycle to `0..=100`: larger values become 100.
pub fn clamp_duty(duty: u8) -> (r: u8)
    ensures
        r == clamped_duty(duty as int),
{
    if duty > FULL_DUTY {
        FULL_DUTY
    } else {
        duty
    }
}

/// One of the two switches of a half-bridge.
#[derive(Clone, Copy, Debug, PartialEq, Eq, Structural)]
pub enum Side {
    High,
    Low,
}

/// Conduction pattern of one switch over the counter range.
///
/// With a phase-correct counter that ramps up and down, `Below(p)` is a pulse
/// centred on each period's start and `AtOrAbove(w)` a pulse centred on its
/// middle, so a `Below` pulse on one side and an `AtOrAbove` pulse on the other
/// with `p <= w` leave a gap of `w - p` between them.
#[derive(Clone, Copy, Debug, PartialEq, Eq, Structural)]
pub enum SwitchDrive {
    /// Never conducts.
    Off,
    /// Always conducts.
    On,
    /// Conducts while the counter is below the given percentage of its range.
    Below(u8),
    /// Conducts while the counter is at or above the given percentage of its range.
    AtOrAbove(u8),
}

/// Whether a switch programmed with `drive` conducts at counter position
/// `position` (a percentage of the counter range).
pub open spec fn conducts(drive: SwitchDrive, position: int) -> bool {
    match drive {
        SwitchDrive::Off => false,
        SwitchDrive::On => true,
        SwitchDrive::Below(p) => position < p,
        SwitchDrive::AtOrAbove(p) => position >= p,
    }
}

/// Program the switch on `side` with `drive`.
#[derive(Clone, Copy, Debug, PartialEq, Eq, Structural)]
pub struct SwitchCommand {
    pub side: Side,
    pub drive: SwitchDrive,
}

/// The patterns that the two switches of a bridge were last programmed with.
#[derive(Clone, Copy, Debug, PartialEq, Eq, Structural)]
pub struct BridgeOutput {
    pub high: SwitchDrive,
    pub low: SwitchDrive,
}

/// The bridge output after `command`.
pub open spec fn apply_command(output: BridgeOutput, command: SwitchCommand) -> BridgeOutput {
    match command.side {
        Side::High => BridgeOutput { high: command.drive, low: output.low },
        Side::Low => BridgeOutput { high: output.high, low: command.drive },
    }
}

/// The bridge output after `commands`, issued in order from `output`.
pub open spec fn run_commands(output: BridgeOutput, commands: Seq<SwitchCommand>) -> BridgeOutput
    decreases commands.len(),
{
    if commands.len() == 0 {
        output
    } else {
        run_commands(apply_command(output, commands[0]), commands.skip(1))
    }
}

/// No counter position at which both switches conduct.
pub open spec fn shoot_through_free(output: BridgeOutput) -> bool {
    forall|position: int|
        0 <= position < 100 ==> !(#[trigger] conducts(output.high, position) && conducts(
            output.low,
            position,
        ))
}

/// Issued in order from `output`, no command of `commands` leaves both
/// switches conducting at one counter position.
pub open spec fn never_shoots_through(output: BridgeOutput, commands: Seq<SwitchCommand>) -> bool
    decreases commands.len(),
{
    commands.len() == 0 || {
        let next = apply_command(output, commands[0]);
        shoot_through_free(next) && never_shoots_through(next, commands.skip(1))
    }
}

/// Running `first` then `second` is running their concatenation.
pub proof fn lemma_run_commands_append(
    output: BridgeOutput,
    first: Seq<SwitchCommand>,
    second: Seq<SwitchCommand>,
)
    ensures
        run_commands(output, first + second) == run_commands(run_commands(output, first), second),
    decreases first.len(),
{
    if first.len() > 0 {
        assert((first + second).skip(1) =~= first.skip(1) + second);
        lemma_run_commands_append(apply_command(output, first[0]), first.skip(1), second);
    } else {
        assert(first + second =~= second);
    }
}

/// Two command sequences that are each free of shoot-through, the second
/// issued from where the first leaves the bridge, are free of it together.
pub proof fn lemma_never_shoots_through_append(
    output: BridgeOutput,
    first: Seq<SwitchCommand>,
    second: Seq<SwitchCommand>,
)
    requires
        never_shoots_through(output, first),
        never_shoots_through(run_commands(output, first), second),
    ensures
        never_shoots_through(output, first + second),
    decreases first.len(),
{
    if first.len() > 0 {
        assert((first + second).skip(1) =~= first.skip(1) + second);
        lemma_never_shoots_through_append(apply_command(output, first[0]), first.skip(1), second);
    } else {
        assert(first + second =~= second);
    }
}

} // verus!
