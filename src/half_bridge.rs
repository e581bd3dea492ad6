//! The half-bridge driver: one per motor phase.
//!
//! The driver keeps the phase's drive state and its fixed timing, and turns
//! each requested state into the ordered switch commands that the hardware
//! layer then issues. Every sequence first switches off each side that may be
//! conducting and would conflict with what follows, and only then switches a
//! side on, so from whatever the switches were last programmed with, no
//! command of it lets both sides conduct together.

use vstd::prelude::*;
use crate::drive::{
    clamp_duty, clamped_duty, clamped_state, lemma_never_shoots_through_append,
    lemma_run_commands_append, never_shoots_through, run_commands, BridgeOutput,
    PhaseDriveState, Side, SwitchCommand, SwitchDrive, FULL_DUTY,
};
use crate::timing::{compute_timing, timing_outcome, TimingConfig, TimingError};

verus! {

/// Counter position at which the low side starts conducting while the bridge
/// is energized with `duty`: the dead-time after the high side's pulse ends,
/// or never when that would reach the end of the range.
pub open spec fn low_side_start(duty: int, dead_time_percent: int) -> int {
    if duty + dead_time_percent >= FULL_DUTY {
        FULL_DUTY as int
    } else {
        duty + dead_time_percent
    }
}

/// The commands that energize a bridge with `duty`: both sides off, the high
/// side first, whichever of them was conducting; then the high-side pulse;
/// then the low side for the rest of the period less the dead-time.
pub open spec fn energize_commands(duty: u8, dead_time_percent: u8) -> Seq<SwitchCommand> {
    seq![
        SwitchCommand { side: Side::High, drive: SwitchDrive::Off },
        SwitchCommand { side: Side::Low, drive: SwitchDrive::Off },
        SwitchCommand { side: Side::High, drive: SwitchDrive::Below(duty) },
        SwitchCommand {
            side: Side::Low,
            drive: SwitchDrive::AtOrAbove(low_side_start(duty as int, dead_time_percent as int) as u8),
        },
    ]
}

/// The commands that ground a bridge: high side off, then low side fully on.
pub open spec fn ground_commands() -> Seq<SwitchCommand> {
    seq![
        SwitchCommand { side: Side::High, drive: SwitchDrive::Off },
        SwitchCommand { side: Side::Low, drive: SwitchDrive::On },
    ]
}

/// The commands that release a bridge: high side off, then low side off.
pub open spec fn release_commands() -> Seq<SwitchCommand> {
    seq![
        SwitchCommand { side: Side::High, drive: SwitchDrive::Off },
        SwitchCommand { side: Side::Low, drive: SwitchDrive::Off },
    ]
}

/// The commands that bring a bridge into `state`.
pub open spec fn commands_for(state: PhaseDriveState, dead_time_percent: u8) -> Seq<SwitchCommand> {
    match state {
        PhaseDriveState::Energized(duty) => energize_commands(duty, dead_time_percent),
        PhaseDriveState::Grounded => ground_commands(),
        PhaseDriveState::HighImpedance => release_commands(),
    }
}

/// How the switches of a bridge in `state` are programmed.
pub open spec fn output_for(state: PhaseDriveState, dead_time_percent: u8) -> BridgeOutput {
    match state {
        PhaseDriveState::Energized(duty) => BridgeOutput {
            high: SwitchDrive::Below(duty),
            low: SwitchDrive::AtOrAbove(low_side_start(duty as int, dead_time_percent as int) as u8),
        },
        PhaseDriveState::Grounded => BridgeOutput { high: SwitchDrive::Off, low: SwitchDrive::On },
        PhaseDriveState::HighImpedance => BridgeOutput {
            high: SwitchDrive::Off,
            low: SwitchDrive::Off,
        },
    }
}

/// Whatever the switches were programmed with before, the commands for a
/// drive state never let both sides conduct at one counter position, and they
/// leave the bridge programmed as that state asks.
pub proof fn lemma_commands_never_shoot_through(
    start: BridgeOutput,
    state: PhaseDriveState,
    dead_time_percent: u8,
)
    requires
        state.wf(),
    ensures
        never_shoots_through(start, commands_for(state, dead_time_percent)),
        run_commands(start, commands_for(state, dead_time_percent)) == output_for(
            state,
            dead_time_percent,
        ),
{
    let cmds = commands_for(state, dead_time_percent);
    reveal_with_fuel(never_shoots_through, 5);
    reveal_with_fuel(run_commands, 5);
    if cmds.len() == 4 {
        assert(cmds.skip(1) =~= seq![cmds[1], cmds[2], cmds[3]]);
        assert(cmds.skip(1).skip(1) =~= seq![cmds[2], cmds[3]]);
        assert(cmds.skip(1).skip(1).skip(1) =~= seq![cmds[3]]);
        assert(cmds.skip(1).skip(1).skip(1).skip(1) =~= Seq::<SwitchCommand>::empty());
    } else {
        assert(cmds.skip(1) =~= seq![cmds[1]]);
        assert(cmds.skip(1).skip(1) =~= Seq::<SwitchCommand>::empty());
    }
}

/// From any programming of the switches, energizing a bridge, then grounding
/// it, then releasing it never lets both sides conduct after any of the
/// commands issued: each side that is to conduct is switched on only once the
/// side it would conflict with has been switched off.
pub proof fn lemma_energize_ground_release_never_shoots_through(
    start: BridgeOutput,
    duty: u8,
    dead_time_percent: u8,
)
    requires
        duty <= FULL_DUTY,
    ensures
        never_shoots_through(
            start,
            energize_commands(duty, dead_time_percent) + ground_commands() + release_commands(),
        ),
{
    let energized = PhaseDriveState::Energized(duty);
    let after_energize = output_for(energized, dead_time_percent);
    let after_ground = output_for(PhaseDriveState::Grounded, dead_time_percent);
    lemma_commands_never_shoot_through(start, energized, dead_time_percent);
    lemma_commands_never_shoot_through(after_energize, PhaseDriveState::Grounded, dead_time_percent);
    lemma_commands_never_shoot_through(after_ground, PhaseDriveState::HighImpedance, dead_time_percent);
    lemma_never_shoots_through_append(
        start,
        energize_commands(duty, dead_time_percent),
        ground_commands(),
    );
    lemma_run_commands_append(start, energize_commands(duty, dead_time_percent), ground_commands());
    lemma_never_shoots_through_append(
        start,
        energize_commands(duty, dead_time_percent) + ground_commands(),
        release_commands(),
    );
}

/// Driver of one half-bridge.
pub struct HalfBridge {
    timing: TimingConfig,
    state: PhaseDriveState,
}

impl HalfBridge {
    /// The bridge's fixed timing.
    pub closed spec fn spec_timing(&self) -> TimingConfig {
        self.timing
    }

    /// The state the bridge was last driven into.
    pub closed spec fn spec_state(&self) -> PhaseDriveState {
        self.state
    }

    /// Valid timing and a valid drive state.
    pub open spec fn wf(&self) -> bool {
        self.spec_timing().wf() && self.spec_state().wf()
    }

    /// A driver whose timing is computed from the clock, the switching
    /// frequency, the clock divider and the dead-time; it starts in high
    /// impedance. Parameters that cannot drive a motor are refused, with the
    /// error `compute_timing` gives.
    pub fn new(clock_hz: u32, switching_freq_hz: u32, divider: u32, dead_time_ns: u32) -> (r: Result<
        HalfBridge,
        TimingError,
    >)
        ensures
            match timing_outcome(
                clock_hz as int,
                switching_freq_hz as int,
                divider as int,
                dead_time_ns as int,
            ) {
                Ok(timing) => r is Ok && r->Ok_0.spec_timing() == timing
                    && r->Ok_0.spec_state() == PhaseDriveState::HighImpedance && r->Ok_0.wf(),
                Err(e) => r == Err::<HalfBridge, TimingError>(e),
            },
    {
        match compute_timing(clock_hz, switching_freq_hz, divider, dead_time_ns) {
            Ok(timing) => Ok(HalfBridge { timing, state: PhaseDriveState::HighImpedance }),
            Err(e) => Err(e),
        }
    }

    pub fn timing(&self) -> (r: TimingConfig)
        ensures
            r == self.spec_timing(),
    {
        self.timing
    }

    pub fn state(&self) -> (r: PhaseDriveState)
        ensures
            r == self.spec_state(),
    {
        self.state
    }

    /// Energizes the bridge: the high side conducts for `duty` percent of the
    /// period, clamped to 100, and the low side for the rest less the
    /// dead-time. Both sides are switched off first, so a side that was
    /// conducting is always commanded off before any side is commanded on.
    pub fn set_energized(&mut self, duty: u8) -> (commands: Vec<SwitchCommand>)
        requires
            old(self).wf(),
        ensures
            final(self).wf(),
            final(self).spec_timing() == old(self).spec_timing(),
            final(self).spec_state() == PhaseDriveState::Energized(
                clamped_duty(duty as int) as u8,
            ),
            commands@ == energize_commands(
                clamped_duty(duty as int) as u8,
                old(self).spec_timing().dead_time_percent,
            ),
    {
        let duty = clamp_duty(duty);
        let dead = self.timing.dead_time_percent;
        proof {
            assert(dead < 100) by (nonlinear_arith)
                requires
                    self.timing.dead_time_ticks < self.timing.period_ticks,
                    dead == self.timing.dead_time_ticks * 100 / self.timing.period_ticks as int,
            ;
        }
        let low_start: u8 = if duty + dead >= FULL_DUTY {
            FULL_DUTY
        } else {
            duty + dead
        };
        let mut commands: Vec<SwitchCommand> = Vec::new();
        commands.push(SwitchCommand { side: Side::High, drive: SwitchDrive::Off });
        commands.push(SwitchCommand { side: Side::Low, drive: SwitchDrive::Off });
        commands.push(SwitchCommand { side: Side::High, drive: SwitchDrive::Below(duty) });
        commands.push(SwitchCommand { side: Side::Low, drive: SwitchDrive::AtOrAbove(low_start) });
        self.state = PhaseDriveState::Energized(duty);
        commands
    }

    /// Grounds the bridge: the high side is switched off, then the low side
    /// fully on.
    pub fn set_grounded(&mut self) -> (commands: Vec<SwitchCommand>)
        requires
            old(self).wf(),
        ensures
            final(self).wf(),
            final(self).spec_timing() == old(self).spec_timing(),
            final(self).spec_state() == PhaseDriveState::Grounded,
            commands@ == ground_commands(),
    {
        let mut commands: Vec<SwitchCommand> = Vec::new();
        commands.push(SwitchCommand { side: Side::High, drive: SwitchDrive::Off });
        commands.push(SwitchCommand { side: Side::Low, drive: SwitchDrive::On });
        self.state = PhaseDriveState::Grounded;
        commands
    }

    /// Releases the bridge: both sides are switched off, the high side first.
    /// Safe from any state.
    pub fn set_high_impedance(&mut self) -> (commands: Vec<SwitchCommand>)
        requires
            old(self).wf(),
        ensures
            final(self).wf(),
            final(self).spec_timing() == old(self).spec_timing(),
            final(self).spec_state() == PhaseDriveState::HighImpedance,
            commands@ == release_commands(),
    {
        let mut commands: Vec<SwitchCommand> = Vec::new();
        commands.push(SwitchCommand { side: Side::High, drive: SwitchDrive::Off });
        commands.push(SwitchCommand { side: Side::Low, drive: SwitchDrive::Off });
        self.state = PhaseDriveState::HighImpedance;
        commands
    }

    /// Drives the bridge into `target`, an energized duty clamped to 100.
    pub fn drive(&mut self, target: PhaseDriveState) -> (commands: Vec<SwitchCommand>)
        requires
            old(self).wf(),
        ensures
            final(self).wf(),
            final(self).spec_timing() == old(self).spec_timing(),
            final(self).spec_state() == clamped_state(target),
            commands@ == commands_for(clamped_state(target), old(self).spec_timing().dead_time_percent),
    {
        match target {
            PhaseDriveState::Energized(duty) => self.set_energized(duty),
            PhaseDriveState::Grounded => self.set_grounded(),
            PhaseDriveState::HighImpedance => self.set_high_impedance(),
        }
    }
}

} // verus!
