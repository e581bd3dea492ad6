//! The commutation scheduler: the decisions of the periodic control loop.
//!
//! On every tick the scheduler advances the step index, looks up the step and
//! drives each of the three half-bridges into the state the step gives it. The
//! hardware layer waits for the tick, calls `tick`, and issues the commands it
//! returns, each phase's list in order.

use vstd::prelude::*;
use crate::commutation::{
    drive_of, step_wf, CommutationStep, CommutationTable, Phase, STEPS_PER_REVOLUTION,
};
use crate::drive::{PhaseDriveState, SwitchCommand};
use crate::half_bridge::{commands_for, release_commands, HalfBridge};
use crate::step_index::{next_position, StepIndex};

verus! {

/// The switch commands of one tick, one ordered list per phase.
pub struct TickCommands {
    pub phase_a: Vec<SwitchCommand>,
    pub phase_b: Vec<SwitchCommand>,
    pub phase_c: Vec<SwitchCommand>,
}

/// The commands for `phase` in `commands`.
pub open spec fn commands_of(commands: TickCommands, phase: Phase) -> Seq<SwitchCommand> {
    match phase {
        Phase::A => commands.phase_a@,
        Phase::B => commands.phase_b@,
        Phase::C => commands.phase_c@,
    }
}

/// Owns the table, the step index and the three half-bridge drivers.
pub struct CommutationScheduler {
    table: CommutationTable,
    index: StepIndex,
    bridge_a: HalfBridge,
    bridge_b: HalfBridge,
    bridge_c: HalfBridge,
}

impl CommutationScheduler {
    pub closed spec fn spec_table(&self) -> Seq<CommutationStep> {
        self.table@
    }

    pub closed spec fn spec_index(&self) -> nat {
        self.index@
    }

    pub closed spec fn spec_bridge(&self, phase: Phase) -> HalfBridge {
        match phase {
            Phase::A => self.bridge_a,
            Phase::B => self.bridge_b,
            Phase::C => self.bridge_c,
        }
    }

    /// Six valid steps, an index below six, and valid drivers.
    pub open spec fn wf(&self) -> bool {
        &&& self.spec_table().len() == STEPS_PER_REVOLUTION
        &&& forall|i: int|
            0 <= i < STEPS_PER_REVOLUTION ==> step_wf(#[trigger] self.spec_table()[i])
        &&& self.spec_index() < STEPS_PER_REVOLUTION
        &&& self.spec_bridge(Phase::A).wf()
        &&& self.spec_bridge(Phase::B).wf()
        &&& self.spec_bridge(Phase::C).wf()
    }

    /// A scheduler at step zero of `table`, driving the three bridges.
    pub fn new(
        table: CommutationTable,
        bridge_a: HalfBridge,
        bridge_b: HalfBridge,
        bridge_c: HalfBridge,
    ) -> (r: CommutationScheduler)
        requires
            table.wf(),
            bridge_a.wf(),
            bridge_b.wf(),
            bridge_c.wf(),
        ensures
            r.wf(),
            r.spec_index() == 0,
            r.spec_table() == table@,
            r.spec_bridge(Phase::A) == bridge_a,
            r.spec_bridge(Phase::B) == bridge_b,
            r.spec_bridge(Phase::C) == bridge_c,
    {
        CommutationScheduler { table, index: StepIndex::new(), bridge_a, bridge_b, bridge_c }
    }

    /// The current position in the table.
    pub fn step_index(&self) -> (r: usize)
        ensures
            r == self.spec_index(),
    {
        self.index.value()
    }

    /// The state `phase` was last driven into.
    pub fn state_of(&self, phase: Phase) -> (r: PhaseDriveState)
        ensures
            r == self.spec_bridge(phase).spec_state(),
    {
        match phase {
            Phase::A => self.bridge_a.state(),
            Phase::B => self.bridge_b.state(),
            Phase::C => self.bridge_c.state(),
        }
    }

    /// One tick: advances to the next step, wrapping after the sixth, and
    /// drives every phase into the state that step gives it. No phase is
    /// skipped.
    pub fn tick(&mut self) -> (r: TickCommands)
        requires
            old(self).wf(),
        ensures
            final(self).wf(),
            final(self).spec_table() == old(self).spec_table(),
            final(self).spec_index() == next_position(old(self).spec_index()),
            forall|phase: Phase|
                {
                    let step = old(self).spec_table()[final(self).spec_index() as int];
                    let before = #[trigger] old(self).spec_bridge(phase);
                    let after = final(self).spec_bridge(phase);
                    &&& after.spec_state() == drive_of(step, phase)
                    &&& after.spec_timing() == before.spec_timing()
                    &&& commands_of(r, phase) == commands_for(
                        drive_of(step, phase),
                        before.spec_timing().dead_time_percent,
                    )
                },
    {
        self.index.advance();
        let step = self.table.step(self.index.value());
        assert(step_wf(step));
        let phase_a = self.bridge_a.drive(step.phase_a);
        let phase_b = self.bridge_b.drive(step.phase_b);
        let phase_c = self.bridge_c.drive(step.phase_c);
        TickCommands { phase_a, phase_b, phase_c }
    }

    /// Releases `phase` after the hardware refused one of its commands; the
    /// next tick drives it again. The other phases are left as they are.
    pub fn fall_back(&mut self, phase: Phase) -> (r: Vec<SwitchCommand>)
        requires
            old(self).wf(),
        ensures
            final(self).wf(),
            final(self).spec_table() == old(self).spec_table(),
            final(self).spec_index() == old(self).spec_index(),
            final(self).spec_bridge(phase).spec_state() == PhaseDriveState::HighImpedance,
            final(self).spec_bridge(phase).spec_timing() == old(self).spec_bridge(
                phase,
            ).spec_timing(),
            forall|other: Phase|
                other != phase ==> #[trigger] final(self).spec_bridge(other) == old(
                    self,
                ).spec_bridge(other),
            r@ == release_commands(),
    {
        match phase {
            Phase::A => self.bridge_a.set_high_impedance(),
            Phase::B => self.bridge_b.set_high_impedance(),
            Phase::C => self.bridge_c.set_high_impedance(),
        }
    }
}

} // verus!
