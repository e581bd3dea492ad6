//! The six-step commutation table.
//!
//! Each step drives exactly one phase energized, one grounded and one left
//! floating. The table is checked against that rule when it is built, so a
//! table for another arrangement is accepted only if it keeps it.

use vstd::prelude::*;
use crate::drive::{clamp_duty, clamped_duty, role_of, PhaseDriveState, Role};

verus! {

/// Steps in one electrical revolution, 60 degrees each.
pub const STEPS_PER_REVOLUTION: usize = 6;

/// One of the three motor phases.
#[derive(Clone, Copy, Debug, PartialEq, Eq, Structural)]
pub enum Phase {
    A,
    B,
    C,
}

/// The drive states of the three phases during one step.
#[derive(Clone, Copy, Debug, PartialEq, Eq, Structural)]
pub struct CommutationStep {
    pub phase_a: PhaseDriveState,
    pub phase_b: PhaseDriveState,
    pub phase_c: PhaseDriveState,
}

/// The drive state of `phase` in `step`.
pub open spec fn drive_of(step: CommutationStep, phase: Phase) -> PhaseDriveState {
    match phase {
        Phase::A => step.phase_a,
        Phase::B => step.phase_b,
        Phase::C => step.phase_c,
    }
}

/// How many phases of `step` play `role`.
pub open spec fn role_count(step: CommutationStep, role: Role) -> int {
    (if role_of(step.phase_a) == role {
        1int
    } else {
        0
    }) + (if role_of(step.phase_b) == role {
        1int
    } else {
        0
    }) + (if role_of(step.phase_c) == role {
        1int
    } else {
        0
    })
}

/// Exactly one phase energized, one grounded and one floating.
pub open spec fn one_of_each_role(step: CommutationStep) -> bool {
    &&& role_count(step, Role::Energized) == 1
    &&& role_count(step, Role::Grounded) == 1
    &&& role_count(step, Role::HighImpedance) == 1
}

/// One phase in each role, and every duty within `0..=100`.
pub open spec fn step_wf(step: CommutationStep) -> bool {
    &&& one_of_each_role(step)
    &&& step.phase_a.wf()
    &&& step.phase_b.wf()
    &&& step.phase_c.wf()
}

impl CommutationStep {
    pub fn drive_for(&self, phase: Phase) -> (r: PhaseDriveState)
        ensures
            r == drive_of(*self, phase),
    {
        match phase {
            Phase::A => self.phase_a,
            Phase::B => self.phase_b,
            Phase::C => self.phase_c,
        }
    }

    /// Whether exactly one phase is energized, one grounded and one floating.
    pub fn has_one_of_each_role(&self) -> (r: bool)
        ensures
            r == one_of_each_role(*self),
    {
        let a = self.phase_a.role();
        let b = self.phase_b.role();
        let c = self.phase_c.role();
        a != b && b != c && a != c
    }

    /// Whether the step may stand in a commutation table.
    pub fn is_valid(&self) -> (r: bool)
        ensures
            r == step_wf(*self),
    {
        self.has_one_of_each_role() && duty_in_range(self.phase_a) && duty_in_range(self.phase_b)
            && duty_in_range(self.phase_c)
    }
}

fn duty_in_range(state: PhaseDriveState) -> (r: bool)
    ensures
        r == state.wf(),
{
    match state {
        PhaseDriveState::Energized(duty) => duty <= 100,
        _ => true,
    }
}

/// What a phase does at `position` (in steps) of the conventional sequence:
/// energized for two steps, floating for one, grounded for two, floating for
/// one.
pub open spec fn six_step_state(position: int, duty: u8) -> PhaseDriveState {
    let k = position % STEPS_PER_REVOLUTION as int;
    if k == 0 || k == 1 {
        PhaseDriveState::Energized(duty)
    } else if k == 3 || k == 4 {
        PhaseDriveState::Grounded
    } else {
        PhaseDriveState::HighImpedance
    }
}

/// Step `k` of the conventional sequence: phase B runs two steps (120
/// degrees) behind phase A, and phase C two steps behind phase B.
pub open spec fn six_step_entry(k: int, duty: u8) -> CommutationStep {
    CommutationStep {
        phase_a: six_step_state(k, duty),
        phase_b: six_step_state(k + 4, duty),
        phase_c: six_step_state(k + 2, duty),
    }
}

/// Each step of the conventional sequence has one phase in each role, and its
/// six steps are six different assignments of roles to phases.
pub proof fn lemma_six_step_has_one_of_each_role(duty: u8)
    requires
        duty <= 100,
    ensures
        forall|k: int| 0 <= k < 6 ==> step_wf(#[trigger] six_step_entry(k, duty)),
        forall|j: int, k: int|
            0 <= j < k < 6 ==> #[trigger] six_step_entry(j, duty) != #[trigger] six_step_entry(
                k,
                duty,
            ),
{
    assert forall|k: int| 0 <= k < 6 implies step_wf(#[trigger] six_step_entry(k, duty)) by {
        assert(k == 0 || k == 1 || k == 2 || k == 3 || k == 4 || k == 5);
    }
    assert forall|j: int, k: int| 0 <= j < k < 6 implies #[trigger] six_step_entry(j, duty)
        != #[trigger] six_step_entry(k, duty) by {
        assert(six_step_entry(j, duty).phase_a != six_step_entry(k, duty).phase_a
            || six_step_entry(j, duty).phase_b != six_step_entry(k, duty).phase_b
            || six_step_entry(j, duty).phase_c != six_step_entry(k, duty).phase_c);
    }
}

fn six_step_state_at(position: usize, duty: u8) -> (r: PhaseDriveState)
    ensures
        r == six_step_state(position as int, duty),
{
    let k = position % STEPS_PER_REVOLUTION;
    if k == 0 || k == 1 {
        PhaseDriveState::Energized(duty)
    } else if k == 3 || k == 4 {
        PhaseDriveState::Grounded
    } else {
        PhaseDriveState::HighImpedance
    }
}

/// Why a list of steps cannot be a commutation table.
#[derive(Clone, Copy, Debug, PartialEq, Eq, Structural)]
pub enum TableError {
    /// The list does not hold six steps; it holds the given number.
    WrongLength(usize),
    /// The step at the given index does not have one phase in each role, or
    /// has a duty above 100.
    InvalidStep(usize),
}

/// Six steps, each with one phase in each role, read-only once built.
pub struct CommutationTable {
    steps: Vec<CommutationStep>,
}

impl View for CommutationTable {
    type V = Seq<CommutationStep>;

    closed spec fn view(&self) -> Seq<CommutationStep> {
        self.steps@
    }
}

impl CommutationTable {
    /// Six steps, each of them valid.
    pub open spec fn wf(&self) -> bool {
        &&& self@.len() == STEPS_PER_REVOLUTION
        &&& forall|i: int| 0 <= i < STEPS_PER_REVOLUTION ==> step_wf(#[trigger] self@[i])
    }

    /// The conventional six-step table, each energized phase driven at
    /// `duty` percent (clamped to 100).
    pub fn six_step(duty: u8) -> (r: CommutationTable)
        ensures
            r.wf(),
            forall|k: int|
                0 <= k < STEPS_PER_REVOLUTION ==> r@[k] == six_step_entry(
                    k,
                    clamped_duty(duty as int) as u8,
                ),
    {
        let duty = clamp_duty(duty);
        proof {
            lemma_six_step_has_one_of_each_role(duty);
        }
        let mut steps: Vec<CommutationStep> = Vec::new();
        let mut k: usize = 0;
        while k < STEPS_PER_REVOLUTION
            invariant
                k <= STEPS_PER_REVOLUTION,
                steps@.len() == k,
                forall|j: int| 0 <= j < k ==> steps@[j] == six_step_entry(j, duty),
            decreases STEPS_PER_REVOLUTION - k,
        {
            steps.push(
                CommutationStep {
                    phase_a: six_step_state_at(k, duty),
                    phase_b: six_step_state_at(k + 4, duty),
                    phase_c: six_step_state_at(k + 2, duty),
                },
            );
            k = k + 1;
        }
        assert forall|i: int| 0 <= i < STEPS_PER_REVOLUTION implies step_wf(#[trigger] steps@[i]) by {
            assert(steps@[i] == six_step_entry(i, duty));
        }
        CommutationTable { steps }
    }

    /// A table made of `steps`, provided there are six of them and each has
    /// one phase in each role and duties within `0..=100`. Otherwise the error
    /// names the length, or the first step at fault.
    pub fn from_steps(steps: Vec<CommutationStep>) -> (r: Result<CommutationTable, TableError>)
        ensures
            r is Ok <==> (steps@.len() == STEPS_PER_REVOLUTION && forall|i: int|
                0 <= i < steps@.len() ==> step_wf(#[trigger] steps@[i])),
            r is Ok ==> r->Ok_0@ == steps@ && r->Ok_0.wf(),
            steps@.len() != STEPS_PER_REVOLUTION <==> r == Err::<CommutationTable, TableError>(
                TableError::WrongLength(steps@.len() as usize),
            ),
            r matches Err(TableError::InvalidStep(i)) ==> i < steps@.len() && !step_wf(steps@[i as int])
                && forall|j: int| 0 <= j < i ==> step_wf(#[trigger] steps@[j]),
    {
        if steps.len() != STEPS_PER_REVOLUTION {
            return Err(TableError::WrongLength(steps.len()));
        }
        let mut i: usize = 0;
        while i < steps.len()
            invariant
                i <= steps@.len(),
                steps@.len() == STEPS_PER_REVOLUTION,
                forall|j: int| 0 <= j < i ==> step_wf(#[trigger] steps@[j]),
            decreases steps@.len() - i,
        {
            if !steps[i].is_valid() {
                return Err(TableError::InvalidStep(i));
            }
            i = i + 1;
        }
        Ok(CommutationTable { steps })
    }

    /// The step at position `index`.
    pub fn step(&self, index: usize) -> (r: CommutationStep)
        requires
            self.wf(),
            index < STEPS_PER_REVOLUTION,
        ensures
            r == self@[index as int],
    {
        self.steps[index]
    }
}

} // verus!
