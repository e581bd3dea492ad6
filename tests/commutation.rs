use bldc_commutation::commutation::{CommutationStep, CommutationTable, Phase, TableError};
use bldc_commutation::drive::{PhaseDriveState, Role};
use bldc_commutation::step_index::StepIndex;

const E: PhaseDriveState = PhaseDriveState::Energized(15);
const G: PhaseDriveState = PhaseDriveState::Grounded;
const Z: PhaseDriveState = PhaseDriveState::HighImpedance;

fn step(a: PhaseDriveState, b: PhaseDriveState, c: PhaseDriveState) -> CommutationStep {
    CommutationStep { phase_a: a, phase_b: b, phase_c: c }
}

fn count(s: &CommutationStep, role: Role) -> usize {
    [s.phase_a, s.phase_b, s.phase_c].iter().filter(|p| p.role() == role).count()
}

#[test]
fn six_step_table_has_one_phase_in_each_role() {
    let table = CommutationTable::six_step(15);
    for i in 0..6 {
        let s = table.step(i);
        assert_eq!(count(&s, Role::Energized), 1);
        assert_eq!(count(&s, Role::Grounded), 1);
        assert_eq!(count(&s, Role::HighImpedance), 1);
        assert!(s.has_one_of_each_role());
        assert!(s.is_valid());
    }
}

#[test]
fn six_step_table_is_the_conventional_sequence() {
    let table = CommutationTable::six_step(15);
    let expected = [
        step(E, G, Z),
        step(E, Z, G),
        step(Z, E, G),
        step(G, E, Z),
        step(G, Z, E),
        step(Z, G, E),
    ];
    for i in 0..6 {
        assert_eq!(table.step(i), expected[i]);
    }
}

#[test]
fn six_step_table_steps_are_all_different() {
    let table = CommutationTable::six_step(40);
    for i in 0..6 {
        for j in 0..6 {
            assert_eq!(table.step(i) == table.step(j), i == j);
        }
    }
}

#[test]
fn six_step_table_clamps_duty() {
    let table = CommutationTable::six_step(250);
    assert_eq!(table.step(0).phase_a, PhaseDriveState::Energized(100));
}

#[test]
fn table_for_reverse_rotation_is_accepted() {
    let reverse = vec![
        step(Z, G, E),
        step(G, Z, E),
        step(G, E, Z),
        step(Z, E, G),
        step(E, Z, G),
        step(E, G, Z),
    ];
    let table = CommutationTable::from_steps(reverse.clone()).unwrap();
    for i in 0..6 {
        assert_eq!(table.step(i), reverse[i]);
    }
}

#[test]
fn table_with_two_energized_phases_is_refused() {
    let mut steps: Vec<CommutationStep> = Vec::new();
    for i in 0..6 {
        steps.push(CommutationTable::six_step(15).step(i));
    }
    steps[3] = step(E, E, G);
    assert_eq!(
        CommutationTable::from_steps(steps.clone()).err(),
        Some(TableError::InvalidStep(3))
    );
    steps[1] = step(Z, Z, Z);
    assert_eq!(CommutationTable::from_steps(steps).err(), Some(TableError::InvalidStep(1)));
}

#[test]
fn table_with_duty_above_full_is_refused() {
    let steps = vec![
        step(E, G, Z),
        step(E, Z, G),
        step(Z, E, G),
        step(G, PhaseDriveState::Energized(101), Z),
        step(G, Z, E),
        step(Z, G, E),
    ];
    assert_eq!(CommutationTable::from_steps(steps).err(), Some(TableError::InvalidStep(3)));
}

#[test]
fn table_of_wrong_length_is_refused() {
    assert_eq!(
        CommutationTable::from_steps(vec![step(E, G, Z); 5]).err(),
        Some(TableError::WrongLength(5))
    );
    assert_eq!(CommutationTable::from_steps(Vec::new()).err(), Some(TableError::WrongLength(0)));
}

#[test]
fn drive_for_picks_the_phase() {
    let s = step(E, G, Z);
    assert_eq!(s.drive_for(Phase::A), E);
    assert_eq!(s.drive_for(Phase::B), G);
    assert_eq!(s.drive_for(Phase::C), Z);
}

#[test]
fn six_advances_return_to_the_start() {
    for start in 0..6 {
        let mut index = StepIndex::from_value(start).unwrap();
        let mut seen = [0u32; 6];
        for _ in 0..6 {
            index.advance();
            seen[index.value()] += 1;
        }
        assert_eq!(index.value(), start);
        assert_eq!(seen, [1; 6]);
    }
}

#[test]
fn step_index_starts_at_zero_and_wraps() {
    let mut index = StepIndex::new();
    assert_eq!(index.value(), 0);
    for _ in 0..5 {
        index.advance();
    }
    assert_eq!(index.value(), 5);
    index.advance();
    assert_eq!(index.value(), 0);
    assert!(StepIndex::from_value(6).is_none());
    assert_eq!(StepIndex::from_value(5).unwrap().value(), 5);
}
