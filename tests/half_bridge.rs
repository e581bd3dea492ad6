use bldc_commutation::drive::{clamp_duty, PhaseDriveState, Role, Side, SwitchCommand, SwitchDrive};
use bldc_commutation::half_bridge::HalfBridge;
use bldc_commutation::timing::TimingError;

fn cmd(side: Side, drive: SwitchDrive) -> SwitchCommand {
    SwitchCommand { side, drive }
}

fn conducts(drive: SwitchDrive, position: u8) -> bool {
    match drive {
        SwitchDrive::Off => false,
        SwitchDrive::On => true,
        SwitchDrive::Below(p) => position < p,
        SwitchDrive::AtOrAbove(p) => position >= p,
    }
}

/// Stands in for the two switches of a bridge: records every command in
/// order and checks after each one that no counter position has both sides
/// conducting.
struct RecordingBridge {
    high: SwitchDrive,
    low: SwitchDrive,
    log: Vec<SwitchCommand>,
}

impl RecordingBridge {
    fn new() -> Self {
        RecordingBridge { high: SwitchDrive::Off, low: SwitchDrive::Off, log: Vec::new() }
    }

    fn issue(&mut self, commands: &[SwitchCommand]) {
        for c in commands {
            match c.side {
                Side::High => self.high = c.drive,
                Side::Low => self.low = c.drive,
            }
            self.log.push(*c);
            for position in 0..100u8 {
                assert!(
                    !(conducts(self.high, position) && conducts(self.low, position)),
                    "shoot-through after {:?}",
                    c
                );
            }
        }
    }
}

fn bridge() -> HalfBridge {
    HalfBridge::new(125_000_000, 25_000, 16, 1000).unwrap()
}

#[test]
fn new_bridge_starts_in_high_impedance() {
    let b = bridge();
    assert_eq!(b.state(), PhaseDriveState::HighImpedance);
    assert_eq!(b.timing().period_ticks, 312);
    assert_eq!(b.timing().dead_time_percent, 2);
}

#[test]
fn new_bridge_refuses_bad_timing() {
    assert_eq!(HalfBridge::new(1_000, 25_000, 16, 0).err(), Some(TimingError::NonPositivePeriod));
    assert_eq!(HalfBridge::new(125_000_000, 25_000, 0, 0).err(), Some(TimingError::ZeroRate));
    assert_eq!(
        HalfBridge::new(125_000_000, 25_000, 16, 50_000).err(),
        Some(TimingError::DeadTimeTooLong)
    );
}

#[test]
fn energize_above_full_duty_clamps_to_full() {
    let mut b = bridge();
    let commands = b.set_energized(150);
    assert_eq!(b.state(), PhaseDriveState::Energized(100));
    assert_eq!(
        commands,
        vec![
            cmd(Side::High, SwitchDrive::Off),
            cmd(Side::Low, SwitchDrive::Off),
            cmd(Side::High, SwitchDrive::Below(100)),
            cmd(Side::Low, SwitchDrive::AtOrAbove(100)),
        ]
    );
}

#[test]
fn energize_switches_both_sides_off_first_and_inserts_dead_time() {
    let mut b = bridge();
    let commands = b.set_energized(50);
    assert_eq!(b.state(), PhaseDriveState::Energized(50));
    assert_eq!(
        commands,
        vec![
            cmd(Side::High, SwitchDrive::Off),
            cmd(Side::Low, SwitchDrive::Off),
            cmd(Side::High, SwitchDrive::Below(50)),
            cmd(Side::Low, SwitchDrive::AtOrAbove(52)),
        ]
    );
}

#[test]
fn energize_with_zero_duty_keeps_high_side_off() {
    let mut b = bridge();
    let commands = b.set_energized(0);
    assert_eq!(b.state(), PhaseDriveState::Energized(0));
    assert_eq!(commands[2], cmd(Side::High, SwitchDrive::Below(0)));
    assert_eq!(commands[3], cmd(Side::Low, SwitchDrive::AtOrAbove(2)));
}

#[test]
fn energize_again_switches_conducting_high_side_off_first() {
    let mut b = bridge();
    b.set_energized(50);
    let commands = b.set_energized(50);
    assert_eq!(commands[0], cmd(Side::High, SwitchDrive::Off));
    assert_eq!(commands[1], cmd(Side::Low, SwitchDrive::Off));
    assert_eq!(commands[2], cmd(Side::High, SwitchDrive::Below(50)));
}

#[test]
fn ground_switches_high_side_off_first() {
    let mut b = bridge();
    b.set_energized(30);
    let commands = b.set_grounded();
    assert_eq!(b.state(), PhaseDriveState::Grounded);
    assert_eq!(
        commands,
        vec![cmd(Side::High, SwitchDrive::Off), cmd(Side::Low, SwitchDrive::On)]
    );
}

#[test]
fn high_impedance_switches_both_sides_off() {
    let mut b = bridge();
    b.set_grounded();
    let commands = b.set_high_impedance();
    assert_eq!(b.state(), PhaseDriveState::HighImpedance);
    assert_eq!(
        commands,
        vec![cmd(Side::High, SwitchDrive::Off), cmd(Side::Low, SwitchDrive::Off)]
    );
}

#[test]
fn transition_sequence_never_activates_before_deactivating() {
    let mut b = bridge();
    let mut hw = RecordingBridge::new();
    hw.issue(&b.set_energized(50));
    hw.issue(&b.set_grounded());
    hw.issue(&b.set_high_impedance());
    assert_eq!(
        hw.log,
        vec![
            cmd(Side::High, SwitchDrive::Off),
            cmd(Side::Low, SwitchDrive::Off),
            cmd(Side::High, SwitchDrive::Below(50)),
            cmd(Side::Low, SwitchDrive::AtOrAbove(52)),
            cmd(Side::High, SwitchDrive::Off),
            cmd(Side::Low, SwitchDrive::On),
            cmd(Side::High, SwitchDrive::Off),
            cmd(Side::Low, SwitchDrive::Off),
        ]
    );
    assert_eq!(hw.high, SwitchDrive::Off);
    assert_eq!(hw.low, SwitchDrive::Off);
}

#[test]
fn every_transition_between_states_is_free_of_shoot_through() {
    let states = [
        PhaseDriveState::Energized(0),
        PhaseDriveState::Energized(15),
        PhaseDriveState::Energized(98),
        PhaseDriveState::Energized(100),
        PhaseDriveState::Grounded,
        PhaseDriveState::HighImpedance,
    ];
    for from in states {
        for to in states {
            let mut b = bridge();
            let mut hw = RecordingBridge::new();
            hw.issue(&b.drive(from));
            hw.issue(&b.drive(to));
            assert_eq!(b.state(), to);
        }
    }
}

#[test]
fn drive_dispatches_and_clamps() {
    let mut b = bridge();
    let commands = b.drive(PhaseDriveState::Energized(200));
    assert_eq!(b.state(), PhaseDriveState::Energized(100));
    assert_eq!(commands.len(), 4);
    b.drive(PhaseDriveState::Grounded);
    assert_eq!(b.state(), PhaseDriveState::Grounded);
    b.drive(PhaseDriveState::HighImpedance);
    assert_eq!(b.state(), PhaseDriveState::HighImpedance);
}

#[test]
fn clamp_duty_limits_to_full_duty() {
    assert_eq!(clamp_duty(0), 0);
    assert_eq!(clamp_duty(100), 100);
    assert_eq!(clamp_duty(101), 100);
    assert_eq!(clamp_duty(255), 100);
    assert_eq!(PhaseDriveState::Energized(130).clamped(), PhaseDriveState::Energized(100));
    assert_eq!(PhaseDriveState::Grounded.clamped(), PhaseDriveState::Grounded);
}

#[test]
fn roles_of_drive_states() {
    assert_eq!(PhaseDriveState::Energized(7).role(), Role::Energized);
    assert_eq!(PhaseDriveState::Grounded.role(), Role::Grounded);
    assert_eq!(PhaseDriveState::HighImpedance.role(), Role::HighImpedance);
}
