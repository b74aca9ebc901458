use motor_drivers::bidirectional_motor::BidirectionalMotorDriver;
use motor_drivers::fault::HardwareFault;
use motor_drivers::line::{Level, LineWrite};
use motor_drivers::recording::RecordingLine;
use motor_drivers::BidirectionalMotor;

fn ok(level: Level) -> LineWrite {
    LineWrite { level, outcome: Ok(()) }
}

fn bridge(in1: Level, in2: Level) -> BidirectionalMotorDriver<RecordingLine, RecordingLine> {
    BidirectionalMotorDriver::new(RecordingLine::new(in1), RecordingLine::new(in2))
}

#[test]
fn new_writes_nothing() {
    let driver = bridge(Level::High, Level::Low);
    assert_eq!(driver.in1().level(), Level::High);
    assert_eq!(driver.in2().level(), Level::Low);
    assert!(driver.in1().writes().is_empty());
    assert!(driver.in2().writes().is_empty());
}

#[test]
fn forward_brake_coast_from_low_low() {
    let mut driver = bridge(Level::Low, Level::Low);

    assert_eq!(driver.forward(), Ok(()));
    assert_eq!(driver.in1().level(), Level::High);
    assert_eq!(driver.in2().level(), Level::Low);

    assert_eq!(driver.brake(), Ok(()));
    assert_eq!(driver.in1().level(), Level::High);
    assert_eq!(driver.in2().level(), Level::High);

    assert_eq!(driver.coast(), Ok(()));
    assert_eq!(driver.in1().level(), Level::Low);
    assert_eq!(driver.in2().level(), Level::Low);
}

#[test]
fn backward_is_low_high() {
    let mut driver = bridge(Level::High, Level::Low);
    assert_eq!(driver.backward(), Ok(()));
    assert_eq!(driver.in1().level(), Level::Low);
    assert_eq!(driver.in2().level(), Level::High);
}

#[test]
fn each_transition_writes_each_line_once() {
    let mut driver = bridge(Level::Low, Level::Low);
    assert_eq!(driver.forward(), Ok(()));
    assert_eq!(driver.in1().writes(), &vec![ok(Level::High)]);
    assert_eq!(driver.in2().writes(), &vec![ok(Level::Low)]);

    assert_eq!(driver.backward(), Ok(()));
    assert_eq!(driver.brake(), Ok(()));
    assert_eq!(driver.coast(), Ok(()));
    assert_eq!(
        driver.in1().writes(),
        &vec![ok(Level::High), ok(Level::Low), ok(Level::High), ok(Level::Low)]
    );
    assert_eq!(
        driver.in2().writes(),
        &vec![ok(Level::Low), ok(Level::High), ok(Level::High), ok(Level::Low)]
    );
}

#[test]
fn a_level_already_held_is_written_again() {
    let mut driver = bridge(Level::High, Level::Low);
    assert_eq!(driver.forward(), Ok(()));
    assert_eq!(driver.in1().writes().len(), 1);
    assert_eq!(driver.in2().writes().len(), 1);
}

#[test]
fn brake_then_coast_is_low_low_from_every_state() {
    for in1 in [Level::Low, Level::High] {
        for in2 in [Level::Low, Level::High] {
            let mut driver = bridge(in1, in2);
            assert_eq!(driver.brake(), Ok(()));
            assert_eq!(driver.coast(), Ok(()));
            assert_eq!(driver.in1().level(), Level::Low);
            assert_eq!(driver.in2().level(), Level::Low);
        }
    }
}

#[test]
fn failed_first_write_stops_the_transition() {
    let fault = HardwareFault { code: 263 };
    let mut driver = BidirectionalMotorDriver::new(
        RecordingLine::failing_after(Level::Low, 0, fault),
        RecordingLine::new(Level::High),
    );
    assert_eq!(driver.forward(), Err(fault));
    assert_eq!(
        driver.in1().writes(),
        &vec![LineWrite { level: Level::High, outcome: Err(fault) }]
    );
    assert!(driver.in2().writes().is_empty());
    assert_eq!(driver.in2().level(), Level::High);
}

#[test]
fn failed_second_write_leaves_the_first_done() {
    let fault = HardwareFault { code: -1 };
    let mut driver = BidirectionalMotorDriver::new(
        RecordingLine::new(Level::Low),
        RecordingLine::failing_after(Level::High, 0, fault),
    );
    assert_eq!(driver.forward(), Err(fault));
    assert_eq!(driver.in1().level(), Level::High);
    assert_eq!(driver.in1().writes(), &vec![ok(Level::High)]);
    assert_eq!(
        driver.in2().writes(),
        &vec![LineWrite { level: Level::Low, outcome: Err(fault) }]
    );
    assert_eq!(driver.in2().level(), Level::High);
}

#[test]
fn a_failed_transition_is_not_retried() {
    let fault = HardwareFault { code: 7 };
    let mut driver = BidirectionalMotorDriver::new(
        RecordingLine::failing_after(Level::Low, 1, fault),
        RecordingLine::new(Level::Low),
    );
    assert_eq!(driver.brake(), Ok(()));
    assert_eq!(driver.coast(), Err(fault));
    assert_eq!(driver.in1().writes().len(), 2);
    assert_eq!(driver.in2().writes().len(), 1);
    assert_eq!(driver.in1().level(), Level::High);
    assert_eq!(driver.in2().level(), Level::High);
}

#[test]
fn coast_recovers_a_bridge_after_a_fault_has_cleared() {
    let fault = HardwareFault { code: 7 };
    let mut driver = BidirectionalMotorDriver::new(
        RecordingLine::new(Level::Low),
        RecordingLine::failing_after(Level::Low, 0, fault),
    );
    assert_eq!(driver.brake(), Err(fault));
    let mut driver = BidirectionalMotorDriver::new(
        RecordingLine::new(driver.in1().level()),
        RecordingLine::new(driver.in2().level()),
    );
    assert_eq!(driver.coast(), Ok(()));
    assert_eq!(driver.in1().level(), Level::Low);
    assert_eq!(driver.in2().level(), Level::Low);
}
