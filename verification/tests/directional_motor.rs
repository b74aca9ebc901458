use motor_drivers::directional_motor::DirectionalMotorDriver;
use motor_drivers::fault::HardwareFault;
use motor_drivers::line::{Level, LineWrite};
use motor_drivers::recording::RecordingLine;
use motor_drivers::DirectionalMotor;

#[test]
fn start_drives_the_line_high() {
    let mut driver = DirectionalMotorDriver::new(RecordingLine::new(Level::Low));
    assert_eq!(driver.start(), Ok(()));
    assert_eq!(driver.in1().level(), Level::High);
    assert_eq!(
        driver.in1().writes(),
        &vec![LineWrite { level: Level::High, outcome: Ok(()) }]
    );
}

#[test]
fn stop_drives_the_line_low() {
    let mut driver = DirectionalMotorDriver::new(RecordingLine::new(Level::High));
    assert_eq!(driver.stop(), Ok(()));
    assert_eq!(driver.in1().level(), Level::Low);
    assert_eq!(
        driver.in1().writes(),
        &vec![LineWrite { level: Level::Low, outcome: Ok(()) }]
    );
}

#[test]
fn start_then_stop_then_start() {
    let mut driver = DirectionalMotorDriver::new(RecordingLine::new(Level::Low));
    assert_eq!(driver.start(), Ok(()));
    assert_eq!(driver.stop(), Ok(()));
    assert_eq!(driver.in1().level(), Level::Low);
    assert_eq!(driver.start(), Ok(()));
    assert_eq!(driver.in1().level(), Level::High);
    assert_eq!(driver.in1().writes().len(), 3);
}

#[test]
fn a_refused_write_is_handed_to_the_caller_and_not_retried() {
    let fault = HardwareFault { code: 258 };
    let mut driver =
        DirectionalMotorDriver::new(RecordingLine::failing_after(Level::Low, 1, fault));
    assert_eq!(driver.start(), Ok(()));
    assert_eq!(driver.stop(), Err(fault));
    assert_eq!(driver.in1().level(), Level::High);
    assert_eq!(
        driver.in1().writes(),
        &vec![
            LineWrite { level: Level::High, outcome: Ok(()) },
            LineWrite { level: Level::Low, outcome: Err(fault) },
        ]
    );
}

#[test]
fn directional_driver_new_writes_nothing() {
    let driver = DirectionalMotorDriver::new(RecordingLine::new(Level::High));
    assert_eq!(driver.in1().level(), Level::High);
    assert!(driver.in1().writes().is_empty());
}
