use motor_drivers::channel::{ChannelCall, ChannelCommand};
use motor_drivers::directional_pwm_motor::DirectionalPwmMotorDriver;
use motor_drivers::fault::HardwareFault;
use motor_drivers::recording::RecordingChannel;
use motor_drivers::{DirectionalMotor, DirectionalPwmMotor};

fn set(duty: u32) -> ChannelCall {
    ChannelCall { command: ChannelCommand::SetDuty(duty), outcome: Ok(()) }
}

#[test]
fn binary_start_and_stop_with_ceiling_255() {
    let mut driver = DirectionalPwmMotorDriver::new(RecordingChannel::new(255));
    assert_eq!(DirectionalPwmMotor::max_duty(&driver), 255);

    assert_eq!(DirectionalMotor::start(&mut driver), Ok(()));
    assert_eq!(driver.in1().duty(), 255);

    assert_eq!(DirectionalMotor::stop(&mut driver), Ok(()));
    assert_eq!(driver.in1().duty(), 0);
}

#[test]
fn start_sets_the_duty_given() {
    for duty in [0, 1, 100, 1022, 1023] {
        let mut driver = DirectionalPwmMotorDriver::new(RecordingChannel::new(1023));
        assert_eq!(DirectionalPwmMotor::start(&mut driver, duty), Ok(()));
        assert_eq!(driver.in1().duty(), duty);
        assert!(driver.in1().enabled());
        assert_eq!(driver.in1().calls(), &vec![set(duty)]);
    }
}

#[test]
fn graduated_stop_sets_duty_zero() {
    let mut driver = DirectionalPwmMotorDriver::new(RecordingChannel::new(1023));
    assert_eq!(DirectionalPwmMotor::start(&mut driver, 700), Ok(()));
    assert_eq!(DirectionalPwmMotor::stop(&mut driver), Ok(()));
    assert_eq!(driver.in1().duty(), 0);
    assert_eq!(driver.in1().calls(), &vec![set(700), set(0)]);
}

#[test]
fn the_channel_is_never_disabled() {
    let mut driver = DirectionalPwmMotorDriver::new(RecordingChannel::new(255));
    assert_eq!(DirectionalMotor::start(&mut driver), Ok(()));
    assert_eq!(DirectionalMotor::stop(&mut driver), Ok(()));
    assert_eq!(DirectionalPwmMotor::start(&mut driver, 9), Ok(()));
    assert_eq!(DirectionalPwmMotor::stop(&mut driver), Ok(()));
    assert!(driver.in1().enabled());
    assert_eq!(driver.in1().calls(), &vec![set(255), set(0), set(9), set(0)]);
}

#[test]
fn max_duty_is_the_ceiling_of_the_channel() {
    for max_duty in [0, 1, 255, 1023, 65535, u32::MAX] {
        let mut driver = DirectionalPwmMotorDriver::new(RecordingChannel::new(max_duty));
        assert_eq!(DirectionalPwmMotor::max_duty(&driver), max_duty);
        assert!(driver.in1().calls().is_empty());
        assert_eq!(DirectionalMotor::start(&mut driver), Ok(()));
        assert_eq!(driver.in1().duty(), max_duty);
        assert_eq!(DirectionalPwmMotor::max_duty(&driver), max_duty);
    }
}

#[test]
fn a_refused_duty_is_handed_to_the_caller() {
    let fault = HardwareFault { code: 261 };
    let mut driver = DirectionalPwmMotorDriver::new(RecordingChannel::failing_after(255, 1, fault));
    assert_eq!(DirectionalPwmMotor::start(&mut driver, 40), Ok(()));
    assert_eq!(DirectionalPwmMotor::stop(&mut driver), Err(fault));
    assert_eq!(driver.in1().duty(), 40);
    assert_eq!(
        driver.in1().calls(),
        &vec![
            set(40),
            ChannelCall { command: ChannelCommand::SetDuty(0), outcome: Err(fault) },
        ]
    );
}
