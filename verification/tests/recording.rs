use motor_drivers::channel::{ChannelCall, ChannelCommand, PwmChannel};
use motor_drivers::delay::Delay;
use motor_drivers::fault::HardwareFault;
use motor_drivers::line::{Level, LineWrite, OutputLine};
use motor_drivers::recording::{RecordingChannel, RecordingDelay, RecordingLine};

#[test]
fn a_line_takes_the_level_written() {
    let mut line = RecordingLine::new(Level::Low);
    assert!(line.is_set_low());
    assert!(!line.is_set_high());
    assert_eq!(line.set_high(), Ok(()));
    assert!(line.is_set_high());
    assert!(!line.is_set_low());
    assert_eq!(line.level(), Level::High);
    assert_eq!(line.set_low(), Ok(()));
    assert_eq!(line.level(), Level::Low);
    assert_eq!(
        line.writes(),
        &vec![
            LineWrite { level: Level::High, outcome: Ok(()) },
            LineWrite { level: Level::Low, outcome: Ok(()) },
        ]
    );
}

#[test]
fn a_line_refuses_writes_once_its_healthy_writes_are_spent() {
    let fault = HardwareFault { code: 3 };
    let mut line = RecordingLine::failing_after(Level::Low, 2, fault);
    assert_eq!(line.set_high(), Ok(()));
    assert_eq!(line.set_low(), Ok(()));
    assert_eq!(line.set_high(), Err(fault));
    assert_eq!(line.set_high(), Err(fault));
    assert_eq!(line.level(), Level::Low);
    assert_eq!(line.writes().len(), 4);
    assert_eq!(line.writes()[2], LineWrite { level: Level::High, outcome: Err(fault) });
}

#[test]
fn a_channel_starts_at_duty_zero_and_generating() {
    let channel = RecordingChannel::new(255);
    assert_eq!(channel.get_max_duty(), 255);
    assert_eq!(channel.duty(), 0);
    assert!(channel.enabled());
    assert!(channel.calls().is_empty());
}

#[test]
fn a_channel_carries_out_its_commands() {
    let mut channel = RecordingChannel::new(255);
    assert_eq!(channel.set_duty(100), Ok(()));
    assert_eq!(channel.duty(), 100);
    assert_eq!(channel.disable(), Ok(()));
    assert!(!channel.enabled());
    assert_eq!(channel.duty(), 100);
    assert_eq!(channel.enable(), Ok(()));
    assert!(channel.enabled());
    assert_eq!(channel.duty(), 100);
    assert_eq!(channel.disable(), Ok(()));
    assert_eq!(channel.set_duty(7), Ok(()));
    assert!(channel.enabled());
    assert_eq!(channel.get_max_duty(), 255);
    assert_eq!(
        channel.calls(),
        &vec![
            ChannelCall { command: ChannelCommand::SetDuty(100), outcome: Ok(()) },
            ChannelCall { command: ChannelCommand::Disable, outcome: Ok(()) },
            ChannelCall { command: ChannelCommand::Enable, outcome: Ok(()) },
            ChannelCall { command: ChannelCommand::Disable, outcome: Ok(()) },
            ChannelCall { command: ChannelCommand::SetDuty(7), outcome: Ok(()) },
        ]
    );
}

#[test]
fn a_channel_cuts_a_duty_above_its_ceiling() {
    let mut channel = RecordingChannel::new(255);
    assert_eq!(channel.set_duty(256), Ok(()));
    assert_eq!(channel.duty(), 255);
    assert_eq!(channel.set_duty(u32::MAX), Ok(()));
    assert_eq!(channel.duty(), 255);
    assert_eq!(channel.set_duty(255), Ok(()));
    assert_eq!(channel.duty(), 255);
}

#[test]
fn a_channel_refuses_commands_once_its_healthy_calls_are_spent() {
    let fault = HardwareFault { code: 4 };
    let mut channel = RecordingChannel::failing_after(1023, 1, fault);
    assert_eq!(channel.set_duty(512), Ok(()));
    assert_eq!(channel.disable(), Err(fault));
    assert_eq!(channel.set_duty(1), Err(fault));
    assert_eq!(channel.enable(), Err(fault));
    assert!(channel.enabled());
    assert_eq!(channel.duty(), 512);
    assert_eq!(channel.calls().len(), 4);
}

#[test]
fn a_delay_records_what_it_served() {
    let mut delay = RecordingDelay::new();
    assert!(delay.served().is_empty());
    delay.delay_ms(1);
    delay.delay_ms(250);
    assert_eq!(delay.served(), &vec![1, 250]);
}
