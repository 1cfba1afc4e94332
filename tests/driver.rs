use embassy_nrf::pwm::Error as PwmError;
use ws2812_pwm::{pwm_setup, Color, Error, Phase, PwmSetup, Ws2812, ONE_CODE, ZERO_CODE};

#[derive(Debug, PartialEq)]
struct FakePwm(u32);

#[test]
fn delay_for_eight_leds() {
    let ws: Ws2812<FakePwm, 192> = Ws2812::new(FakePwm(0));
    assert_eq!(ws.num_leds(), 8);
    assert_eq!(ws.delay_micros(), 510);
    assert!(ws.delay_micros() >= 8 * 24 * 1250 / 1000 + 270);
}

#[test]
fn delay_for_one_led() {
    let ws: Ws2812<FakePwm, 24> = Ws2812::new(FakePwm(0));
    assert_eq!(ws.delay_micros(), 30 + 270);
}

#[test]
fn sequence_config_is_single_pass_with_reset_gap() {
    let ws: Ws2812<FakePwm, 24> = Ws2812::new(FakePwm(0));
    let c = ws.sequence_config();
    assert_eq!(c.refresh, 0);
    assert_eq!(c.end_delay, 4320);
}

#[test]
fn new_driver_is_idle_and_zeroed() {
    let ws: Ws2812<FakePwm, 48> = Ws2812::new(FakePwm(1));
    assert_eq!(ws.phase(), Phase::Idle);
    assert!(ws.codes().unwrap().iter().all(|&c| c == 0));
}

#[test]
fn write_cycle_returns_handle_and_buffer() {
    let mut ws: Ws2812<FakePwm, 24> = Ws2812::new(FakePwm(7));
    let t = ws.begin_write(&[Color::new(255, 255, 255)]);
    assert_eq!(ws.phase(), Phase::Transmitting);
    assert!(ws.codes().is_none());
    assert_eq!(t.pwm, FakePwm(7));
    assert!(t.buf.as_slice().iter().all(|&c| c == ONE_CODE));
    assert_eq!(ws.after_trigger(Ok(())), Ok(300));
    assert_eq!(ws.phase(), Phase::Waiting);
    ws.finish_write(t);
    assert_eq!(ws.phase(), Phase::Idle);
    assert!(ws.codes().unwrap().iter().all(|&c| c == ONE_CODE));
}

#[test]
fn busy_until_handle_and_buffer_return() {
    let mut ws: Ws2812<FakePwm, 24> = Ws2812::new(FakePwm(0));
    let t = ws.begin_write(&[Color::new(0, 0, 0)]);
    assert_eq!(ws.phase(), Phase::Transmitting);
    assert!(ws.codes().is_none());
    ws.finish_write(t);
    assert_eq!(ws.phase(), Phase::Idle);
    let t = ws.begin_write(&[Color::new(255, 255, 255)]);
    assert!(t.buf.as_slice().iter().all(|&c| c == ONE_CODE));
    ws.finish_write(t);
}

#[test]
fn setup_matches_bit_period() {
    let s = pwm_setup();
    assert_eq!(
        s,
        PwmSetup { max_duty: 20, prescaler_div: 1, count_up: true, common_load: true, high_drive_low: true }
    );
}

#[test]
fn trigger_rejection_keeps_encoded_buffer() {
    let mut ws: Ws2812<FakePwm, 24> = Ws2812::new(FakePwm(3));
    let t = ws.begin_write(&[Color::new(255, 0, 0)]);
    let r = ws.after_trigger(Err(PwmError::SequenceTooLong));
    assert_eq!(r, Err(Error::PwmError(PwmError::SequenceTooLong)));
    assert_eq!(ws.phase(), Phase::Transmitting);
    ws.finish_write(t);
    assert_eq!(ws.phase(), Phase::Idle);
    let s = ws.codes().unwrap();
    assert!(s[0..8].iter().all(|&c| c == ZERO_CODE));
    assert!(s[8..16].iter().all(|&c| c == ONE_CODE));
    assert!(s[16..24].iter().all(|&c| c == ZERO_CODE));
}

#[test]
fn error_from_sequencer_error() {
    let e: Error = PwmError::BufferNotInRAM.into();
    assert_eq!(e, Error::PwmError(PwmError::BufferNotInRAM));
}
