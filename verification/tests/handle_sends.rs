use embassy_sync::blocking_mutex::raw::NoopRawMutex;
use embassy_sync::channel::Channel;
use embassy_time::Duration;
use led_actor::actor::{Message, Repeat};
use led_actor::colour::Colour;
use led_actor::handle::{send_outcome, AppError, LedActor, LedFault, RmtFault};
use led_actor::inbox::{post, ActorInbox};

fn channel() -> &'static Channel<NoopRawMutex, Message, 10> {
    Box::leak(Box::new(Channel::new()))
}

#[test]
fn on_and_off_send_their_messages() {
    let ch = channel();
    let led = LedActor::new(ActorInbox(ch.sender()));
    assert_eq!(led.on().0, Ok(()));
    assert_eq!(led.off().0, Ok(()));
    assert!(matches!(ch.try_receive(), Ok(Message::On)));
    assert!(matches!(ch.try_receive(), Ok(Message::Off)));
    assert!(ch.try_receive().is_err());
}

#[test]
fn colour_and_brightness_carry_their_values() {
    let ch = channel();
    let led = LedActor::new(ActorInbox(ch.sender()));
    assert_eq!(led.set_colour(Colour { r: 1, g: 2, b: 3 }).0, Ok(()));
    assert_eq!(led.set_brightness(77).0, Ok(()));
    match ch.try_receive() {
        Ok(Message::SetColour(c)) => assert_eq!(c, Colour { r: 1, g: 2, b: 3 }),
        _ => panic!("expected SetColour"),
    }
    match ch.try_receive() {
        Ok(Message::SetBrightness(level)) => assert_eq!(level, 77),
        _ => panic!("expected SetBrightness"),
    }
}

#[test]
fn sequence_carries_its_parts() {
    let ch = channel();
    let led = LedActor::new(ActorInbox(ch.sender()));
    let colours: &'static [Colour] = Box::leak(vec![Colour { r: 9, g: 8, b: 7 }].into_boxed_slice());
    assert_eq!(led.set_sequence(colours, Duration::from_millis(250), Repeat::N(4)).0, Ok(()));
    match ch.try_receive() {
        Ok(Message::SetSequence((seq, period, repeat))) => {
            assert_eq!(seq, colours);
            assert_eq!(period, Duration::from_millis(250));
            assert_eq!(repeat, Repeat::N(4));
        }
        _ => panic!("expected SetSequence"),
    }
}

#[test]
fn full_inbox_refuses_with_led_actor_send() {
    let ch = channel();
    let led = LedActor::new(ActorInbox(ch.sender()));
    for _ in 0..10 {
        assert_eq!(led.on().0, Ok(()));
    }
    assert_eq!(led.off().0, Err(AppError::LedActorSend));
    assert_eq!(led.set_brightness(3).0, Err(AppError::LedActorSend));
    assert!(ch.try_receive().is_ok());
    assert_eq!(led.off().0, Ok(()));
}

#[test]
fn send_outcome_maps_each_answer() {
    let ch = channel();
    let inbox = ActorInbox(ch.sender());
    for _ in 0..10 {
        let posted = post(&inbox, Message::On);
        assert!(posted.was_accepted());
        assert_eq!(send_outcome(&posted), Ok(()));
    }
    let refused = post(&inbox, Message::Off);
    assert!(!refused.was_accepted());
    assert_eq!(send_outcome(&refused), Err(AppError::LedActorSend));
}

#[test]
fn receipt_reports_whether_the_message_was_queued() {
    let ch = channel();
    let led = LedActor::new(ActorInbox(ch.sender()));
    let (result, receipt) = led.set_brightness(40);
    assert_eq!(result, Ok(()));
    assert!(receipt.was_accepted());
    assert!(matches!(ch.try_receive(), Ok(Message::SetBrightness(40))));
}

#[test]
fn error_messages_match_the_application_texts() {
    assert_eq!(AppError::LedActorSend.message(), "Failed to send message to LED actor");
    assert_eq!(AppError::ImuActorSend.message(), "Failed to send message to IMU actor");
    assert_eq!(AppError::AmbientI2cRead.message(), "Failed to read from Ambient Sensor");
    assert_eq!(
        AppError::InvalidReadTime(1500, 1000).message(),
        "Read time 1500ms must be less than max read time 1000ms"
    );
    assert_eq!(
        AppError::InvalidReadPeriod(0, 18446744073709551615).message(),
        "Read period 0ms must be greater than read time 18446744073709551615ms"
    );
    assert_eq!(
        AppError::LedWrite(LedFault::BufferSizeExceeded).message(),
        "Failed to write to LED: BufferSizeExceeded"
    );
    assert_eq!(
        AppError::LedWrite(LedFault::TransmissionError(RmtFault::EndMarkerMissing)).message(),
        "Failed to write to LED: TransmissionError(EndMarkerMissing)"
    );
}

#[test]
fn fault_text_is_its_debug_form() {
    let fault = LedFault::TransmissionError(RmtFault::Overflow);
    assert_eq!(fault.text(), format!("{:?}", fault));
    assert_eq!(LedFault::BufferSizeExceeded.text(), format!("{:?}", LedFault::BufferSizeExceeded));
}
