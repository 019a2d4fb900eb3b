use embassy_time::Duration;
use led_actor::actor::{Actor, Message, Repeat, Step};
use led_actor::colour::{render, Colour};

fn rgb(r: u8, g: u8, b: u8) -> Colour {
    Colour { r, g, b }
}

fn leak(colours: Vec<Colour>) -> &'static [Colour] {
    Box::leak(colours.into_boxed_slice())
}

fn primaries() -> &'static [Colour] {
    leak(vec![rgb(255, 0, 0), rgb(0, 255, 0), rgb(0, 0, 255)])
}

fn frame(step: Step) -> Option<Colour> {
    step.frame
}

#[test]
fn render_applies_gamma_then_brightness() {
    assert_eq!(render(rgb(255, 128, 0), 50), rgb(50, 7, 0));
    assert_eq!(render(rgb(255, 255, 255), 255), rgb(255, 255, 255));
    assert_eq!(render(rgb(200, 100, 50), 127), rgb(64, 9, 1));
}

#[test]
fn render_at_zero_brightness_is_dark() {
    assert_eq!(render(rgb(255, 255, 255), 0), Colour::black());
    assert_eq!(render(rgb(17, 200, 99), 0), Colour::black());
}

#[test]
fn new_actor_is_black_at_half_brightness() {
    let mut actor = Actor::new();
    let step = actor.act(Message::On);
    assert_eq!(step.frame, Some(render(Colour::black(), 127)));
    assert_eq!(step.frame, Some(Colour::black()));
    assert_eq!(step.timer, None);
}

#[test]
fn set_colour_writes_at_current_brightness() {
    let mut actor = Actor::new();
    let step = actor.act(Message::SetColour(rgb(255, 0, 0)));
    assert_eq!(step.frame, Some(render(rgb(255, 0, 0), 127)));
    assert_eq!(step.frame, Some(rgb(127, 0, 0)));
    assert_eq!(step.timer, None);
}

#[test]
fn set_brightness_writes_current_colour() {
    let mut actor = Actor::new();
    actor.act(Message::SetColour(rgb(255, 255, 255)));
    let step = actor.act(Message::SetBrightness(100));
    assert_eq!(step.frame, Some(rgb(255, 255, 255)));
}

#[test]
fn brightness_is_a_percentage() {
    let mut actor = Actor::new();
    actor.act(Message::SetColour(rgb(255, 255, 255)));
    assert_eq!(actor.act(Message::SetBrightness(0)).frame, Some(Colour::black()));
    assert_eq!(actor.act(Message::SetBrightness(50)).frame, Some(render(rgb(255, 255, 255), 127)));
    assert_eq!(actor.act(Message::SetBrightness(100)).frame, Some(rgb(255, 255, 255)));
}

#[test]
fn brightness_above_100_is_held_at_100() {
    let mut actor = Actor::new();
    actor.act(Message::SetColour(rgb(255, 0, 0)));
    let step = actor.act(Message::SetBrightness(200));
    assert_eq!(step.frame, Some(rgb(255, 0, 0)));
    assert_eq!(actor.act(Message::On).frame, Some(rgb(255, 0, 0)));
    assert_eq!(actor.act(Message::SetBrightness(255)).frame, actor.act(Message::SetBrightness(100)).frame);
}

#[test]
fn off_is_dark_and_on_restores() {
    let mut actor = Actor::new();
    actor.act(Message::SetColour(rgb(255, 128, 0)));
    let off = actor.act(Message::Off);
    assert_eq!(off.frame, Some(Colour::black()));
    let on = actor.act(Message::On);
    assert_eq!(on.frame, Some(rgb(127, 18, 0)));
}

#[test]
fn sequence_starts_without_writing_and_arms_timer() {
    let mut actor = Actor::new();
    let step = actor.act(Message::SetSequence((primaries(), Duration::from_millis(200), Repeat::Once)));
    assert_eq!(step.frame, None);
    assert_eq!(step.timer, Some(Duration::from_millis(200)));
}

#[test]
fn sequence_plays_colours_in_order() {
    let mut actor = Actor::new();
    actor.act(Message::SetSequence((primaries(), Duration::from_millis(10), Repeat::Once)));
    let mut seen = Vec::new();
    for _ in 0..3 {
        let step = actor.next();
        assert_eq!(step.timer, Some(Duration::from_millis(10)));
        seen.push(frame(step).unwrap());
        actor.advance();
    }
    assert_eq!(seen, vec![rgb(127, 0, 0), rgb(0, 127, 0), rgb(0, 0, 127)]);
}

#[test]
fn once_ends_after_the_sequence() {
    let mut actor = Actor::new();
    actor.act(Message::SetSequence((primaries(), Duration::from_millis(10), Repeat::Once)));
    for _ in 0..3 {
        assert!(actor.next().frame.is_some());
        actor.advance();
    }
    let end = actor.next();
    assert_eq!(end.frame, None);
    assert_eq!(end.timer, None);
    let idle = actor.next();
    assert_eq!(idle.frame, None);
    assert_eq!(idle.timer, None);
}

#[test]
fn counted_repeat_runs_the_sequence_again() {
    let mut actor = Actor::new();
    actor.act(Message::SetSequence((primaries(), Duration::from_millis(10), Repeat::N(2))));
    let mut seen = Vec::new();
    for _ in 0..3 {
        for _ in 0..3 {
            let step = actor.next();
            assert_eq!(step.timer, Some(Duration::from_millis(10)));
            seen.push(step.frame.unwrap());
            actor.advance();
        }
        let end = actor.next();
        assert_eq!(end.frame, None);
        if seen.len() < 9 {
            assert_eq!(end.timer, Some(Duration::from_millis(10)));
        } else {
            assert_eq!(end.timer, None);
        }
    }
    let pass = vec![rgb(127, 0, 0), rgb(0, 127, 0), rgb(0, 0, 127)];
    assert_eq!(seen, [pass.clone(), pass.clone(), pass].concat());
    let idle = actor.next();
    assert_eq!(idle.frame, None);
    assert_eq!(idle.timer, None);
}

#[test]
fn n_zero_behaves_like_once() {
    let mut actor = Actor::new();
    actor.act(Message::SetSequence((leak(vec![rgb(1, 2, 3)]), Duration::from_millis(5), Repeat::N(0))));
    assert!(actor.next().frame.is_some());
    actor.advance();
    let end = actor.next();
    assert_eq!(end.timer, None);
}

#[test]
fn forever_restarts_from_the_first_colour() {
    let mut actor = Actor::new();
    actor.act(Message::SetSequence((primaries(), Duration::from_millis(10), Repeat::Forever)));
    for _ in 0..3 {
        assert!(actor.next().frame.is_some());
        actor.advance();
    }
    let wrap = actor.next();
    assert_eq!(wrap.frame, None);
    assert_eq!(wrap.timer, Some(Duration::from_millis(10)));
    let again = actor.next();
    assert_eq!(again.frame, Some(rgb(127, 0, 0)));
}

#[test]
fn unwritten_pixel_is_retried() {
    let mut actor = Actor::new();
    actor.act(Message::SetSequence((primaries(), Duration::from_millis(10), Repeat::Once)));
    let first = actor.next();
    let retry = actor.next();
    assert_eq!(first.frame, Some(rgb(127, 0, 0)));
    assert_eq!(retry.frame, first.frame);
}

#[test]
fn message_cancels_sequence() {
    let mut actor = Actor::new();
    actor.act(Message::SetSequence((primaries(), Duration::from_millis(10), Repeat::Forever)));
    let step = actor.act(Message::SetColour(rgb(0, 0, 255)));
    assert_eq!(step.timer, None);
    let tick = actor.next();
    assert_eq!(tick.frame, None);
    assert_eq!(tick.timer, None);
}

#[test]
fn sequence_uses_brightness_at_tick_time() {
    let mut actor = Actor::new();
    actor.act(Message::SetBrightness(100));
    actor.act(Message::SetSequence((primaries(), Duration::from_millis(10), Repeat::Once)));
    assert_eq!(actor.next().frame, Some(rgb(255, 0, 0)));
}

#[test]
fn empty_sequence_ends_at_first_tick() {
    let mut actor = Actor::new();
    actor.act(Message::SetSequence((leak(vec![]), Duration::from_millis(10), Repeat::Once)));
    let step = actor.next();
    assert_eq!(step.frame, None);
    assert_eq!(step.timer, None);
}

#[test]
fn advance_without_sequence_does_nothing() {
    let mut actor = Actor::new();
    actor.advance();
    let step = actor.next();
    assert_eq!(step.frame, None);
    assert_eq!(step.timer, None);
}

#[test]
fn black_stays_black_at_every_brightness() {
    for level in [0u8, 1, 50, 128, 255] {
        assert_eq!(render(Colour::black(), level), Colour::black());
    }
}

#[test]
fn ticks_keep_colour_and_brightness() {
    let mut actor = Actor::new();
    actor.act(Message::SetColour(rgb(255, 128, 0)));
    actor.act(Message::SetSequence((primaries(), Duration::from_millis(10), Repeat::Once)));
    for _ in 0..4 {
        if actor.next().frame.is_some() {
            actor.advance();
        }
    }
    assert_eq!(actor.act(Message::On).frame, Some(rgb(127, 18, 0)));
}

#[test]
fn once_and_n_zero_write_the_same() {
    let mut once = Actor::new();
    let mut zero = Actor::new();
    once.act(Message::SetSequence((primaries(), Duration::from_millis(10), Repeat::Once)));
    zero.act(Message::SetSequence((primaries(), Duration::from_millis(10), Repeat::N(0))));
    for round in 0..6 {
        let a = once.next();
        let b = zero.next();
        assert_eq!(a.frame, b.frame);
        assert_eq!(a.timer, b.timer);
        if round != 1 && a.frame.is_some() {
            once.advance();
            zero.advance();
        }
    }
}
