//! Properties of the actor that span messages, ticks and writes.

use crate::actor::{
    after_message, after_tick, after_write, clamp_percent, message_frame, percent_level, shown,
    tick_frame, timer_for, ActorView, Message, Repeat, SchedulerView,
};
use crate::colour::{gamma8, spec_render, Colour};
use vstd::prelude::*;

verus! {

/// One tick of the step timer whose pixel, if it has one, was written
/// without error.
pub open spec fn round(v: ActorView) -> ActorView {
    if tick_frame(v) is Some {
        after_write(after_tick(v))
    } else {
        after_tick(v)
    }
}

/// `k` rounds in a row.
pub open spec fn rounds(v: ActorView, k: nat) -> ActorView
    decreases k,
{
    if k == 0 {
        v
    } else {
        rounds(round(v), (k - 1) as nat)
    }
}

/// `v` with its sequence at playback position `index`.
pub open spec fn at_position(v: ActorView, index: nat) -> ActorView {
    match v.scheduler {
        Some(s) => ActorView { scheduler: Some(SchedulerView { index, ..s }), ..v },
        None => v,
    }
}

/// `v` with its sequence in repeat mode `repeat`.
pub open spec fn with_repeat(v: ActorView, repeat: Repeat) -> ActorView {
    match v.scheduler {
        Some(s) => ActorView { scheduler: Some(SchedulerView { repeat, ..s }), ..v },
        None => v,
    }
}

/// Every message but a new sequence cancels the scheduled sequence and
/// its timer.
pub proof fn law_message_cancels_sequence(v: ActorView, msg: Message)
    requires
        !(msg is SetSequence),
    ensures
        after_message(v, msg).scheduler is None,
        timer_for(after_message(v, msg)) is None,
{
}

/// A new sequence starts at its first colour, with a timer of its period,
/// and writes nothing yet.
pub proof fn law_sequence_starts_at_first_colour(
    v: ActorView,
    sequence: &'static [Colour],
    period: embassy_time::Duration,
    repeat: Repeat,
)
    ensures
        ({
            let w = after_message(v, Message::SetSequence((sequence, period, repeat)));
            &&& w.scheduler matches Some(s) && s.index == 0 && s.sequence == sequence@
                && s.repeat == repeat
            &&& timer_for(w) == Some(period)
            &&& w.colour == v.colour && w.brightness == v.brightness
        }),
        message_frame(v, Message::SetSequence((sequence, period, repeat))) is None,
{
}

/// At brightness 0 every colour is dark.
pub proof fn law_zero_brightness_is_dark(c: Colour)
    ensures
        spec_render(c, 0) == Colour::spec_black(),
{
}

/// The brightness is a percentage: 0 % is dark, 100 % is the full scale of
/// `smart_leds`.
pub proof fn law_brightness_is_a_percentage(c: Colour)
    ensures
        percent_level(0) == 0,
        percent_level(100) == 255,
        shown(c, 0) == Colour::spec_black(),
        shown(c, 100) == spec_render(c, 255),
        forall|p: u8, q: u8| p <= q <= 100 ==> percent_level(p) <= percent_level(q),
{
    law_zero_brightness_is_dark(c);
    assert forall|p: u8, q: u8| p <= q <= 100 implies percent_level(p) <= percent_level(q) by {
        assert(p as int * 255 <= q as int * 255);
    }
}

/// A requested brightness above 100 % is held at 100 %; within the range it
/// is kept as it is.
pub proof fn law_brightness_is_clamped(v: ActorView, level: u8)
    ensures
        after_message(v, Message::SetBrightness(level)).brightness == clamp_percent(level),
        after_message(v, Message::SetBrightness(level)).brightness <= 100,
        level <= 100 ==> after_message(v, Message::SetBrightness(level)).brightness == level,
{
}

/// `Off` writes a dark pixel and forgets neither colour nor brightness, so
/// `On` afterwards shows what the LED showed before.
pub proof fn law_on_after_off_restores(v: ActorView)
    ensures
        message_frame(v, Message::Off) == Some(Colour::spec_black()),
        after_message(v, Message::Off).colour == v.colour,
        after_message(v, Message::Off).brightness == v.brightness,
        message_frame(after_message(v, Message::Off), Message::On) == Some(
            shown(v.colour, v.brightness),
        ),
{
    law_zero_brightness_is_dark(Colour::spec_black());
}

/// A new colour is shown at the current brightness, and a new brightness
/// with the current colour; `On` shows the latest of both.
pub proof fn law_settings_are_remembered(v: ActorView, c: Colour, level: u8)
    ensures
        message_frame(v, Message::SetColour(c)) == Some(shown(c, v.brightness)),
        message_frame(after_message(v, Message::SetColour(c)), Message::On) == Some(
            shown(c, v.brightness),
        ),
        message_frame(after_message(v, Message::SetBrightness(level)), Message::On) == Some(
            shown(v.colour, clamp_percent(level)),
        ),
{
}

/// Ticks and writes change neither the colour nor the brightness.
pub proof fn law_ticks_keep_settings(v: ActorView)
    ensures
        after_tick(v).colour == v.colour,
        after_tick(v).brightness == v.brightness,
        after_write(v).colour == v.colour,
        after_write(v).brightness == v.brightness,
{
}

/// The brightness stays a percentage and the playback position stays
/// within the sequence through every message, tick and write.
pub proof fn law_state_stays_well_formed(v: ActorView, msg: Message)
    requires
        v.wf(),
    ensures
        after_message(v, msg).wf(),
        after_tick(v).wf(),
        after_write(v).wf(),
{
}

/// A pixel that was not written is tried again at the next tick.
pub proof fn law_unwritten_pixel_is_retried(v: ActorView)
    requires
        tick_frame(v) is Some,
    ensures
        after_tick(v) == v,
        tick_frame(after_tick(v)) == tick_frame(v),
        timer_for(after_tick(v)) == timer_for(v),
{
}

/// Inside the sequence each round writes the colour at the playback
/// position and moves on by one.
pub proof fn lemma_rounds_walk(v: ActorView, k: nat)
    requires
        v.scheduler is Some,
        v.scheduler.unwrap().index + k <= v.scheduler.unwrap().sequence.len(),
    ensures
        rounds(v, k) == at_position(v, v.scheduler.unwrap().index + k),
    decreases k,
{
    let s = v.scheduler.unwrap();
    if k == 0 {
        assert(at_position(v, s.index) == v);
    } else {
        let w = round(v);
        assert(w == at_position(v, s.index + 1));
        lemma_rounds_walk(w, (k - 1) as nat);
        assert(at_position(w, s.index + 1 + (k - 1) as nat) == at_position(v, s.index + k));
    }
}

/// A sequence started at its first colour writes its colours in order, one
/// per round, at the current brightness.
pub proof fn law_sequence_plays_in_order(v: ActorView, i: nat)
    requires
        v.scheduler matches Some(s) && s.index == 0 && i < s.sequence.len(),
    ensures
        tick_frame(rounds(v, i)) == Some(
            shown(v.scheduler.unwrap().sequence[i as int], v.brightness),
        ),
{
    lemma_rounds_walk(v, i);
}

/// A sequence in mode `Once`, started at its first colour and written
/// without error, ends after one round per colour and one more.
pub proof fn law_once_ends_after_sequence(v: ActorView)
    requires
        v.scheduler matches Some(s) && s.index == 0 && s.repeat == Repeat::Once,
    ensures
        forall|k: nat|
            k <= v.scheduler.unwrap().sequence.len() ==> (#[trigger] rounds(v, k)).scheduler is Some,
        rounds(v, v.scheduler.unwrap().sequence.len() + 1).scheduler is None,
        timer_for(rounds(v, v.scheduler.unwrap().sequence.len() + 1)) is None,
{
    let len = v.scheduler.unwrap().sequence.len();
    assert forall|k: nat| k <= len implies (#[trigger] rounds(v, k)).scheduler is Some by {
        lemma_rounds_walk(v, k);
    }
    lemma_rounds_walk(v, len);
    let e = rounds(v, len);
    assert(rounds(e, 1) == round(e)) by {
        assert(rounds(round(e), 0) == round(e));
    }
    lemma_rounds_split(v, len, 1);
}

/// Rounds compose.
pub proof fn lemma_rounds_split(v: ActorView, a: nat, b: nat)
    ensures
        rounds(v, a + b) == rounds(rounds(v, a), b),
    decreases a,
{
    if a > 0 {
        lemma_rounds_split(round(v), (a - 1) as nat, b);
        assert((a + b - 1) as nat == (a - 1) as nat + b);
    }
}

/// One pass in mode `N(n)` with `n > 0`: after one round per colour and
/// one more, the sequence starts again at its first colour with `n - 1`
/// runs left. In mode `N(0)` the same pass ends the sequence.
pub proof fn lemma_counted_pass(v: ActorView, n: u8)
    requires
        v.scheduler matches Some(s) && s.index == 0 && s.repeat == Repeat::N(n),
    ensures
        n > 0 ==> rounds(v, v.scheduler.unwrap().sequence.len() + 1) == with_repeat(
            v,
            Repeat::N((n - 1) as u8),
        ),
        n == 0 ==> rounds(v, v.scheduler.unwrap().sequence.len() + 1).scheduler is None,
{
    let len = v.scheduler.unwrap().sequence.len();
    lemma_rounds_walk(v, len);
    lemma_rounds_split(v, len, 1);
    let e = rounds(v, len);
    assert(rounds(e, 1) == round(e)) by {
        assert(rounds(round(e), 0) == round(e));
    }
    if n > 0 {
        assert(round(e) == with_repeat(v, Repeat::N((n - 1) as u8)));
    }
}

/// A sequence in mode `N(n)`, started at its first colour and written
/// without error, is run `n + 1` times: after each pass of one round per
/// colour and one more it starts again at its first colour with one run
/// fewer left, and after the last pass it ends.
pub proof fn law_counted_runs_again(v: ActorView, n: u8, j: nat)
    requires
        v.scheduler matches Some(s) && s.index == 0 && s.repeat == Repeat::N(n),
        j <= n,
    ensures
        rounds(v, j * (v.scheduler.unwrap().sequence.len() + 1)) == with_repeat(
            v,
            Repeat::N((n - j) as u8),
        ),
        rounds(v, (n as nat + 1) * (v.scheduler.unwrap().sequence.len() + 1)).scheduler is None,
    decreases n,
{
    let len = v.scheduler.unwrap().sequence.len();
    let pass = len + 1;
    if n == 0 {
        assert(j * pass == 0);
        assert(with_repeat(v, Repeat::N(0)) == v);
        assert((n as nat + 1) * pass == pass);
        lemma_counted_pass(v, n);
    } else {
        lemma_counted_pass(v, n);
        let w = with_repeat(v, Repeat::N((n - 1) as u8));
        assert((n as nat + 1) * pass == pass + n as nat * pass) by (nonlinear_arith);
        lemma_rounds_split(v, pass, n as nat * pass);
        law_counted_runs_again(w, (n - 1) as u8, 0);
        assert(w.scheduler.unwrap().sequence.len() == len);
        assert(((n - 1) as u8 as nat + 1) * pass == n as nat * pass);
        if j == 0 {
            assert(j * pass == 0);
            assert(with_repeat(v, Repeat::N(n)) == v);
        } else {
            law_counted_runs_again(w, (n - 1) as u8, (j - 1) as nat);
            assert(j * pass == pass + (j - 1) * pass) by (nonlinear_arith)
                requires
                    j >= 1,
            ;
            lemma_rounds_split(v, pass, ((j - 1) * pass) as nat);
            assert(with_repeat(w, Repeat::N(((n - 1) as u8 - (j - 1)) as u8)) == with_repeat(
                v,
                Repeat::N((n - j) as u8),
            ));
        }
    }
}

/// A sequence in mode `Forever`, started at its first colour and written
/// without error, is back where it started after one round per colour and
/// one more: it never ends.
pub proof fn law_forever_restarts(v: ActorView)
    requires
        v.scheduler matches Some(s) && s.index == 0 && s.repeat == Repeat::Forever,
    ensures
        rounds(v, v.scheduler.unwrap().sequence.len() + 1) == v,
        forall|k: nat|
            k <= v.scheduler.unwrap().sequence.len() ==> (#[trigger] rounds(v, k)).scheduler is Some,
{
    let len = v.scheduler.unwrap().sequence.len();
    assert forall|k: nat| k <= len implies (#[trigger] rounds(v, k)).scheduler is Some by {
        lemma_rounds_walk(v, k);
    }
    lemma_rounds_walk(v, len);
    lemma_rounds_split(v, len, 1);
    let e = rounds(v, len);
    assert(rounds(e, 1) == round(e)) by {
        assert(rounds(round(e), 0) == round(e));
    }
    assert(round(e) == v);
}

/// Two states that differ only in that one runs its sequence in mode
/// `Once` and the other in mode `N(0)`.
pub open spec fn once_and_n_zero(a: ActorView, b: ActorView) -> bool {
    ||| a.scheduler is None && a == b
    ||| a.scheduler matches Some(s) && s.repeat == Repeat::Once && b == with_repeat(
        a,
        Repeat::N(0),
    )
}

/// `Once` and `N(0)` behave alike: at every tick and every write, whether or
/// not the write succeeds, they write the same pixels, arm the same timer
/// and stay alike.
pub proof fn law_once_is_n_zero(a: ActorView, b: ActorView)
    requires
        once_and_n_zero(a, b),
    ensures
        tick_frame(a) == tick_frame(b),
        timer_for(a) == timer_for(b),
        once_and_n_zero(after_tick(a), after_tick(b)),
        once_and_n_zero(after_write(a), after_write(b)),
{
    if a.scheduler is Some {
        let s = a.scheduler.unwrap();
        if s.index < s.sequence.len() {
            assert(after_write(b) == with_repeat(after_write(a), Repeat::N(0)));
        } else {
            assert(after_tick(a) == after_tick(b));
        }
    }
}

/// `Once` and `N(0)` stay alike over any number of rounds.
pub proof fn law_once_is_n_zero_in_rounds(a: ActorView, b: ActorView, k: nat)
    requires
        once_and_n_zero(a, b),
    ensures
        once_and_n_zero(rounds(a, k), rounds(b, k)),
        tick_frame(rounds(a, k)) == tick_frame(rounds(b, k)),
        timer_for(rounds(a, k)) == timer_for(rounds(b, k)),
    decreases k,
{
    law_once_is_n_zero(a, b);
    if k > 0 {
        law_once_is_n_zero(after_tick(a), after_tick(b));
        assert(once_and_n_zero(round(a), round(b)));
        law_once_is_n_zero_in_rounds(round(a), round(b), (k - 1) as nat);
    }
    law_once_is_n_zero(rounds(a, k), rounds(b, k));
}

/// The pixel for a colour at a level: each channel goes through the gamma
/// table and is then scaled by `(level + 1) / 256`.
pub proof fn law_render_scales_each_channel(c: Colour, level: u8)
    ensures
        spec_render(c, level).r as int == gamma8(c.r) as int * (level as int + 1) / 256,
        spec_render(c, level).g as int == gamma8(c.g) as int * (level as int + 1) / 256,
        spec_render(c, level).b as int == gamma8(c.b) as int * (level as int + 1) / 256,
{
    assert(gamma8(c.r) as int * (level as int + 1) / 256 <= 255) by (nonlinear_arith);
    assert(gamma8(c.g) as int * (level as int + 1) / 256 <= 255) by (nonlinear_arith);
    assert(gamma8(c.b) as int * (level as int + 1) / 256 <= 255) by (nonlinear_arith);
}

/// The level handed to `smart_leds` is proportional to the brightness
/// percentage: `p` percent of 255, rounded down.
pub proof fn law_level_is_proportional(p: u8)
    requires
        p <= 100,
    ensures
        percent_level(p) as int == p as int * 255 / 100,
{
}

/// `SetColour(c)` remembers `c` at every brightness, keeps the brightness,
/// cancels the sequence and shows `c` at the brightness's share of 255.
pub proof fn law_set_colour_effect(v: ActorView, c: Colour)
    ensures
        after_message(v, Message::SetColour(c)).colour == c,
        after_message(v, Message::SetColour(c)).brightness == v.brightness,
        after_message(v, Message::SetColour(c)).scheduler is None,
        message_frame(v, Message::SetColour(c)) == Some(
            spec_render(c, (v.brightness as int * 255 / 100) as u8),
        ),
{
}

/// `SetBrightness(level)` stores the level held to at most 100, keeps the
/// colour, cancels the sequence and shows the colour at the new level.
pub proof fn law_set_brightness_effect(v: ActorView, level: u8)
    ensures
        ({
            let p: u8 = if level <= 100 {
                level
            } else {
                100
            };
            &&& after_message(v, Message::SetBrightness(level)).brightness == p
            &&& after_message(v, Message::SetBrightness(level)).colour == v.colour
            &&& after_message(v, Message::SetBrightness(level)).scheduler is None
            &&& message_frame(v, Message::SetBrightness(level)) == Some(
                spec_render(v.colour, (p as int * 255 / 100) as u8),
            )
        }),
{
}

/// `On` shows the remembered colour at the remembered brightness and
/// changes neither; it cancels the sequence.
pub proof fn law_on_effect(v: ActorView)
    ensures
        after_message(v, Message::On).colour == v.colour,
        after_message(v, Message::On).brightness == v.brightness,
        after_message(v, Message::On).scheduler is None,
        message_frame(v, Message::On) == Some(
            spec_render(v.colour, (v.brightness as int * 255 / 100) as u8),
        ),
        message_frame(after_message(v, Message::On), Message::On) == message_frame(
            v,
            Message::On,
        ),
{
}

/// `Off` writes a dark pixel and changes neither colour nor brightness; it
/// cancels the sequence.
pub proof fn law_off_effect(v: ActorView)
    ensures
        after_message(v, Message::Off).colour == v.colour,
        after_message(v, Message::Off).brightness == v.brightness,
        after_message(v, Message::Off).scheduler is None,
        message_frame(v, Message::Off) == Some((Colour { r: 0, g: 0, b: 0 })),
{
    law_zero_brightness_is_dark(Colour::spec_black());
}

/// A tick inside the sequence shows the colour at the playback position at
/// the brightness's share of 255, keeps the state until the write, and a
/// write moves the position on by one and changes nothing else.
pub proof fn law_tick_inside_sequence(v: ActorView)
    requires
        v.scheduler matches Some(s) && s.index < s.sequence.len(),
    ensures
        ({
            let s = v.scheduler.unwrap();
            &&& tick_frame(v) == Some(
                spec_render(s.sequence[s.index as int], (v.brightness as int * 255 / 100) as u8),
            )
            &&& after_tick(v) == v
            &&& timer_for(v) == Some(s.period)
            &&& after_write(v).colour == v.colour
            &&& after_write(v).brightness == v.brightness
            &&& after_write(v).scheduler matches Some(t) && t.index == s.index + 1 && t.sequence
                == s.sequence && t.period == s.period && t.repeat == s.repeat
        }),
{
}

/// A tick at the end of the sequence writes nothing; `Once` and `N(0)` end
/// the sequence, `N(n)` with `n > 0` starts it again at the first colour
/// with `N(n - 1)`, `Forever` starts it again at the first colour.
pub proof fn law_tick_at_end_of_sequence(v: ActorView)
    requires
        v.scheduler matches Some(s) && s.index >= s.sequence.len(),
    ensures
        ({
            let s = v.scheduler.unwrap();
            let w = after_tick(v);
            &&& tick_frame(v) is None
            &&& w.colour == v.colour && w.brightness == v.brightness
            &&& (s.repeat == Repeat::Once || s.repeat == Repeat::N(0)) ==> w.scheduler is None
            &&& (s.repeat matches Repeat::N(n) && n > 0) ==> (w.scheduler matches Some(t)
                && t.index == 0 && t.repeat == Repeat::N((s.repeat->N_0 - 1) as u8)
                && t.sequence == s.sequence && t.period == s.period)
            &&& s.repeat == Repeat::Forever ==> (w.scheduler matches Some(t) && t.index == 0
                && t.repeat == Repeat::Forever && t.sequence == s.sequence && t.period
                == s.period)
        }),
{
}

} // verus!
