//! The LED actor's state and its decisions: what a message does, what a
//! timer tick does, and which pixel goes to the LED at each of them.
//!
//! The actor itself does no I/O. Each decision returns a [`Step`]: the pixel
//! to write, if any, and the timer to arm, if any. Whoever runs the actor
//! performs the step; after a tick whose pixel was written without error it
//! calls [`Actor::advance`].

use crate::colour::{render, spec_render, Colour};
use embassy_time::Duration;
use vstd::prelude::*;

verus! {

#[verifier::external_type_specification]
#[verifier::external_body]
pub struct ExDuration(Duration);

/// The actor's repeat mode.
#[derive(Clone, Copy, Debug, PartialEq, Eq, Structural)]
pub enum Repeat {
    /// Run the sequence once
    Once,
    /// Run the sequence a fixed number of times: once, and then again
    /// while runs are left, one fewer after each run
    N(u8),
    /// Run the sequence forever
    Forever,
}

/// The actor's message type, communicating the finite states of the actor.
#[derive(Clone, Copy, Debug)]
pub enum Message {
    /// Set the colour of the LED
    SetColour(Colour),
    /// Set the brightness of the LED
    SetBrightness(u8),
    /// Turn the LED off
    Off,
    /// Turn the LED on
    On,
    /// Set the LED to a sequence of colours, one per period
    SetSequence((&'static [Colour], Duration, Repeat)),
}

/// A scheduler to run a sequence of colours.
#[derive(Clone, Copy)]
struct Scheduler {
    /// The period between actions
    period: Duration,
    /// The current sequence of colours
    sequence: &'static [Colour],
    /// The current index in the sequence
    index: usize,
    /// The current repeat mode
    repeat: Repeat,
}

/// The actor's private state: the scheduled sequence, if any, and the
/// colour and brightness that the LED shows when it is on. The brightness
/// is a percentage from 0 to 100.
pub struct Actor {
    scheduler: Option<Scheduler>,
    colour: Colour,
    brightness: u8,
}

/// What the runner of the actor is to do after a decision.
#[derive(Clone, Copy, Debug)]
pub struct Step {
    /// The pixel to write to the LED, if any.
    pub frame: Option<Colour>,
    /// `Some(period)`: (re)arm the step timer to fire after `period`;
    /// `None`: no timer is pending.
    pub timer: Option<Duration>,
}

/// The abstract state of a scheduled sequence.
pub struct SchedulerView {
    pub period: Duration,
    pub sequence: Seq<Colour>,
    pub index: nat,
    pub repeat: Repeat,
}

/// The abstract state of the actor.
pub struct ActorView {
    pub scheduler: Option<SchedulerView>,
    pub colour: Colour,
    pub brightness: u8,
}

impl ActorView {
    /// The brightness is a percentage, and the playback position never
    /// passes the end of the sequence.
    pub open spec fn wf(self) -> bool {
        &&& self.brightness <= 100
        &&& match self.scheduler {
            Some(s) => s.index <= s.sequence.len(),
            None => true,
        }
    }
}

/// The highest brightness, in percent.
pub const FULL_BRIGHTNESS: u8 = 100;

/// A requested brightness held to the percentage range: above 100 is 100.
pub open spec fn clamp_percent(level: u8) -> u8 {
    if level <= 100 {
        level
    } else {
        100
    }
}

/// A brightness percentage on the 0 to 255 scale of `smart_leds`:
/// 0 % is 0 and 100 % is 255.
pub open spec fn percent_level(percent: u8) -> u8 {
    (percent as int * 255 / 100) as u8
}

/// A requested brightness held to the percentage range.
pub fn clamp_brightness(level: u8) -> (percent: u8)
    ensures
        percent == clamp_percent(level),
{
    if level <= FULL_BRIGHTNESS {
        level
    } else {
        FULL_BRIGHTNESS
    }
}

/// A brightness percentage on the 0 to 255 scale of `smart_leds`.
pub fn level_of_percent(percent: u8) -> (level: u8)
    requires
        percent <= 100,
    ensures
        level == percent_level(percent),
        level as int == percent as int * 255 / 100,
{
    let scaled: u16 = percent as u16 * 255 / 100;
    scaled as u8
}

/// The pixel for a colour at a brightness percentage.
pub open spec fn shown(colour: Colour, percent: u8) -> Colour {
    spec_render(colour, percent_level(percent))
}

impl Scheduler {
    closed spec fn view(&self) -> SchedulerView {
        SchedulerView {
            period: self.period,
            sequence: self.sequence@,
            index: self.index as nat,
            repeat: self.repeat,
        }
    }
}

impl View for Actor {
    type V = ActorView;

    closed spec fn view(&self) -> ActorView {
        ActorView {
            scheduler: match self.scheduler {
                Some(s) => Some(s.view()),
                None => None,
            },
            colour: self.colour,
            brightness: self.brightness,
        }
    }
}

/// The timer that is pending in a state: one per scheduled sequence.
pub open spec fn timer_for(v: ActorView) -> Option<Duration> {
    match v.scheduler {
        Some(s) => Some(s.period),
        None => None,
    }
}

/// The state after a message.
pub open spec fn after_message(v: ActorView, msg: Message) -> ActorView {
    match msg {
        Message::SetColour(c) => ActorView { scheduler: None, colour: c, ..v },
        Message::SetBrightness(level) => ActorView {
            scheduler: None,
            brightness: clamp_percent(level),
            ..v
        },
        Message::Off => ActorView { scheduler: None, ..v },
        Message::On => ActorView { scheduler: None, ..v },
        Message::SetSequence((sequence, period, repeat)) => ActorView {
            scheduler: Some(SchedulerView { period, sequence: sequence@, index: 0, repeat }),
            ..v
        },
    }
}

/// The pixel written for a message.
pub open spec fn message_frame(v: ActorView, msg: Message) -> Option<Colour> {
    match msg {
        Message::SetColour(c) => Some(shown(c, v.brightness)),
        Message::SetBrightness(level) => Some(shown(v.colour, clamp_percent(level))),
        Message::Off => Some(shown(Colour::spec_black(), 0)),
        Message::On => Some(shown(v.colour, v.brightness)),
        Message::SetSequence(_) => None,
    }
}

/// The pixel written at a timer tick: the colour at the playback position,
/// if the position is inside the sequence.
pub open spec fn tick_frame(v: ActorView) -> Option<Colour> {
    match v.scheduler {
        Some(s) => if s.index < s.sequence.len() {
            Some(shown(s.sequence[s.index as int], v.brightness))
        } else {
            None
        },
        None => None,
    }
}

/// The state after a timer tick. Inside the sequence nothing changes until
/// the pixel has been written; at its end the repeat mode decides: `Once`
/// and `N(0)` end the sequence, `N(n)` starts it again with `n - 1` runs
/// left, `Forever` starts it again.
pub open spec fn after_tick(v: ActorView) -> ActorView {
    match v.scheduler {
        Some(s) => if s.index < s.sequence.len() {
            v
        } else {
            match s.repeat {
                Repeat::Once => ActorView { scheduler: None, ..v },
                Repeat::N(n) => if n == 0 {
                    ActorView { scheduler: None, ..v }
                } else {
                    ActorView {
                        scheduler: Some(
                            SchedulerView { index: 0, repeat: Repeat::N((n - 1) as u8), ..s },
                        ),
                        ..v
                    }
                },
                Repeat::Forever => ActorView {
                    scheduler: Some(SchedulerView { index: 0, ..s }),
                    ..v
                },
            }
        },
        None => v,
    }
}

/// The state after the pixel of a tick was written: the playback position
/// moves to the next colour.
pub open spec fn after_write(v: ActorView) -> ActorView {
    match v.scheduler {
        Some(s) => if s.index < s.sequence.len() {
            ActorView { scheduler: Some(SchedulerView { index: s.index + 1, ..s }), ..v }
        } else {
            v
        },
        None => v,
    }
}

impl Actor {
    #[verifier::type_invariant]
    spec fn inv(self) -> bool {
        self@.wf()
    }

    /// A new actor: no sequence, colour black, brightness 50 %.
    pub fn new() -> (actor: Actor)
        ensures
            actor@ == (ActorView { scheduler: None, colour: Colour::spec_black(), brightness: 50 }),
    {
        Actor { scheduler: None, colour: Colour::black(), brightness: 50 }
    }

    /// The message handler. Any scheduled sequence is cancelled first.
    pub fn act(&mut self, msg: Message) -> (step: Step)
        ensures
            final(self)@ == after_message(old(self)@, msg),
            step.frame == message_frame(old(self)@, msg),
            step.timer == timer_for(final(self)@),
            final(self)@.wf(),
    {
        proof {
            use_type_invariant(&*self);
        }
        self.scheduler = None;
        match msg {
            Message::SetColour(colour) => {
                self.colour = colour;
                let level = level_of_percent(self.brightness);
                Step { frame: Some(render(colour, level)), timer: None }
            },
            Message::SetBrightness(level) => {
                let percent = clamp_brightness(level);
                self.brightness = percent;
                Step { frame: Some(render(self.colour, level_of_percent(percent))), timer: None }
            },
            Message::Off => Step { frame: Some(render(Colour::black(), 0)), timer: None },
            Message::On => {
                let level = level_of_percent(self.brightness);
                Step { frame: Some(render(self.colour, level)), timer: None }
            },
            Message::SetSequence((sequence, period, repeat)) => {
                self.scheduler = Some(Scheduler { period, sequence, index: 0, repeat });
                Step { frame: None, timer: Some(period) }
            },
        }
    }

    /// Run the next scheduled action: the decision at a timer tick.
    pub fn next(&mut self) -> (step: Step)
        ensures
            final(self)@ == after_tick(old(self)@),
            step.frame == tick_frame(old(self)@),
            step.timer == timer_for(final(self)@),
            final(self)@.wf(),
    {
        proof {
            use_type_invariant(&*self);
        }
        match self.scheduler {
            None => Step { frame: None, timer: None },
            Some(s) => {
                if s.index < s.sequence.len() {
                    let colour = s.sequence[s.index];
                    let level = level_of_percent(self.brightness);
                    Step { frame: Some(render(colour, level)), timer: Some(s.period) }
                } else {
                    match s.repeat {
                        Repeat::Once => {
                            self.scheduler = None;
                            Step { frame: None, timer: None }
                        },
                        Repeat::N(n) => {
                            if n == 0 {
                                self.scheduler = None;
                                Step { frame: None, timer: None }
                            } else {
                                self.scheduler = Some(
                                    Scheduler { index: 0, repeat: Repeat::N(n - 1), ..s },
                                );
                                Step { frame: None, timer: Some(s.period) }
                            }
                        },
                        Repeat::Forever => {
                            self.scheduler = Some(Scheduler { index: 0, ..s });
                            Step { frame: None, timer: Some(s.period) }
                        },
                    }
                }
            },
        }
    }

    /// Record that the pixel of the last tick was written: move the
    /// playback position to the next colour.
    pub fn advance(&mut self)
        ensures
            final(self)@ == after_write(old(self)@),
            final(self)@.wf(),
    {
        proof {
            use_type_invariant(&*self);
        }
        match self.scheduler {
            Some(s) => {
                if s.index < s.sequence.len() {
                    self.scheduler = Some(Scheduler { index: s.index + 1, ..s });
                }
            },
            None => {},
        }
    }
}

} // verus!
