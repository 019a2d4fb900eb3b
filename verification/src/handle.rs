//! The handle through which other tasks talk to the LED actor, and the
//! application's error type.

use crate::actor::{Message, Repeat};
use crate::colour::Colour;
use crate::inbox::{post, ActorInbox, Posted};
use embassy_time::Duration;
use vstd::prelude::*;

verus! {

/// What went wrong in an RMT transmission.
#[derive(Clone, Copy, Debug, PartialEq, Eq, Structural)]
pub enum RmtFault {
    /// The amount of pulses exceeds the size of the FIFO
    Overflow,
    /// An argument is invalid
    InvalidArgument,
    /// An error occurred during transmission
    TransmissionError,
    /// No transmission end marker found
    EndMarkerMissing,
    /// The data length is invalid
    InvalidDataLength,
    /// Receiver error most likely RMT memory overflow
    ReceiverError,
}

/// Why writing to the LED failed.
#[derive(Clone, Copy, Debug, PartialEq, Eq, Structural)]
pub enum LedFault {
    /// The adapter's buffer is too small for the data.
    BufferSizeExceeded,
    /// The RMT transmission failed.
    TransmissionError(RmtFault),
}

/// The application's errors.
#[derive(Clone, Copy, Debug, PartialEq, Eq, Structural)]
pub enum AppError {
    /// Failed to write to LED
    LedWrite(LedFault),
    /// Failed to send message to LED actor
    LedActorSend,
    /// Failed to send message to IMU actor
    ImuActorSend,
    /// Read time (first, ms) must be less than max read time (second, ms)
    InvalidReadTime(u64, u64),
    /// Read period (first, ms) must be greater than read time (second, ms)
    InvalidReadPeriod(u64, u64),
    /// Failed to read from Ambient Sensor
    AmbientI2cRead,
}

/// The character of a decimal digit.
pub open spec fn digit_char(d: nat) -> char {
    (48 + d) as char
}

/// A number written in decimal, without leading zeros.
pub open spec fn decimal(n: nat) -> Seq<char>
    decreases n,
{
    if n < 10 {
        seq![digit_char(n)]
    } else {
        decimal(n / 10).push(digit_char(n % 10))
    }
}

/// Calls `ToString::to_string` on a `u64`, whose `Display` writes the number
/// in decimal without leading zeros.
#[verifier::external_body]
fn decimal_text(n: u64) -> (text: String)
    ensures
        text@ == decimal(n as nat),
{
    n.to_string()
}

impl RmtFault {
    /// The variant's name, as `Debug` writes it.
    pub open spec fn spec_name(self) -> Seq<char> {
        match self {
            RmtFault::Overflow => "Overflow"@,
            RmtFault::InvalidArgument => "InvalidArgument"@,
            RmtFault::TransmissionError => "TransmissionError"@,
            RmtFault::EndMarkerMissing => "EndMarkerMissing"@,
            RmtFault::InvalidDataLength => "InvalidDataLength"@,
            RmtFault::ReceiverError => "ReceiverError"@,
        }
    }

    /// The variant's name, as `Debug` writes it.
    pub fn name(&self) -> (text: &'static str)
        ensures
            text@ == self.spec_name(),
    {
        match self {
            RmtFault::Overflow => "Overflow",
            RmtFault::InvalidArgument => "InvalidArgument",
            RmtFault::TransmissionError => "TransmissionError",
            RmtFault::EndMarkerMissing => "EndMarkerMissing",
            RmtFault::InvalidDataLength => "InvalidDataLength",
            RmtFault::ReceiverError => "ReceiverError",
        }
    }
}

impl LedFault {
    /// The fault as `Debug` writes it.
    pub open spec fn spec_text(self) -> Seq<char> {
        match self {
            LedFault::BufferSizeExceeded => "BufferSizeExceeded"@,
            LedFault::TransmissionError(e) => "TransmissionError("@ + e.spec_name() + ")"@,
        }
    }

    /// The fault as `Debug` writes it.
    pub fn text(&self) -> (text: String)
        ensures
            text@ == self.spec_text(),
    {
        match self {
            LedFault::BufferSizeExceeded => String::from_str("BufferSizeExceeded"),
            LedFault::TransmissionError(e) => {
                let mut text = String::from_str("TransmissionError(");
                text.append(e.name());
                text.append(")");
                text
            },
        }
    }
}

impl AppError {
    /// The error's message.
    pub open spec fn spec_message(self) -> Seq<char> {
        match self {
            AppError::LedWrite(f) => "Failed to write to LED: "@ + f.spec_text(),
            AppError::LedActorSend => "Failed to send message to LED actor"@,
            AppError::ImuActorSend => "Failed to send message to IMU actor"@,
            AppError::InvalidReadTime(time, max) => "Read time "@ + decimal(time as nat)
                + "ms must be less than max read time "@ + decimal(max as nat) + "ms"@,
            AppError::InvalidReadPeriod(period, time) => "Read period "@ + decimal(period as nat)
                + "ms must be greater than read time "@ + decimal(time as nat) + "ms"@,
            AppError::AmbientI2cRead => "Failed to read from Ambient Sensor"@,
        }
    }

    /// The error's message.
    pub fn message(&self) -> (text: String)
        ensures
            text@ == self.spec_message(),
    {
        match self {
            AppError::LedWrite(f) => {
                let mut text = String::from_str("Failed to write to LED: ");
                let detail = f.text();
                text.append(detail.as_str());
                text
            },
            AppError::LedActorSend => String::from_str("Failed to send message to LED actor"),
            AppError::ImuActorSend => String::from_str("Failed to send message to IMU actor"),
            AppError::InvalidReadTime(time, max) => {
                let mut text = String::from_str("Read time ");
                text.append(decimal_text(*time).as_str());
                text.append("ms must be less than max read time ");
                text.append(decimal_text(*max).as_str());
                text.append("ms");
                text
            },
            AppError::InvalidReadPeriod(period, time) => {
                let mut text = String::from_str("Read period ");
                text.append(decimal_text(*period).as_str());
                text.append("ms must be greater than read time ");
                text.append(decimal_text(*time).as_str());
                text.append("ms");
                text
            },
            AppError::AmbientI2cRead => String::from_str("Failed to read from Ambient Sensor"),
        }
    }
}

/// What a send reports: success for a queued message, `LedActorSend` for a
/// refused one.
pub open spec fn outcome(accepted: bool) -> Result<(), AppError> {
    if accepted {
        Ok(())
    } else {
        Err(AppError::LedActorSend)
    }
}

/// What a send reports for the receipt of its post.
pub fn send_outcome(posted: &Posted) -> (r: Result<(), AppError>)
    ensures
        r == outcome(posted.accepted()),
{
    if posted.was_accepted() {
        Ok(())
    } else {
        Err(AppError::LedActorSend)
    }
}

/// The handle of the LED actor: a sender into its inbox. Each send method
/// posts its own message and returns what the send reports together with
/// the receipt of the post: `Ok` when the inbox queued the message,
/// `LedActorSend` when it was full.
pub struct LedActor(ActorInbox);

impl LedActor {
    /// The inbox that the handle sends to.
    pub closed spec fn inbox(&self) -> ActorInbox {
        self.0
    }

    /// A handle that sends to `inbox`.
    pub fn new(inbox: ActorInbox) -> (actor: LedActor)
        ensures
            actor.inbox() == inbox,
    {
        LedActor(inbox)
    }

    /// Turn on the LED
    pub fn on(&self) -> (r: (Result<(), AppError>, Posted))
        ensures
            r.1.message() == Message::On,
            r.0 == outcome(r.1.accepted()),
    {
        let posted = post(&self.0, Message::On);
        (send_outcome(&posted), posted)
    }

    /// Turn off the LED
    pub fn off(&self) -> (r: (Result<(), AppError>, Posted))
        ensures
            r.1.message() == Message::Off,
            r.0 == outcome(r.1.accepted()),
    {
        let posted = post(&self.0, Message::Off);
        (send_outcome(&posted), posted)
    }

    /// Set the colour of the LED
    pub fn set_colour(&self, colour: Colour) -> (r: (Result<(), AppError>, Posted))
        ensures
            r.1.message() == Message::SetColour(colour),
            r.0 == outcome(r.1.accepted()),
    {
        let posted = post(&self.0, Message::SetColour(colour));
        (send_outcome(&posted), posted)
    }

    /// Set the brightness of the LED
    pub fn set_brightness(&self, level: u8) -> (r: (Result<(), AppError>, Posted))
        ensures
            r.1.message() == Message::SetBrightness(level),
            r.0 == outcome(r.1.accepted()),
    {
        let posted = post(&self.0, Message::SetBrightness(level));
        (send_outcome(&posted), posted)
    }

    /// Set the LED to a sequence of colours
    pub fn set_sequence(
        &self,
        sequence: &'static [Colour],
        step_duration: Duration,
        repeat: Repeat,
    ) -> (r: (Result<(), AppError>, Posted))
        ensures
            r.1.message() == Message::SetSequence((sequence, step_duration, repeat)),
            r.0 == outcome(r.1.accepted()),
    {
        let posted = post(&self.0, Message::SetSequence((sequence, step_duration, repeat)));
        (send_outcome(&posted), posted)
    }
}

} // verus!
