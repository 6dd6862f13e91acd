//! Output lines: a pin together with the record of what it was commanded to.

use crate::level::Level;
use vstd::prelude::*;

verus! {

/// What the driver asks of a digital output pin: that it can be driven low and
/// driven high. Either operation may fail with an error of the pin's own.
/// Nothing is promised of the electrical outcome.
pub trait Pin {
    /// The error a failed drive reports.
    type Error;

    /// Drives the pin low.
    fn set_low(&mut self) -> Result<(), Self::Error>;

    /// Drives the pin high.
    fn set_high(&mut self) -> Result<(), Self::Error>;
}

/// What has been asked of a line so far.
pub struct LineState {
    /// The level last commanded, `None` while no command has been given.
    pub level: Option<Level>,
    /// How many commands the line has been given.
    pub commands: nat,
}

impl LineState {
    /// A line that has not been commanded yet.
    pub open spec fn fresh() -> LineState {
        LineState { level: None, commands: 0 }
    }

    /// The line after one more command, to `level`.
    pub open spec fn driven(self, level: Level) -> LineState {
        LineState { level: Some(level), commands: self.commands + 1 }
    }
}

/// A pin and the record of what it was commanded to.
///
/// The record is written together with every command and is never read back
/// from the hardware: it states what was asked of the pin, not what the pin
/// does. A drive that the pin reports as failed is recorded like any other.
pub struct Line<P> {
    pin: P,
    level: Option<Level>,
    commands: Ghost<nat>,
}

impl<P> View for Line<P> {
    type V = LineState;

    closed spec fn view(&self) -> LineState {
        LineState { level: self.level, commands: self.commands@ }
    }
}

impl<P: Pin> Line<P> {
    /// The pin that this line owns.
    pub closed spec fn hardware(&self) -> P {
        self.pin
    }

    /// Takes ownership of `pin`. Its level is unknown until the first command.
    pub fn new(pin: P) -> (line: Self)
        ensures
            line@ == LineState::fresh(),
            line.hardware() == pin,
    {
        Line { pin, level: None, commands: Ghost(0) }
    }

    /// The level last commanded, `None` while no command has been given.
    pub fn level(&self) -> (level: Option<Level>)
        ensures
            level == self@.level,
    {
        self.level
    }

    /// The pin behind this line.
    pub fn pin(&self) -> (pin: &P)
        ensures
            *pin == self.hardware(),
    {
        &self.pin
    }

    /// Gives the pin back.
    pub fn release(self) -> (pin: P)
        ensures
            pin == self.hardware(),
    {
        self.pin
    }

    /// Commands the pin low and records it. A failure of the pin is dropped.
    pub fn set_low(&mut self)
        ensures
            final(self)@ == old(self)@.driven(Level::Low),
    {
        let _ = self.pin.set_low();
        self.level = Some(Level::Low);
        self.commands = Ghost((self.commands@ + 1) as nat);
    }

    /// Commands the pin high and records it. A failure of the pin is dropped.
    pub fn set_high(&mut self)
        ensures
            final(self)@ == old(self)@.driven(Level::High),
    {
        let _ = self.pin.set_high();
        self.level = Some(Level::High);
        self.commands = Ghost((self.commands@ + 1) as nat);
    }

    /// Commands the pin to `level`, once, and records it.
    pub fn drive(&mut self, level: Level)
        ensures
            final(self)@ == old(self)@.driven(level),
    {
        match level {
            Level::Low => self.set_low(),
            Level::High => self.set_high(),
        }
    }
}

} // verus!
