//! The multiplexer driver: a pin set and the cache of what it was last
//! commanded to.

use crate::level::{level_of, Level};
use crate::pins::Output;
use crate::state::{lemma_initial, lemma_transitions_keep_wf, State};
use vstd::arithmetic::power2::lemma_pow2_pos;
use vstd::prelude::*;

verus! {

/// The error of a request for a channel that the multiplexer does not have.
#[derive(Clone, Copy, Debug, PartialEq, Eq, Structural)]
pub struct ChannelOutOfRange {
    /// The channel that was asked for.
    pub channel: u8,
    /// The number of channels; valid channels are below it.
    pub num_channels: u8,
}

/// Selects channels on an 8-channel or 16-channel analog multiplexer and
/// enables or disables it.
///
/// The driver caches the active channel and the enabled flag. Both are
/// write-through: every command to the lines updates them, and they are never
/// read back from the hardware. The enable line is active-low; `enable` drives
/// it low and `disable` drives it high, so the flag always says what the line
/// was last commanded to.
pub struct Multiplexer<Pins: Output> {
    pins: Pins,
    num_channels: u8,
    active_channel: u8,
    enabled: bool,
}

impl<Pins: Output> View for Multiplexer<Pins> {
    type V = State;

    closed spec fn view(&self) -> State {
        State {
            num_channels: self.num_channels as nat,
            active_channel: self.active_channel as nat,
            enabled: self.enabled,
            select_lines: self.pins.select_lines(),
            enable_line: self.pins.enable_line(),
        }
    }
}

impl<Pins: Output> Multiplexer<Pins> {
    /// The pin set that this driver owns.
    pub closed spec fn lines(&self) -> Pins {
        self.pins
    }

    /// The cache mirrors the lines, and the view speaks of the pin set's own
    /// lines and channel count.
    pub open spec fn wf(&self) -> bool {
        &&& self@.wf()
        &&& self@.num_channels == self.lines().channels()
        &&& self@.select_lines == self.lines().select_lines()
        &&& self@.enable_line == self.lines().enable_line()
    }

    /// Takes ownership of configured pins and brings them to a known state,
    /// whatever their levels were: the enable line is commanded low, then
    /// every select line is commanded low, so that the multiplexer is enabled
    /// on channel 0.
    pub fn new(pins: Pins) -> (mux: Self)
        ensures
            mux.wf(),
            mux@ == State::initial(pins.select_lines(), pins.enable_line()),
            mux@.enabled,
            mux@.active_channel == 0,
            mux@.enable_line.level == Some(Level::Low),
            mux@.select_lines.len() == pins.select_lines().len(),
            forall|i: int|
                0 <= i < pins.select_lines().len() ==> (#[trigger] mux@.select_lines[i]).level
                    == Some(Level::Low),
    {
        let mut pins = pins;
        let num_channels = pins.num_channels();
        proof {
            lemma_pow2_pos(pins.select_lines().len());
            lemma_initial(pins.select_lines(), pins.enable_line());
        }
        pins.enable();
        pins.set_channel(0);
        Multiplexer { pins, num_channels, active_channel: 0, enabled: true }
    }

    /// Selects `channel`: commands select line `i` to binary digit `i` of it
    /// and caches it as the active channel. A channel that the multiplexer
    /// does not have is refused, and then no line is commanded and nothing
    /// changes.
    pub fn set_channel(&mut self, channel: u8) -> (result: Result<(), ChannelOutOfRange>)
        requires
            old(self).wf(),
        ensures
            final(self).wf(),
            final(self)@ == old(self)@.set_channel(channel as nat),
            old(self)@.accepts(channel as nat) <==> result is Ok,
            result is Ok ==> final(self)@.active_channel == channel,
            result is Ok ==> final(self)@.select_lines.len() == old(self)@.select_lines.len(),
            result is Ok ==> forall|i: int|
                0 <= i < old(self)@.select_lines.len() ==> (
                #[trigger] final(self)@.select_lines[i]).level == Some(
                    level_of(channel as nat, i as nat),
                ),
            result is Err ==> result->Err_0.channel == channel,
            result is Err ==> result->Err_0.num_channels as nat == old(self)@.num_channels,
            result is Err ==> final(self).lines() == old(self).lines(),
    {
        proof {
            lemma_transitions_keep_wf(self@, channel as nat);
        }
        if channel >= self.num_channels {
            return Err(ChannelOutOfRange { channel, num_channels: self.num_channels });
        }
        self.pins.set_channel(channel);
        self.active_channel = channel;
        Ok(())
    }

    /// Enables the multiplexer: commands the enable line low and sets the flag.
    pub fn enable(&mut self)
        requires
            old(self).wf(),
        ensures
            final(self).wf(),
            final(self)@ == old(self)@.enable(),
            final(self)@.enabled,
            final(self)@.enable_line.level == Some(Level::Low),
    {
        proof {
            lemma_transitions_keep_wf(self@, 0);
        }
        self.pins.enable();
        self.enabled = true;
    }

    /// Disables the multiplexer: commands the enable line high, the level at
    /// which the chip disconnects every channel, and clears the flag.
    pub fn disable(&mut self)
        requires
            old(self).wf(),
        ensures
            final(self).wf(),
            final(self)@ == old(self)@.disable(),
            !final(self)@.enabled,
            final(self)@.enable_line.level == Some(Level::High),
    {
        proof {
            lemma_transitions_keep_wf(self@, 0);
        }
        self.pins.disable();
        self.enabled = false;
    }

    /// The number of channels, 8 or 16 with the pin sets of this crate.
    pub fn num_channels(&self) -> (n: u8)
        ensures
            n as nat == self@.num_channels,
    {
        self.num_channels
    }

    /// The channel last selected.
    pub fn active_channel(&self) -> (channel: u8)
        ensures
            channel as nat == self@.active_channel,
    {
        self.active_channel
    }

    /// Whether the multiplexer was last enabled rather than disabled.
    pub fn enabled(&self) -> (enabled: bool)
        ensures
            enabled == self@.enabled,
    {
        self.enabled
    }

    /// The pin set, to look at its lines.
    pub fn pins(&self) -> (pins: &Pins)
        ensures
            *pins == self.lines(),
    {
        &self.pins
    }

    /// Gives the pin set back. The lines stay at the levels they were last
    /// commanded to.
    pub fn release(self) -> (pins: Pins)
        ensures
            pins == self.lines(),
    {
        self.pins
    }
}

} // verus!
