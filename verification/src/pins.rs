//! Pin sets: the two wirings of select lines and enable line that the driver
//! works with.

use crate::level::{channel_count, lemma_channel_counts, level_of, select_level, Level};
use crate::line::{Line, LineState, Pin};
use vstd::prelude::*;

verus! {

/// Select lines after a request for `channel`: each has been commanded once
/// more, line `i` to binary digit `i` of the channel index.
pub open spec fn selected(lines: Seq<LineState>, channel: nat) -> Seq<LineState> {
    Seq::new(lines.len(), |i: int| lines[i].driven(level_of(channel, i as nat)))
}

/// A set of select lines with one enable line.
///
/// Select line `i` carries binary digit `i` of the channel index, and the
/// enable line is active-low. Implemented for a tuple of four select lines and
/// an enable line (16 channels) and for a tuple of three select lines and an
/// enable line (8 channels).
pub trait Output {
    /// What has been asked of each select line, line 0 first.
    spec fn select_lines(&self) -> Seq<LineState>;

    /// What has been asked of the enable line.
    spec fn enable_line(&self) -> LineState;

    /// The number of channels that the select lines address.
    spec fn channels(&self) -> nat;

    /// Commands every select line, once, to its digit of `channel`. The enable
    /// line gets no command.
    fn set_channel(&mut self, channel: u8)
        requires
            (channel as nat) < old(self).channels(),
        ensures
            final(self).select_lines() == selected(old(self).select_lines(), channel as nat),
            final(self).enable_line() == old(self).enable_line(),
            final(self).channels() == old(self).channels(),
    ;

    /// Commands the enable line low, which enables the multiplexer. The select
    /// lines get no command.
    fn enable(&mut self)
        ensures
            final(self).enable_line() == old(self).enable_line().driven(Level::Low),
            final(self).select_lines() == old(self).select_lines(),
            final(self).channels() == old(self).channels(),
    ;

    /// Commands the enable line high, which disables the multiplexer. The
    /// select lines get no command.
    fn disable(&mut self)
        ensures
            final(self).enable_line() == old(self).enable_line().driven(Level::High),
            final(self).select_lines() == old(self).select_lines(),
            final(self).channels() == old(self).channels(),
    ;

    /// The number of channels: two to the power of the number of select lines.
    fn num_channels(&self) -> (n: u8)
        ensures
            n as nat == self.channels(),
            self.channels() == channel_count(self.select_lines().len()),
    ;
}

/// Four select lines and an enable line: 16 channels.
impl<S0: Pin, S1: Pin, S2: Pin, S3: Pin, EN: Pin> Output for (
    Line<S0>,
    Line<S1>,
    Line<S2>,
    Line<S3>,
    Line<EN>,
) {
    open spec fn select_lines(&self) -> Seq<LineState> {
        seq![self.0@, self.1@, self.2@, self.3@]
    }

    open spec fn enable_line(&self) -> LineState {
        self.4@
    }

    open spec fn channels(&self) -> nat {
        16
    }

    fn set_channel(&mut self, channel: u8) {
        self.0.drive(select_level(channel, 0));
        self.1.drive(select_level(channel, 1));
        self.2.drive(select_level(channel, 2));
        self.3.drive(select_level(channel, 3));
        assert(self.select_lines() =~= selected(old(self).select_lines(), channel as nat));
    }

    fn enable(&mut self) {
        self.4.set_low();
    }

    fn disable(&mut self) {
        self.4.set_high();
    }

    fn num_channels(&self) -> (n: u8)
        ensures
            n == 16,
            self.select_lines().len() == 4,
    {
        proof {
            lemma_channel_counts();
        }
        16
    }
}

/// Three select lines and an enable line: 8 channels.
impl<S0: Pin, S1: Pin, S2: Pin, EN: Pin> Output for (Line<S0>, Line<S1>, Line<S2>, Line<EN>) {
    open spec fn select_lines(&self) -> Seq<LineState> {
        seq![self.0@, self.1@, self.2@]
    }

    open spec fn enable_line(&self) -> LineState {
        self.3@
    }

    open spec fn channels(&self) -> nat {
        8
    }

    fn set_channel(&mut self, channel: u8) {
        self.0.drive(select_level(channel, 0));
        self.1.drive(select_level(channel, 1));
        self.2.drive(select_level(channel, 2));
        assert(self.select_lines() =~= selected(old(self).select_lines(), channel as nat));
    }

    fn enable(&mut self) {
        self.3.set_low();
    }

    fn disable(&mut self) {
        self.3.set_high();
    }

    fn num_channels(&self) -> (n: u8)
        ensures
            n == 8,
            self.select_lines().len() == 3,
    {
        proof {
            lemma_channel_counts();
        }
        8
    }
}

} // verus!
