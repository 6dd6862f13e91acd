//! The driver's state as a mathematical value, its transitions, and the laws
//! that hold of them.

use crate::level::{bit, channel_count, level_of, select_pattern, Level};
use crate::line::LineState;
use crate::pins::selected;
use vstd::arithmetic::div_mod::{lemma_div_denominator, lemma_fundamental_div_mod, lemma_small_mod};
use vstd::arithmetic::power2::{lemma2_to64, lemma_pow2_pos, lemma_pow2_unfold, pow2};
use vstd::prelude::*;

verus! {

/// What a driver has cached and what it has asked of its lines.
pub struct State {
    /// The number of channels that the select lines address.
    pub num_channels: nat,
    /// The channel last selected.
    pub active_channel: nat,
    /// Whether the multiplexer was last enabled rather than disabled.
    pub enabled: bool,
    /// What has been asked of each select line, line 0 first.
    pub select_lines: Seq<LineState>,
    /// What has been asked of the enable line.
    pub enable_line: LineState,
}

/// A state without the command counts: the cache and the level of each line.
pub struct Snapshot {
    /// The number of channels that the select lines address.
    pub num_channels: nat,
    /// The channel last selected.
    pub active_channel: nat,
    /// Whether the multiplexer was last enabled rather than disabled.
    pub enabled: bool,
    /// The level last commanded on each select line, line 0 first.
    pub select_levels: Seq<Option<Level>>,
    /// The level last commanded on the enable line.
    pub enable_level: Option<Level>,
}

/// The level of the active-low enable line that goes with the flag `enabled`.
pub open spec fn enable_level_for(enabled: bool) -> Level {
    if enabled {
        Level::Low
    } else {
        Level::High
    }
}

impl State {
    /// The level last commanded on each select line, line 0 first.
    pub open spec fn select_levels(self) -> Seq<Option<Level>> {
        Seq::new(self.select_lines.len(), |i: int| self.select_lines[i].level)
    }

    /// The cache and the level of each line.
    pub open spec fn snapshot(self) -> Snapshot {
        Snapshot {
            num_channels: self.num_channels,
            active_channel: self.active_channel,
            enabled: self.enabled,
            select_levels: self.select_levels(),
            enable_level: self.enable_line.level,
        }
    }

    /// The cache mirrors the lines: the select lines spell the active channel
    /// in binary, the enable line is low exactly when the flag is set, and the
    /// active channel is one of the addressable channels.
    pub open spec fn wf(self) -> bool {
        &&& self.num_channels == channel_count(self.select_lines.len())
        &&& self.active_channel < self.num_channels
        &&& self.select_levels() == select_pattern(self.active_channel, self.select_lines.len())
        &&& self.enable_line.level == Some(enable_level_for(self.enabled))
    }

    /// The state of a fresh driver over lines of which `select` and `enable`
    /// had been asked before: enabled, on channel 0, every line commanded once
    /// more.
    pub open spec fn initial(select: Seq<LineState>, enable: LineState) -> State {
        State {
            num_channels: channel_count(select.len()),
            active_channel: 0,
            enabled: true,
            select_lines: selected(select, 0),
            enable_line: enable.driven(Level::Low),
        }
    }

    /// Whether `channel` is one of the addressable channels.
    pub open spec fn accepts(self, channel: nat) -> bool {
        channel < self.num_channels
    }

    /// The state after a request for `channel`: every select line has been
    /// commanded to its digit and the channel is the active one, or, where it
    /// is out of range, nothing was commanded or changed.
    pub open spec fn set_channel(self, channel: nat) -> State {
        if self.accepts(channel) {
            State {
                active_channel: channel,
                select_lines: selected(self.select_lines, channel),
                ..self
            }
        } else {
            self
        }
    }

    /// The state after enabling: flag set, enable line commanded low.
    pub open spec fn enable(self) -> State {
        State { enabled: true, enable_line: self.enable_line.driven(Level::Low), ..self }
    }

    /// The state after disabling: flag cleared, enable line commanded high.
    pub open spec fn disable(self) -> State {
        State { enabled: false, enable_line: self.enable_line.driven(Level::High), ..self }
    }
}

/// The channel that a chip's binary decoder reads off select levels: line `i`
/// counts `2^i` where it is high.
pub open spec fn address(select: Seq<Option<Level>>) -> nat
    decreases select.len(),
{
    if select.len() == 0 {
        0
    } else {
        let low: nat = if select[0] == Some(Level::High) {
            1
        } else {
            0
        };
        low + 2 * address(select.skip(1))
    }
}

/// The levels of select lines after a request for `channel` are the pattern
/// of that channel, whatever they were.
pub proof fn lemma_selected_levels(s: State, channel: nat)
    requires
        s.accepts(channel),
    ensures
        s.set_channel(channel).select_levels() == select_pattern(channel, s.select_lines.len()),
{
    let lines = s.select_lines.len();
    assert(s.set_channel(channel).select_levels() =~= select_pattern(channel, lines));
}

/// A fresh driver is well-formed, enabled and on channel 0, with the enable
/// line and every select line commanded low, whatever had been asked of the
/// lines before.
pub proof fn lemma_initial(select: Seq<LineState>, enable: LineState)
    ensures
        State::initial(select, enable).wf(),
        State::initial(select, enable).enabled,
        State::initial(select, enable).active_channel == 0,
        State::initial(select, enable).enable_line.level == Some(Level::Low),
        State::initial(select, enable).select_lines.len() == select.len(),
        forall|i: int|
            0 <= i < select.len() ==> (
            #[trigger] State::initial(select, enable).select_lines[i]).level == Some(Level::Low),
{
    let s = State::initial(select, enable);
    lemma_pow2_pos(select.len());
    assert forall|i: int| 0 <= i < select.len() implies (#[trigger] s.select_lines[i]).level
        == Some(Level::Low) by {
        lemma_pow2_pos(i as nat);
        lemma_div_of_zero(pow2(i as nat));
    }
    assert(s.select_levels() =~= select_pattern(0, select.len()));
}

/// Every transition keeps a well-formed state well-formed; in particular the
/// active channel stays below the number of channels.
pub proof fn lemma_transitions_keep_wf(s: State, channel: nat)
    requires
        s.wf(),
    ensures
        s.set_channel(channel).wf(),
        s.enable().wf(),
        s.disable().wf(),
{
    if s.accepts(channel) {
        lemma_selected_levels(s, channel);
    }
    assert(s.enable().select_levels() =~= s.select_levels());
    assert(s.disable().select_levels() =~= s.select_levels());
}

/// After an accepted request for `channel`, it is the active channel and select
/// line `i` is at binary digit `i` of it, having got one command; the enable
/// line and the flag are as before.
pub proof fn lemma_set_channel_selects(s: State, channel: nat)
    requires
        s.accepts(channel),
    ensures
        s.set_channel(channel).active_channel == channel,
        s.set_channel(channel).select_lines.len() == s.select_lines.len(),
        forall|i: int|
            0 <= i < s.select_lines.len() ==> (
            #[trigger] s.set_channel(channel).select_lines[i]) == s.select_lines[i].driven(
                level_of(channel, i as nat),
            ),
        s.set_channel(channel).enable_line == s.enable_line,
        s.set_channel(channel).enabled == s.enabled,
{
}

/// A request for a channel that is out of range changes nothing.
pub proof fn lemma_set_channel_rejects(s: State, channel: nat)
    requires
        channel >= s.num_channels,
    ensures
        s.set_channel(channel) == s,
{
}

/// Requesting the same channel twice in a row leaves the levels of all lines
/// and the cache as requesting it once does.
pub proof fn lemma_set_channel_idempotent(s: State, channel: nat)
    ensures
        s.set_channel(channel).set_channel(channel).snapshot() == s.set_channel(
            channel,
        ).snapshot(),
{
    let once = s.set_channel(channel);
    let twice = once.set_channel(channel);
    assert(twice.select_levels() =~= once.select_levels());
}

/// Enabling, disabling and enabling again leaves the levels of all lines and
/// the cache as enabling once does: the flag is set and the enable line is
/// low.
pub proof fn lemma_enable_disable_enable(s: State)
    ensures
        s.enable().disable().enable().snapshot() == s.enable().snapshot(),
        s.enable().disable().enable().enabled,
        s.enable().disable().enable().enable_line.level == Some(Level::Low),
{
    assert(s.enable().disable().enable().select_levels() =~= s.enable().select_levels());
}

/// Zero divided by a positive number is zero.
proof fn lemma_div_of_zero(d: nat)
    requires
        d > 0,
    ensures
        0nat / d == 0,
{
    lemma_fundamental_div_mod(0, d as int);
    lemma_small_mod(0, d);
}

/// Dropping select line 0 from the pattern of a channel leaves the pattern of
/// half the channel on one line fewer.
proof fn lemma_pattern_skip(channel: nat, lines: nat)
    requires
        lines > 0,
    ensures
        select_pattern(channel, lines).skip(1) == select_pattern(channel / 2, (lines - 1) as nat),
{
    let rest = select_pattern(channel, lines).skip(1);
    let half = select_pattern(channel / 2, (lines - 1) as nat);
    assert forall|i: int| 0 <= i < lines - 1 implies rest[i] == half[i] by {
        lemma_pow2_pos(i as nat);
        lemma_pow2_unfold((i + 1) as nat);
        lemma_div_denominator(channel as int, 2, pow2(i as nat) as int);
        assert(bit(channel, (i + 1) as nat) == bit(channel / 2, i as nat));
    }
    assert(rest =~= half);
}

/// The decoder reads the pattern of a channel back as that channel, as long as
/// the lines can address it.
pub proof fn lemma_address_of_pattern(channel: nat, lines: nat)
    requires
        channel < channel_count(lines),
    ensures
        address(select_pattern(channel, lines)) == channel,
    decreases lines,
{
    lemma2_to64();
    if lines > 0 {
        lemma_pow2_unfold(lines);
        lemma_pattern_skip(channel, lines);
        lemma_address_of_pattern(channel / 2, (lines - 1) as nat);
        lemma_fundamental_div_mod(channel as int, 2);
    }
}

/// In a well-formed state the select lines address the active channel: what
/// the chip decodes is what the cache says.
pub proof fn lemma_lines_address_active_channel(s: State)
    requires
        s.wf(),
    ensures
        address(s.select_levels()) == s.active_channel,
{
    lemma_address_of_pattern(s.active_channel, s.select_lines.len());
}

} // verus!
