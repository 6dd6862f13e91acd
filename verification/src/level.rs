//! Logic levels and the binary encoding of a channel index onto select lines.

use vstd::arithmetic::power2::{lemma2_to64, pow2};
use vstd::bits::lemma_u8_shr_is_div;
use vstd::prelude::*;

verus! {

/// The level a digital output line is driven to.
#[derive(Clone, Copy, Debug, PartialEq, Eq, Structural)]
pub enum Level {
    Low,
    High,
}

/// Whether binary digit `i` of `channel` is a one.
pub open spec fn bit(channel: nat, i: nat) -> bool {
    (channel / pow2(i)) % 2 == 1
}

/// The level of select line `i` when `channel` is addressed: high exactly where
/// binary digit `i` of the channel index is a one.
pub open spec fn level_of(channel: nat, i: nat) -> Level {
    if bit(channel, i) {
        Level::High
    } else {
        Level::Low
    }
}

/// The levels of `lines` select lines that address `channel`, line 0 first.
/// Every line of the pattern has a level.
pub open spec fn select_pattern(channel: nat, lines: nat) -> Seq<Option<Level>> {
    Seq::new(lines, |i: int| Some(level_of(channel, i as nat)))
}

/// The number of channels that `lines` select lines address.
pub open spec fn channel_count(lines: nat) -> nat {
    pow2(lines)
}

/// The level for select line `line` when `channel` is addressed.
pub fn select_level(channel: u8, line: u8) -> (level: Level)
    requires
        line < 8,
    ensures
        level == level_of(channel as nat, line as nat),
{
    let masked: u8 = channel & (1u8 << line);
    proof {
        let shifted: u8 = channel >> line;
        assert((channel & (1u8 << line) == 0) <==> ((channel >> line) & 1 == 0)) by (bit_vector)
            requires
                line < 8,
        ;
        assert(shifted & 1 == shifted % 2) by (bit_vector);
        lemma_u8_shr_is_div(channel, line);
    }
    if masked == 0 {
        Level::Low
    } else {
        Level::High
    }
}

/// The four lowest binary digits of `channel`, by division with constants.
pub proof fn lemma_low_digits(channel: nat)
    ensures
        bit(channel, 0) == (channel % 2 == 1),
        bit(channel, 1) == ((channel / 2) % 2 == 1),
        bit(channel, 2) == ((channel / 4) % 2 == 1),
        bit(channel, 3) == ((channel / 8) % 2 == 1),
{
    lemma2_to64();
}

/// Three select lines address 8 channels, four address 16.
pub proof fn lemma_channel_counts()
    ensures
        channel_count(3) == 8,
        channel_count(4) == 16,
{
    lemma2_to64();
}

} // verus!
