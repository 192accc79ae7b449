//! Which filter chain processes each channel of an audio frame: the first channel goes through
//! the left chain, the second through the right chain, and any further channel passes unchanged.

use vstd::prelude::*;

verus! {

/// One of the two matched filter chains of the stereo EQ.
#[derive(Clone, Copy, Debug, PartialEq, Eq, Structural)]
pub enum Chain {
    Left,
    Right,
}

/// The chain for the channel at `index` within a frame, if any.
pub open spec fn chain_for_channel_spec(index: int) -> Option<Chain> {
    if index == 0 {
        Some(Chain::Left)
    } else if index == 1 {
        Some(Chain::Right)
    } else {
        None
    }
}

/// The chain that processes the channel at `index` of a frame; `None` leaves the channel as it is.
pub fn chain_for_channel(index: usize) -> (chain: Option<Chain>)
    ensures
        chain == chain_for_channel_spec(index as int),
{
    if index == 0 {
        Some(Chain::Left)
    } else if index == 1 {
        Some(Chain::Right)
    } else {
        None
    }
}

/// No two channels of a frame go through the same chain, so the two chains' filter states never
/// mix.
pub proof fn law_each_chain_serves_one_channel(i: int, j: int)
    requires
        0 <= i,
        0 <= j,
        i != j,
        chain_for_channel_spec(i) is Some,
    ensures
        chain_for_channel_spec(i) != chain_for_channel_spec(j),
{
}

/// Only the first two channels of a frame are filtered: the first through the left chain and the
/// second through the right chain; every further channel passes unchanged.
pub proof fn law_first_two_channels_are_stereo(i: int)
    requires
        0 <= i,
    ensures
        chain_for_channel_spec(i) is Some <==> i < 2,
        chain_for_channel_spec(0) == Some(Chain::Left),
        chain_for_channel_spec(1) == Some(Chain::Right),
{
}

} // verus!
