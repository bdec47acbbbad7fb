//! Positions in a deciphered file whose audio bitstream follows a header.
//!
//! The decoder sees only the bitstream: position 0 of the bitstream is the
//! byte right after the header.

use vstd::prelude::*;

verus! {

/// Where in the file the byte at `position` of the bitstream stands.
pub open spec fn file_position_of(header_offset: u64, position: u64) -> int {
    header_offset + position
}

/// Where in the bitstream the byte at `file_position` of the file stands; a
/// byte of the header counts as the start of the bitstream.
pub open spec fn stream_position_of(header_offset: u64, file_position: u64) -> int {
    if file_position >= header_offset {
        file_position - header_offset
    } else {
        0
    }
}

/// Computes where in the file the byte at `position` of the bitstream
/// stands, or `None` where no `u64` holds that.
pub fn file_position(header_offset: u64, position: u64) -> (target: Option<u64>)
    ensures
        file_position_of(header_offset, position) <= u64::MAX ==> target == Some(
            file_position_of(header_offset, position) as u64,
        ),
        file_position_of(header_offset, position) > u64::MAX ==> target.is_none(),
{
    if position <= u64::MAX - header_offset {
        Some(header_offset + position)
    } else {
        None
    }
}

/// Computes where in the bitstream the byte at `file_position` of the file
/// stands.
pub fn stream_position(header_offset: u64, file_position: u64) -> (position: u64)
    ensures
        position == stream_position_of(header_offset, file_position),
{
    if file_position >= header_offset {
        file_position - header_offset
    } else {
        0
    }
}

/// Going to a position of the bitstream and reading back where one is gives
/// that position.
pub proof fn law_positions_round_trip(header_offset: u64, position: u64)
    requires
        file_position_of(header_offset, position) <= u64::MAX,
    ensures
        stream_position_of(header_offset, file_position_of(header_offset, position) as u64)
            == position,
{
}

} // verus!
