use vstd::prelude::*;

verus! {

/// Number of display keys on the N1 grid.
pub const N1_KEY_COUNT: usize = 18;

/// Logical slot of an N1 input code. The three top LCDs report codes 16..=18
/// and take the first logical row; grid codes 1..=15 follow them.
pub open spec fn spec_device_to_logical(code: int) -> int {
    if 16 <= code <= 18 {
        code - 16
    } else if 1 <= code <= 15 {
        code + 2
    } else if code > 0 {
        code - 1
    } else {
        0
    }
}

/// Input code of an N1 logical slot; inverse of `spec_device_to_logical`
/// on the valid range, and the identity elsewhere.
pub open spec fn spec_logical_to_device(key: int) -> int {
    if 0 <= key <= 2 {
        key + 16
    } else if 3 <= key <= 17 {
        key - 2
    } else {
        key
    }
}

/// Converts an N1 input code into the logical key index shown to the host.
pub fn device_to_opendeck_n1(key: usize) -> (r: usize)
    ensures
        r == spec_device_to_logical(key as int),
        1 <= key <= 18 ==> r < N1_KEY_COUNT,
{
    match key {
        16 => 0,
        17 => 1,
        18 => 2,
        1..=15 => key + 2,
        _ => key.saturating_sub(1),
    }
}

/// Converts a logical key index into the input code that the N1 reports for it.
pub fn logical_to_device(key: u8) -> (r: u8)
    ensures
        r == spec_logical_to_device(key as int),
        key < N1_KEY_COUNT ==> 1 <= r <= 18,
{
    match key {
        0..=2 => key + 16,
        3..=17 => key - 2,
        _ => key,
    }
}

/// Converts a logical key index into the slot addressed when writing images.
/// The firmware adds one to every slot it is sent, so the slot is one below
/// the key's input code.
pub fn opendeck_to_device(key: u8) -> (r: u8)
    ensures
        key < N1_KEY_COUNT ==> r + 1 == spec_logical_to_device(key as int),
        key >= N1_KEY_COUNT ==> r == key,
{
    match key {
        0 => 15,
        1 => 16,
        2 => 17,
        3..=17 => key - 3,
        _ => key,
    }
}

/// Mapping a logical key to its input code and back gives the key again.
pub proof fn lemma_logical_round_trip(key: int)
    requires
        0 <= key < N1_KEY_COUNT,
    ensures
        spec_device_to_logical(spec_logical_to_device(key)) == key,
{
}

/// Mapping an input code of the grid to its logical key and back gives the
/// code again.
pub proof fn lemma_device_round_trip(code: int)
    requires
        1 <= code <= N1_KEY_COUNT,
    ensures
        0 <= spec_device_to_logical(code) < N1_KEY_COUNT,
        spec_logical_to_device(spec_device_to_logical(code)) == code,
{
}

} // verus!
