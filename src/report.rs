use vstd::prelude::*;

verus! {

/// Shortest input frame that carries an input code and a state.
pub const MIN_FRAME_LEN: usize = 11;
/// Offset of the input code in an input frame.
pub const CODE_OFFSET: usize = 9;
/// Offset of the state byte in an input frame.
pub const STATE_OFFSET: usize = 10;
/// Mode that makes the device report buttons, encoders and the dial to software.
pub const SOFTWARE_MODE: u8 = 3;

/// The literal marker ("ACK") that opens every input frame.
pub open spec fn frame_marker() -> Seq<u8> {
    seq![65u8, 67u8, 75u8]
}

/// Whether the first `len` bytes of `buf` form an input frame. Only bytes
/// that the buffer holds count.
pub open spec fn is_input_frame(buf: Seq<u8>, len: int) -> bool {
    len >= MIN_FRAME_LEN && buf.len() >= MIN_FRAME_LEN && buf.subrange(0, 3) == frame_marker()
}

/// Decodes the first `len` bytes of `buf` into `(input_code, state)`.
/// A frame that is too short or lacks the marker is ignored: `None`.
pub fn parse_report(buf: &[u8], len: usize) -> (r: Option<(u8, u8)>)
    ensures
        len < MIN_FRAME_LEN ==> r is None,
        r is Some <==> is_input_frame(buf@, len as int),
        r matches Some((code, state)) ==> code == buf@[CODE_OFFSET as int] && state
            == buf@[STATE_OFFSET as int],
{
    if len < MIN_FRAME_LEN || buf.len() < MIN_FRAME_LEN {
        return None;
    }
    let is_ack = buf[0] == 65 && buf[1] == 67 && buf[2] == 75;
    assert(is_ack <==> buf@.subrange(0, 3) =~= frame_marker());
    if !is_ack {
        return None;
    }
    Some((buf[CODE_OFFSET], buf[STATE_OFFSET]))
}

/// The fixed 12-byte frame that selects a reporting mode.
pub open spec fn spec_mode_packet(mode: u8) -> Seq<u8> {
    seq![
        0x00u8, 0x43u8, 0x52u8, 0x54u8, 0x00u8, 0x00u8,
        0x4Du8, 0x4Fu8, 0x44u8, 0x00u8, 0x00u8, (0x30 + mode) as u8,
    ]
}

/// Builds the mode-set control frame; the last byte is the mode as an ASCII digit.
pub fn mode_packet(mode: u8) -> (r: Vec<u8>)
    requires
        mode <= 9,
    ensures
        r@ == spec_mode_packet(mode),
        r@.len() == 12,
        r@[11] == '0' as u8 + mode,
{
    let r = vec![0x00, 0x43, 0x52, 0x54, 0x00, 0x00, 0x4D, 0x4F, 0x44, 0x00, 0x00, 0x30 + mode];
    assert(r@ =~= spec_mode_packet(mode));
    r
}

} // verus!
