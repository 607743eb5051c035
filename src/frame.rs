use vstd::prelude::*;

verus! {

/// Every message travels in one frame of exactly this many bytes.
pub const FRAME_SIZE: usize = 256;

/// The number of message kinds the table can send; a frame whose kind tag is
/// not below this is malformed.
pub const SERVER_MESSAGE_KINDS: u32 = 27;

/// Why a frame cannot be sent or read.
#[derive(Clone, Copy, Debug, PartialEq, Eq, Structural)]
pub enum FrameError {
    /// The encoded message does not fit in one frame.
    Oversized,
    /// The frame is not exactly `FRAME_SIZE` bytes long.
    WrongLength,
    /// The frame's kind tag names no message kind.
    UnknownKind(u32),
}

/// The little-endian number held in the first four bytes.
pub open spec fn le_u32(b: Seq<u8>) -> int
    recommends
        b.len() >= 4,
{
    b[0] + 256 * b[1] + 65536 * b[2] + 16777216 * b[3]
}

/// The frame that carries `payload`: the payload followed by zero bytes up to
/// the frame size.
pub open spec fn sealed(payload: Seq<u8>) -> Seq<u8> {
    payload + Seq::new((FRAME_SIZE - payload.len()) as nat, |i: int| 0u8)
}

/// What reading a frame from the table yields: its kind tag, or why it is
/// malformed.
pub open spec fn frame_check(frame: Seq<u8>) -> Result<u32, FrameError> {
    if frame.len() != FRAME_SIZE {
        Err(FrameError::WrongLength)
    } else if le_u32(frame) >= SERVER_MESSAGE_KINDS {
        Err(FrameError::UnknownKind(le_u32(frame) as u32))
    } else {
        Ok(le_u32(frame) as u32)
    }
}

/// Reads the message-kind tag at the start of an encoded message: a
/// little-endian `u32`.
pub fn frame_tag(bytes: &[u8]) -> (r: u32)
    requires
        bytes@.len() >= 4,
    ensures
        r as int == le_u32(bytes@),
{
    let b0 = bytes[0] as u32;
    let b1 = bytes[1] as u32;
    let b2 = bytes[2] as u32;
    let b3 = bytes[3] as u32;
    assert(b3 * 16777216 <= 255 * 16777216) by (nonlinear_arith)
        requires
            b3 <= 255,
    ;
    b0 + 256 * b1 + 65536 * b2 + 16777216 * b3
}

/// Pads an encoded message into one frame; a message too long for a frame
/// is refused rather than cut short.
pub fn seal_frame(payload: &[u8]) -> (r: Result<Vec<u8>, FrameError>)
    ensures
        payload@.len() > FRAME_SIZE ==> r == Err::<Vec<u8>, FrameError>(FrameError::Oversized),
        payload@.len() <= FRAME_SIZE ==> r is Ok && r->Ok_0@ == sealed(payload@),
{
    if payload.len() > FRAME_SIZE {
        return Err(FrameError::Oversized);
    }
    let mut out: Vec<u8> = Vec::with_capacity(FRAME_SIZE);
    let mut i: usize = 0;
    while i < payload.len()
        invariant
            i <= payload@.len() <= FRAME_SIZE,
            out@ == payload@.subrange(0, i as int),
        decreases payload@.len() - i,
    {
        out.push(payload[i]);
        i = i + 1;
    }
    while out.len() < FRAME_SIZE
        invariant
            payload@.len() <= out@.len() <= FRAME_SIZE,
            out@.subrange(0, payload@.len() as int) == payload@,
            forall|j: int| payload@.len() <= j < out@.len() ==> out@[j] == 0u8,
        decreases FRAME_SIZE - out@.len(),
    {
        out.push(0u8);
    }
    assert(out@ =~= sealed(payload@));
    Ok(out)
}

/// Checks a frame read from the table before it is decoded: it must be one
/// whole frame, and its kind tag must name a message kind.
pub fn check_server_frame(frame: &[u8]) -> (r: Result<u32, FrameError>)
    ensures
        r == frame_check(frame@),
{
    if frame.len() != FRAME_SIZE {
        return Err(FrameError::WrongLength);
    }
    let tag = frame_tag(frame);
    if tag >= SERVER_MESSAGE_KINDS {
        Err(FrameError::UnknownKind(tag))
    } else {
        Ok(tag)
    }
}

} // verus!
