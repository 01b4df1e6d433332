//! The handshake that a client sends once, right after it has connected: a
//! four-byte magic token, then one byte that names the directions to test.
//! Nothing frames the two and nothing is sent back.

use crate::mode::lemma_bits_round_trip;
use crate::mode::lemma_mode_of_bits_inverse;
use crate::mode::mode_of_bits;
use crate::mode::Mode;
use vstd::prelude::*;

verus! {

/// The magic token: the ASCII letters `SPED`.
pub open spec fn magic() -> Seq<u8> {
    seq![0x53u8, 0x50u8, 0x45u8, 0x44u8]
}

/// Why a handshake was turned down.
#[derive(Clone, Copy, Debug, PartialEq, Eq, Structural)]
pub enum HandshakeError {
    /// The first four bytes are not the magic token.
    BadMagic,
    /// The mode byte has a bit set that names no direction, or names no
    /// direction at all.
    InvalidMode,
}

/// What a mode byte decodes to: the mode it stands for, if it stands for
/// one that has a direction.
pub open spec fn decoded_mode(byte: u8) -> Result<Mode, HandshakeError> {
    match mode_of_bits(byte) {
        Some(mode) => if mode.up || mode.down {
            Ok(mode)
        } else {
            Err(HandshakeError::InvalidMode)
        },
        None => Err(HandshakeError::InvalidMode),
    }
}

/// The five bytes that ask for `mode`.
pub open spec fn handshake_bytes(mode: Mode) -> Seq<u8> {
    magic().push(mode.wire_bits())
}

/// What a whole handshake decodes to. The token is judged first: a frame
/// with a wrong token is turned down for that, whatever its mode byte holds.
pub open spec fn decoded_handshake(frame: Seq<u8>) -> Result<Mode, HandshakeError> {
    if frame.len() != 5 || frame.subrange(0, 4) != magic() {
        Err(HandshakeError::BadMagic)
    } else {
        decoded_mode(frame[4])
    }
}

/// The magic token.
pub fn magic_number() -> (token: [u8; 4])
    ensures
        token@ == magic(),
{
    let token: [u8; 4] = [0x53, 0x50, 0x45, 0x44];
    assert(token@ =~= magic());
    token
}

/// Accepts the token that is the magic token byte for byte, and no other.
pub fn check_magic(token: &[u8; 4]) -> (checked: Result<(), HandshakeError>)
    ensures
        token@ == magic() ==> checked is Ok,
        token@ != magic() ==> checked == Err::<(), HandshakeError>(HandshakeError::BadMagic),
{
    if token[0] == 0x53 && token[1] == 0x50 && token[2] == 0x45 && token[3] == 0x44 {
        assert(token@ =~= magic());
        Ok(())
    } else {
        Err(HandshakeError::BadMagic)
    }
}

/// Reads the mode byte. A byte that is zero, or that has a bit set beyond
/// bits 0 and 1, is turned down.
pub fn decode_mode(byte: u8) -> (decoded: Result<Mode, HandshakeError>)
    ensures
        decoded == decoded_mode(byte),
        decoded is Err <==> byte == 0 || byte & 0xfc != 0,
        decoded matches Ok(mode) ==> mode.up == (byte & 1 != 0) && mode.down == (byte & 2 != 0),
{
    proof {
        assert(byte & 0xfc == 0 ==> (byte == 0 <==> byte & 1 == 0 && byte & 2 == 0))
            by (bit_vector);
    }
    match Mode::from_bits(byte) {
        Some(mode) => if mode.is_empty() {
            Err(HandshakeError::InvalidMode)
        } else {
            Ok(mode)
        },
        None => Err(HandshakeError::InvalidMode),
    }
}

/// The handshake that asks for `mode`: the magic token, then the wire value
/// of the mode.
pub fn encode_handshake(mode: Mode) -> (frame: [u8; 5])
    ensures
        frame@ == handshake_bytes(mode),
{
    let frame: [u8; 5] = [0x53, 0x50, 0x45, 0x44, mode.bits()];
    assert(frame@ =~= handshake_bytes(mode));
    frame
}

/// Reads a whole handshake: the token first, then the mode byte.
pub fn decode_handshake(frame: &[u8; 5]) -> (decoded: Result<Mode, HandshakeError>)
    ensures
        decoded == decoded_handshake(frame@),
{
    if frame[0] == 0x53 && frame[1] == 0x50 && frame[2] == 0x45 && frame[3] == 0x44 {
        assert(frame@.subrange(0, 4) =~= magic());
        decode_mode(frame[4])
    } else {
        assert(frame@.subrange(0, 4)[0] == frame@[0]);
        assert(frame@.subrange(0, 4)[1] == frame@[1]);
        assert(frame@.subrange(0, 4)[2] == frame@[2]);
        assert(frame@.subrange(0, 4)[3] == frame@[3]);
        Err(HandshakeError::BadMagic)
    }
}

/// A handshake that asks for a mode with at least one direction decodes to
/// that mode.
pub proof fn lemma_handshake_round_trip(mode: Mode)
    requires
        mode.up || mode.down,
    ensures
        decoded_handshake(handshake_bytes(mode)) == Ok::<Mode, HandshakeError>(mode),
{
    lemma_bits_round_trip(mode);
    assert(handshake_bytes(mode).subrange(0, 4) =~= magic());
}

/// Only the handshake of a mode decodes to that mode.
pub proof fn lemma_decoded_is_encoded(frame: Seq<u8>, mode: Mode)
    requires
        decoded_handshake(frame) == Ok::<Mode, HandshakeError>(mode),
    ensures
        frame == handshake_bytes(mode),
        mode.up || mode.down,
{
    lemma_mode_of_bits_inverse(frame[4]);
    assert(frame =~= frame.subrange(0, 4).push(frame[4]));
}

} // verus!
