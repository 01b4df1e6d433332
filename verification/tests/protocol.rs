use raw_speed::mode::Mode;
use raw_speed::protocol::check_magic;
use raw_speed::protocol::decode_handshake;
use raw_speed::protocol::decode_mode;
use raw_speed::protocol::encode_handshake;
use raw_speed::protocol::magic_number;
use raw_speed::protocol::HandshakeError;

#[test]
fn magic_is_sped() {
    assert_eq!(magic_number(), [b'S', b'P', b'E', b'D']);
}

#[test]
fn magic_token_is_accepted() {
    assert_eq!(check_magic(&[b'S', b'P', b'E', b'D']), Ok(()));
}

#[test]
fn magic_differing_in_one_byte_is_rejected() {
    let magic = magic_number();
    for position in 0..4 {
        for flipped_bit in 0..8 {
            let mut token = magic;
            token[position] ^= 1 << flipped_bit;
            assert_eq!(check_magic(&token), Err(HandshakeError::BadMagic));
        }
    }
    assert_eq!(check_magic(&[b's', b'p', b'e', b'd']), Err(HandshakeError::BadMagic));
    assert_eq!(check_magic(&[0, 0, 0, 0]), Err(HandshakeError::BadMagic));
}

#[test]
fn mode_byte_zero_is_rejected() {
    assert_eq!(decode_mode(0), Err(HandshakeError::InvalidMode));
}

#[test]
fn mode_byte_with_a_high_bit_is_rejected() {
    for byte in 4..=255u8 {
        assert_eq!(decode_mode(byte), Err(HandshakeError::InvalidMode));
    }
}

#[test]
fn mode_bytes_one_to_three_decode() {
    assert_eq!(decode_mode(1), Ok(Mode { up: true, down: false }));
    assert_eq!(decode_mode(2), Ok(Mode { up: false, down: true }));
    assert_eq!(decode_mode(3), Ok(Mode { up: true, down: true }));
}

#[test]
fn handshake_of_both_is_sped_and_three() {
    assert_eq!(encode_handshake(Mode::both()), [b'S', b'P', b'E', b'D', 3]);
    assert_eq!(encode_handshake(Mode::up()), [b'S', b'P', b'E', b'D', 1]);
    assert_eq!(encode_handshake(Mode::down()), [b'S', b'P', b'E', b'D', 2]);
}

#[test]
fn round_trip_of_both() {
    let decoded = decode_handshake(&encode_handshake(Mode::up().union(Mode::down())));
    let mode = decoded.unwrap();
    assert!(mode.contains(Mode::up()));
    assert!(mode.contains(Mode::down()));
    assert_eq!(Mode::from_str("both"), Ok(mode));
}

#[test]
fn round_trip_of_each_mode_with_a_direction() {
    for mode in [Mode::up(), Mode::down(), Mode::both()] {
        assert_eq!(decode_handshake(&encode_handshake(mode)), Ok(mode));
    }
}

#[test]
fn handshake_of_the_empty_mode_is_rejected() {
    let frame = encode_handshake(Mode::empty());
    assert_eq!(frame, [b'S', b'P', b'E', b'D', 0]);
    assert_eq!(decode_handshake(&frame), Err(HandshakeError::InvalidMode));
}

#[test]
fn wrong_magic_wins_over_wrong_mode() {
    assert_eq!(decode_handshake(&[b'S', b'P', b'E', b'X', 9]), Err(HandshakeError::BadMagic));
    assert_eq!(decode_handshake(&[b'X', b'P', b'E', b'D', 1]), Err(HandshakeError::BadMagic));
    assert_eq!(decode_handshake(&[b'S', b'P', b'E', b'D', 9]), Err(HandshakeError::InvalidMode));
}
