//! The set of transfer directions that one run exercises.

use vstd::prelude::*;

verus! {

/// A set over the two directions. `up` is client to server, `down` is server
/// to client.
#[derive(Clone, Copy, Debug, PartialEq, Eq, Structural)]
pub struct Mode {
    pub up: bool,
    pub down: bool,
}

/// The mode that a wire value stands for: bit 0 asks for `up`, bit 1 for
/// `down`, and a value with any other bit set stands for none.
pub open spec fn mode_of_bits(bits: u8) -> Option<Mode> {
    if bits & 0xfc != 0 {
        None
    } else {
        Some(Mode { up: bits & 1 != 0, down: bits & 2 != 0 })
    }
}

impl Mode {
    /// The wire value of a mode: bit 0 stands for `up`, bit 1 for `down`.
    pub open spec fn wire_bits(self) -> u8 {
        (if self.up { 1u8 } else { 0u8 }) | (if self.down { 2u8 } else { 0u8 })
    }

    /// Every direction of `other` is one of `self`.
    pub open spec fn includes(self, other: Mode) -> bool {
        (other.up ==> self.up) && (other.down ==> self.down)
    }

    /// The mode without a direction.
    pub fn empty() -> (mode: Mode)
        ensures
            !mode.up,
            !mode.down,
    {
        Mode { up: false, down: false }
    }

    /// Upstream alone.
    pub fn up() -> (mode: Mode)
        ensures
            mode.up,
            !mode.down,
    {
        Mode { up: true, down: false }
    }

    /// Downstream alone.
    pub fn down() -> (mode: Mode)
        ensures
            !mode.up,
            mode.down,
    {
        Mode { up: false, down: true }
    }

    /// Both directions.
    pub fn both() -> (mode: Mode)
        ensures
            mode.up,
            mode.down,
    {
        Mode { up: true, down: true }
    }

    /// The mode that `bits` stands for, if it stands for one.
    pub fn from_bits(bits: u8) -> (mode: Option<Mode>)
        ensures
            mode == mode_of_bits(bits),
    {
        if bits & 0xfc != 0 {
            None
        } else {
            Some(Mode { up: bits & 1 != 0, down: bits & 2 != 0 })
        }
    }

    /// The wire value of the mode.
    pub fn bits(&self) -> (bits: u8)
        ensures
            bits == self.wire_bits(),
    {
        let low: u8 = if self.up { 1 } else { 0 };
        let high: u8 = if self.down { 2 } else { 0 };
        low | high
    }

    pub fn is_empty(&self) -> (empty: bool)
        ensures
            empty == (!self.up && !self.down),
    {
        !self.up && !self.down
    }

    /// Whether every direction of `other` is one of this mode.
    pub fn contains(&self, other: Mode) -> (held: bool)
        ensures
            held == self.includes(other),
    {
        (!other.up || self.up) && (!other.down || self.down)
    }

    /// The directions of either mode.
    pub fn union(self, other: Mode) -> (joined: Mode)
        ensures
            joined.up == (self.up || other.up),
            joined.down == (self.down || other.down),
    {
        Mode { up: self.up || other.up, down: self.down || other.down }
    }

    /// Reads a mode from its name: `up`, `down` or `both`. Any other text is
    /// handed back as the error.
    pub fn from_str(s: &str) -> (parsed: Result<Mode, String>)
        ensures
            s@ == "up"@ ==> parsed == Ok::<Mode, String>(Mode { up: true, down: false }),
            s@ == "down"@ ==> parsed == Ok::<Mode, String>(Mode { up: false, down: true }),
            s@ == "both"@ ==> parsed == Ok::<Mode, String>(Mode { up: true, down: true }),
            s@ != "up"@ && s@ != "down"@ && s@ != "both"@ ==> parsed is Err && parsed->Err_0@
                == s@,
    {
        proof {
            reveal_strlit("up");
            reveal_strlit("down");
            reveal_strlit("both");
            assert("up"@.len() == 2 && "down"@.len() == 4 && "both"@.len() == 4);
            assert("down"@[0] == 'd' && "both"@[0] == 'b');
        }
        let owned = s.to_owned();
        if owned == "up".to_owned() {
            Ok(Mode::up())
        } else if owned == "down".to_owned() {
            Ok(Mode::down())
        } else if owned == "both".to_owned() {
            Ok(Mode::both())
        } else {
            Err(owned)
        }
    }
}

impl std::str::FromStr for Mode {
    type Err = String;

    /// Reads a mode from its name, as the function of the same name on
    /// `Mode` does: `up`, `down` or `both` gives that mode, and any other
    /// text is handed back as the error.
    fn from_str(s: &str) -> (parsed: Result<Mode, String>)
        ensures
            s@ == "up"@ ==> parsed == Ok::<Mode, String>(Mode { up: true, down: false }),
            s@ == "down"@ ==> parsed == Ok::<Mode, String>(Mode { up: false, down: true }),
            s@ == "both"@ ==> parsed == Ok::<Mode, String>(Mode { up: true, down: true }),
            s@ != "up"@ && s@ != "down"@ && s@ != "both"@ ==> parsed is Err && parsed->Err_0@
                == s@,
    {
        Mode::from_str(s)
    }
}

/// The wire value of a mode has no bit set but bits 0 and 1, and it is zero
/// for the empty mode alone.
pub proof fn lemma_wire_bits_range(mode: Mode)
    ensures
        mode.wire_bits() & 0xfc == 0,
        mode.wire_bits() == 0 <==> !mode.up && !mode.down,
{
    assert(0u8 | 0u8 == 0 && 1u8 | 0u8 == 1 && 0u8 | 2u8 == 2 && 1u8 | 2u8 == 3) by (bit_vector);
    assert(0u8 & 0xfc == 0 && 1u8 & 0xfc == 0 && 2u8 & 0xfc == 0 && 3u8 & 0xfc == 0)
        by (bit_vector);
}

/// Writing a mode as its wire value and reading that value gives the mode
/// back.
pub proof fn lemma_bits_round_trip(mode: Mode)
    ensures
        mode_of_bits(mode.wire_bits()) == Some(mode),
{
    assert(0u8 | 0u8 == 0 && 1u8 | 0u8 == 1 && 0u8 | 2u8 == 2 && 1u8 | 2u8 == 3) by (bit_vector);
    assert(0u8 & 0xfc == 0 && 1u8 & 0xfc == 0 && 2u8 & 0xfc == 0 && 3u8 & 0xfc == 0)
        by (bit_vector);
    assert(0u8 & 1 == 0 && 1u8 & 1 == 1 && 2u8 & 1 == 0 && 3u8 & 1 == 1) by (bit_vector);
    assert(0u8 & 2 == 0 && 1u8 & 2 == 0 && 2u8 & 2 == 2 && 3u8 & 2 == 2) by (bit_vector);
}

/// A wire value that stands for a mode is the wire value of that mode.
pub proof fn lemma_mode_of_bits_inverse(bits: u8)
    ensures
        mode_of_bits(bits) matches Some(mode) ==> mode.wire_bits() == bits,
{
    assert(bits & 0xfc == 0 ==> (if bits & 1 != 0 {
        1u8
    } else {
        0u8
    }) | (if bits & 2 != 0 {
        2u8
    } else {
        0u8
    }) == bits) by (bit_vector);
}

} // verus!
