//! The state alphabet of the machine and the two mode flags.

use vstd::prelude::*;

verus! {

/// Number of states, `Unknown` included.
pub const STATE_VARIANTS: usize = 17;

/// A state of the parser. Each state but `Unknown` consumes one field of the blob.
#[allow(non_camel_case_types)]
#[derive(Copy, Clone, Debug, PartialEq, Eq, Structural)]
pub enum State {
    Initial,
    SKIP8,
    TOTALSIZE4,
    BUFSIZE4,
    SkipToOffset,
    SkipU16_2,
    OffsetPubkey16,
    OffsetPrivkey16,
    Skip4,
    AttrLen,
    SkipAttr4,
    TLVType,
    TLVLen,
    TLVValue,
    SecondaryKey,
    Signature,
    Unknown,
}

impl State {
    /// The position of the state in the alphabet, `Initial` being 0.
    pub open spec fn ordinal(self) -> nat {
        match self {
            State::Initial => 0,
            State::SKIP8 => 1,
            State::TOTALSIZE4 => 2,
            State::BUFSIZE4 => 3,
            State::SkipToOffset => 4,
            State::SkipU16_2 => 5,
            State::OffsetPubkey16 => 6,
            State::OffsetPrivkey16 => 7,
            State::Skip4 => 8,
            State::AttrLen => 9,
            State::SkipAttr4 => 10,
            State::TLVType => 11,
            State::TLVLen => 12,
            State::TLVValue => 13,
            State::SecondaryKey => 14,
            State::Signature => 15,
            State::Unknown => 16,
        }
    }

    /// The state at position `n`; every position past the last is `Unknown`.
    pub open spec fn at(n: nat) -> State {
        if n == 0 {
            State::Initial
        } else if n == 1 {
            State::SKIP8
        } else if n == 2 {
            State::TOTALSIZE4
        } else if n == 3 {
            State::BUFSIZE4
        } else if n == 4 {
            State::SkipToOffset
        } else if n == 5 {
            State::SkipU16_2
        } else if n == 6 {
            State::OffsetPubkey16
        } else if n == 7 {
            State::OffsetPrivkey16
        } else if n == 8 {
            State::Skip4
        } else if n == 9 {
            State::AttrLen
        } else if n == 10 {
            State::SkipAttr4
        } else if n == 11 {
            State::TLVType
        } else if n == 12 {
            State::TLVLen
        } else if n == 13 {
            State::TLVValue
        } else if n == 14 {
            State::SecondaryKey
        } else if n == 15 {
            State::Signature
        } else {
            State::Unknown
        }
    }

    /// This state stands at or before `other` in the alphabet.
    pub open spec fn upto(self, other: State) -> bool {
        self.ordinal() <= other.ordinal()
    }

    /// This state stands after `other` in the alphabet.
    pub open spec fn past(self, other: State) -> bool {
        self.ordinal() > other.ordinal()
    }

    /// The state that follows this one in the alphabet.
    pub open spec fn successor(self) -> State {
        State::at(self.ordinal() + 1)
    }

    /// The state numbered `n`.
    pub fn from_primitive(n: u8) -> (s: State)
        ensures
            s == State::at(n as nat),
    {
        match n {
            0 => State::Initial,
            1 => State::SKIP8,
            2 => State::TOTALSIZE4,
            3 => State::BUFSIZE4,
            4 => State::SkipToOffset,
            5 => State::SkipU16_2,
            6 => State::OffsetPubkey16,
            7 => State::OffsetPrivkey16,
            8 => State::Skip4,
            9 => State::AttrLen,
            10 => State::SkipAttr4,
            11 => State::TLVType,
            12 => State::TLVLen,
            13 => State::TLVValue,
            14 => State::SecondaryKey,
            15 => State::Signature,
            _ => State::Unknown,
        }
    }

    /// The number of the state.
    pub fn to_primitive(self) -> (n: u8)
        ensures
            n as nat == self.ordinal(),
            n < STATE_VARIANTS,
    {
        match self {
            State::Initial => 0,
            State::SKIP8 => 1,
            State::TOTALSIZE4 => 2,
            State::BUFSIZE4 => 3,
            State::SkipToOffset => 4,
            State::SkipU16_2 => 5,
            State::OffsetPubkey16 => 6,
            State::OffsetPrivkey16 => 7,
            State::Skip4 => 8,
            State::AttrLen => 9,
            State::SkipAttr4 => 10,
            State::TLVType => 11,
            State::TLVLen => 12,
            State::TLVValue => 13,
            State::SecondaryKey => 14,
            State::Signature => 15,
            State::Unknown => 16,
        }
    }
}

/// Numbering the states and reading the number back gives the same state.
pub proof fn lemma_ordinal_roundtrip(s: State)
    ensures
        State::at(s.ordinal()) == s,
        s.ordinal() < STATE_VARIANTS,
{
}

/// Whether the blob attests one symmetric key or a key pair.
#[derive(Copy, Clone, Debug, PartialEq, Eq, Structural)]
pub enum Mode {
    Symmetric,
    Asymmetric,
}

impl Default for Mode {
    fn default() -> (m: Mode)
        ensures
            m == Mode::Asymmetric,
    {
        Mode::Asymmetric
    }
}

/// Which attribute list a record belongs to: that of the public key, or that
/// of the private key.
#[derive(Copy, Clone, Debug, PartialEq, Eq, Structural)]
pub enum KeyMode {
    Primary,
    Secondary,
}

impl Default for KeyMode {
    fn default() -> (m: KeyMode)
        ensures
            m == KeyMode::Primary,
    {
        KeyMode::Primary
    }
}

impl Default for State {
    fn default() -> (s: State)
        ensures
            s == State::Unknown,
    {
        State::Unknown
    }
}

} // verus!
