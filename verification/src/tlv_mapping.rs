//! The attribute catalogue and the decoders that turn the bytes of an
//! attribute into a typed value with a printable form.

use crate::text::{
    ascii_string, ascii_text, byte_list, decimal_digits, hex_digits, hex_encode, lemma_decimal_is_ascii,
    lemma_hex_is_ascii, lemma_list_is_ascii, list_encode, push_decimal,
};
use vstd::prelude::*;
use vstd::slice::slice_to_vec;
use vstd::utf8::*;

verus! {

/// What an attribute's bytes stand for.
pub enum Decoded {
    Bool(bool),
    ClassKey(u32),
    HexStr128(Seq<char>),
    Bytes(Seq<char>),
    RawBytes(Seq<u8>),
    ByteStr(Seq<char>),
    Int(u32),
}

/// The big-endian number that the bytes spell, each byte shifting the earlier
/// ones up by eight bits; bits shifted past the 32nd are lost.
pub open spec fn be_fold(bytes: Seq<u8>) -> u32
    decreases bytes.len(),
{
    if bytes.len() == 0 {
        0
    } else {
        (be_fold(bytes.drop_last()) << 8) | (bytes.last() as u32)
    }
}

/// How many bytes stand before the first zero byte; the length if there is none.
pub open spec fn nul_index(bytes: Seq<u8>) -> int
    decreases bytes.len(),
{
    if bytes.len() == 0 || bytes[0] == 0 {
        0
    } else {
        1 + nul_index(bytes.drop_first())
    }
}

/// The bytes before the first zero byte.
pub open spec fn until_nul(bytes: Seq<u8>) -> Seq<u8> {
    bytes.take(nul_index(bytes))
}

/// `nul_index` is the one position with no zero before it and a zero, or the
/// end, at it.
pub proof fn lemma_nul_index(bytes: Seq<u8>, k: int)
    requires
        0 <= k <= bytes.len(),
        forall|j: int| 0 <= j < k ==> bytes[j] != 0,
        k == bytes.len() || bytes[k] == 0,
    ensures
        nul_index(bytes) == k,
    decreases bytes.len(),
{
    if bytes.len() == 0 || bytes[0] == 0 {
    } else {
        let rest = bytes.drop_first();
        assert forall|j: int| 0 <= j < k - 1 implies rest[j] != 0 by {
            assert(rest[j] == bytes[j + 1]);
        }
        lemma_nul_index(rest, k - 1);
    }
}

/// The name of a key class.
pub open spec fn class_name(class: u32) -> Seq<char> {
    if class == 2 {
        "public-key"@
    } else if class == 3 {
        "private-key"@
    } else if class == 4 {
        "secret-key (symmetric)"@
    } else {
        ascii_text(decimal_digits(class as nat))
    }
}

/// The printable form of a value.
pub open spec fn printable(d: Decoded) -> Seq<char> {
    match d {
        Decoded::Bool(b) => if b {
            "true"@
        } else {
            "false"@
        },
        Decoded::ClassKey(c) => class_name(c),
        Decoded::HexStr128(s) => s,
        Decoded::Bytes(s) => s,
        Decoded::RawBytes(b) => ascii_text(byte_list(b)),
        Decoded::ByteStr(s) => s,
        Decoded::Int(v) => ascii_text(decimal_digits(v as nat)),
    }
}

/// A decoder of one semantic kind: from the bytes of an attribute to a value,
/// and from the value to its printable form.
pub trait EncodeTLV: Sized + std::ops::Deref {
    /// What this value stands for.
    spec fn decoded(&self) -> Decoded;

    /// What the bytes decode to; `None` where they do not decode.
    spec fn decoding(bytes: Seq<u8>) -> Option<Decoded>;

    /// Decodes `bytes`. The declared length `len` is not consulted.
    fn encode(bytes: &[u8], len: u32) -> (r: Option<Self>)
        ensures
            r is Some <==> Self::decoding(bytes@) is Some,
            r matches Some(v) ==> Some(v.decoded()) == Self::decoding(bytes@),
    ;

    /// The printable form.
    fn to_str(&self) -> (s: String)
        ensures
            s@ == printable(self.decoded()),
    ;
}

/// The class of a key: 2 for a public key, 3 for a private key, 4 for a secret
/// (symmetric) key.
#[derive(Debug)]
pub struct ClassKey(u32);

impl EncodeTLV for ClassKey {
    closed spec fn decoded(&self) -> Decoded {
        Decoded::ClassKey(self.0)
    }

    open spec fn decoding(bytes: Seq<u8>) -> Option<Decoded> {
        if bytes.len() >= 1 && 2 <= bytes[0] <= 4 {
            Some(Decoded::ClassKey(bytes[0] as u32))
        } else {
            None
        }
    }

    fn encode(bytes: &[u8], len: u32) -> (r: Option<Self>) {
        if bytes.len() >= 1 && 2 <= bytes[0] && bytes[0] <= 4 {
            Some(ClassKey(bytes[0] as u32))
        } else {
            None
        }
    }

    fn to_str(&self) -> (s: String) {
        if self.0 == 2 {
            "public-key".to_owned()
        } else if self.0 == 3 {
            "private-key".to_owned()
        } else if self.0 == 4 {
            "secret-key (symmetric)".to_owned()
        } else {
            let mut out: Vec<u8> = Vec::new();
            push_decimal(&mut out, self.0);
            proof {
                lemma_decimal_is_ascii(self.0 as nat);
                assert(out@ =~= decimal_digits(self.0 as nat));
            }
            ascii_string(out)
        }
    }
}

/// A flag.
#[derive(Debug)]
pub struct Bool(bool);

impl EncodeTLV for Bool {
    closed spec fn decoded(&self) -> Decoded {
        Decoded::Bool(self.0)
    }

    open spec fn decoding(bytes: Seq<u8>) -> Option<Decoded> {
        if bytes.len() >= 1 {
            Some(Decoded::Bool(bytes[0] != 0))
        } else {
            None
        }
    }

    fn encode(bytes: &[u8], _len: u32) -> (r: Option<Self>) {
        if bytes.len() >= 1 {
            Some(Bool(bytes[0] != 0))
        } else {
            None
        }
    }

    fn to_str(&self) -> (s: String) {
        if self.0 {
            "true".to_owned()
        } else {
            "false".to_owned()
        }
    }
}

/// Text held as UTF-8 over the whole value.
#[derive(Debug)]
pub struct HexStr128(String);

impl EncodeTLV for HexStr128 {
    closed spec fn decoded(&self) -> Decoded {
        Decoded::HexStr128(self.0@)
    }

    open spec fn decoding(bytes: Seq<u8>) -> Option<Decoded> {
        if valid_utf8(bytes) {
            Some(Decoded::HexStr128(decode_utf8(bytes)))
        } else {
            None
        }
    }

    fn encode(bytes: &[u8], _len: u32) -> (r: Option<Self>) {
        match String::from_utf8(slice_to_vec(bytes)) {
            Ok(s) => Some(HexStr128(s)),
            Err(_) => None,
        }
    }

    fn to_str(&self) -> (s: String) {
        self.0.clone()
    }
}

/// Bytes shown as lowercase hexadecimal.
#[derive(Debug)]
pub struct Bytes(String);

impl EncodeTLV for Bytes {
    closed spec fn decoded(&self) -> Decoded {
        Decoded::Bytes(self.0@)
    }

    open spec fn decoding(bytes: Seq<u8>) -> Option<Decoded> {
        Some(Decoded::Bytes(ascii_text(hex_digits(bytes))))
    }

    fn encode(bytes: &[u8], _len: u32) -> (r: Option<Self>) {
        let digits = hex_encode(bytes);
        proof {
            lemma_hex_is_ascii(bytes@);
        }
        Some(Bytes(ascii_string(digits)))
    }

    fn to_str(&self) -> (s: String) {
        self.0.clone()
    }
}

/// Text held as UTF-8 up to the first zero byte.
#[derive(Debug)]
pub struct ByteStr(String);

impl EncodeTLV for ByteStr {
    closed spec fn decoded(&self) -> Decoded {
        Decoded::ByteStr(self.0@)
    }

    open spec fn decoding(bytes: Seq<u8>) -> Option<Decoded> {
        if valid_utf8(until_nul(bytes)) {
            Some(Decoded::ByteStr(decode_utf8(until_nul(bytes))))
        } else {
            None
        }
    }

    fn encode(bytes: &[u8], _len: u32) -> (r: Option<Self>) {
        let mut head: Vec<u8> = Vec::new();
        let mut i: usize = 0;
        while i < bytes.len() && bytes[i] != 0
            invariant
                i <= bytes.len(),
                head@ == bytes@.take(i as int),
                forall|j: int| 0 <= j < i ==> bytes@[j] != 0,
            decreases bytes.len() - i,
        {
            head.push(bytes[i]);
            assert(head@ =~= bytes@.take(i + 1));
            i += 1;
        }
        proof {
            lemma_nul_index(bytes@, i as int);
        }
        match String::from_utf8(head) {
            Ok(s) => Some(ByteStr(s)),
            Err(_) => None,
        }
    }

    fn to_str(&self) -> (s: String) {
        self.0.clone()
    }
}

/// Bytes that did not decode, kept as they came.
#[derive(Debug)]
pub struct RawBytes(Vec<u8>);

impl EncodeTLV for RawBytes {
    closed spec fn decoded(&self) -> Decoded {
        Decoded::RawBytes(self.0@)
    }

    open spec fn decoding(bytes: Seq<u8>) -> Option<Decoded> {
        Some(Decoded::RawBytes(bytes))
    }

    fn encode(bytes: &[u8], _len: u32) -> (r: Option<Self>) {
        Some(RawBytes(slice_to_vec(bytes)))
    }

    fn to_str(&self) -> (s: String) {
        let out = list_encode(self.0.as_slice());
        proof {
            lemma_list_is_ascii(self.0@);
        }
        ascii_string(out)
    }
}

/// A big-endian unsigned number.
#[derive(Debug)]
pub struct Int(u32);

impl EncodeTLV for Int {
    closed spec fn decoded(&self) -> Decoded {
        Decoded::Int(self.0)
    }

    open spec fn decoding(bytes: Seq<u8>) -> Option<Decoded> {
        Some(Decoded::Int(be_fold(bytes)))
    }

    fn encode(bytes: &[u8], _len: u32) -> (r: Option<Self>) {
        let mut val: u32 = 0;
        let mut i: usize = 0;
        while i < bytes.len()
            invariant
                i <= bytes.len(),
                val == be_fold(bytes@.take(i as int)),
            decreases bytes.len() - i,
        {
            proof {
                let next = bytes@.take(i + 1);
                assert(next.drop_last() =~= bytes@.take(i as int));
                assert(next.last() == bytes@[i as int]);
            }
            val = (val << 8) | (bytes[i] as u32);
            i += 1;
        }
        assert(bytes@.take(i as int) =~= bytes@);
        Some(Int(val))
    }

    fn to_str(&self) -> (s: String) {
        let mut out: Vec<u8> = Vec::new();
        push_decimal(&mut out, self.0);
        proof {
            lemma_decimal_is_ascii(self.0 as nat);
            assert(out@ =~= decimal_digits(self.0 as nat));
        }
        ascii_string(out)
    }
}

impl std::ops::Deref for ClassKey {
    type Target = u32;

    fn deref(&self) -> (r: &u32)
        ensures
            self.decoded() == Decoded::ClassKey(*r),
    {
        &self.0
    }
}

impl std::ops::Deref for Bool {
    type Target = bool;

    fn deref(&self) -> (r: &bool)
        ensures
            self.decoded() == Decoded::Bool(*r),
    {
        &self.0
    }
}

impl std::ops::Deref for HexStr128 {
    type Target = String;

    fn deref(&self) -> (r: &String)
        ensures
            self.decoded() == Decoded::HexStr128(r@),
    {
        &self.0
    }
}

impl std::ops::Deref for Bytes {
    type Target = String;

    fn deref(&self) -> (r: &String)
        ensures
            self.decoded() == Decoded::Bytes(r@),
    {
        &self.0
    }
}

impl std::ops::Deref for ByteStr {
    type Target = String;

    fn deref(&self) -> (r: &String)
        ensures
            self.decoded() == Decoded::ByteStr(r@),
    {
        &self.0
    }
}

impl std::ops::Deref for RawBytes {
    type Target = [u8];

    fn deref(&self) -> (r: &[u8])
        ensures
            self.decoded() == Decoded::RawBytes(r@),
    {
        &self.0
    }
}

impl std::ops::Deref for Int {
    type Target = u32;

    fn deref(&self) -> (r: &u32)
        ensures
            self.decoded() == Decoded::Int(*r),
    {
        &self.0
    }
}

/// A decoded attribute value of any kind.
#[derive(Debug)]
pub enum TLVValue {
    Bool(Bool),
    ClassKey(ClassKey),
    HexStr128(HexStr128),
    Bytes(Bytes),
    RawBytes(RawBytes),
    ByteStr(ByteStr),
    Int(Int),
}

impl View for TLVValue {
    type V = Decoded;

    open spec fn view(&self) -> Decoded {
        match self {
            TLVValue::Bool(v) => v.decoded(),
            TLVValue::ClassKey(v) => v.decoded(),
            TLVValue::HexStr128(v) => v.decoded(),
            TLVValue::Bytes(v) => v.decoded(),
            TLVValue::RawBytes(v) => v.decoded(),
            TLVValue::ByteStr(v) => v.decoded(),
            TLVValue::Int(v) => v.decoded(),
        }
    }
}

impl TLVValue {
    /// The printable form of the value.
    pub fn to_str(&self) -> (s: String)
        ensures
            s@ == printable(self@),
    {
        match self {
            TLVValue::Bool(b) => b.to_str(),
            TLVValue::ClassKey(b) => b.to_str(),
            TLVValue::HexStr128(b) => b.to_str(),
            TLVValue::Bytes(b) => b.to_str(),
            TLVValue::RawBytes(b) => b.to_str(),
            TLVValue::ByteStr(b) => b.to_str(),
            TLVValue::Int(b) => b.to_str(),
        }
    }
}

/// The semantic kind of an attribute: how its bytes are read.
#[derive(Copy, Clone, Debug, PartialEq, Eq, Structural)]
pub enum Kind {
    Bool,
    Int,
    Bytes,
    ByteStr,
    HexStr128,
    ClassKey,
}

/// What bytes of the given kind decode to; `None` where they do not decode.
pub open spec fn decoding_as(kind: Kind, bytes: Seq<u8>) -> Option<Decoded> {
    match kind {
        Kind::Bool => Bool::decoding(bytes),
        Kind::Int => Int::decoding(bytes),
        Kind::Bytes => Bytes::decoding(bytes),
        Kind::ByteStr => ByteStr::decoding(bytes),
        Kind::HexStr128 => HexStr128::decoding(bytes),
        Kind::ClassKey => ClassKey::decoding(bytes),
    }
}

/// The value of an attribute of the given kind: what its bytes decode to, or
/// the raw bytes where they do not decode.
pub open spec fn decode_value(kind: Kind, bytes: Seq<u8>) -> Decoded {
    match decoding_as(kind, bytes) {
        Some(d) => d,
        None => Decoded::RawBytes(bytes),
    }
}

/// The attributes that the catalogue names. `UNKNOWN` stands for every tag
/// that the catalogue lacks.
#[allow(non_camel_case_types)]
#[derive(Copy, Clone, Debug, PartialEq, Eq, Structural)]
pub enum TLVMapping {
    /// Class of the key.
    OBJ_ATTR_CLASS,
    /// Identifies the key as a token key.
    OBJ_ATTR_TOKEN,
    /// Whether the key is private to its owner or shared.
    OBJ_ATTR_PRIVATE,
    /// Key description.
    OBJ_ATTR_LABEL,
    /// The key can be trusted for the application it was created for.
    OBJ_ATTR_TRUSTED,
    /// Subclass of the key.
    OBJ_ATTR_KEY_TYPE,
    /// Key identifier.
    OBJ_ATTR_ID,
    /// Always true for keys generated on the module.
    OBJ_ATTR_SENSITIVE,
    /// The key can encrypt data.
    OBJ_ATTR_ENCRYPT,
    /// The key can decrypt data.
    OBJ_ATTR_DECRYPT,
    /// The key can wrap other keys.
    OBJ_ATTR_WRAP,
    /// The key can unwrap other keys.
    OBJ_ATTR_UNWRAP,
    /// The key can sign.
    OBJ_ATTR_SIGN,
    /// The key can verify signatures.
    OBJ_ATTR_VERIFY,
    /// Other keys can be derived from the key.
    OBJ_ATTR_DERIVE,
    /// RSA modulus.
    OBJ_ATTR_MODULUS,
    /// RSA key size in bits.
    OBJ_ATTR_MODULUS_BITS,
    /// RSA public exponent.
    OBJ_ATTR_PUBLIC_EXPONENT,
    /// Length in bytes of the value.
    OBJ_ATTR_VALUE_LEN,
    /// The key can be extracted.
    OBJ_ATTR_EXTRACTABLE,
    /// The key was generated locally.
    OBJ_ATTR_LOCAL,
    /// The key can never be extracted.
    OBJ_ATTR_NEVER_EXTRACTABLE,
    /// The key has always been sensitive.
    OBJ_ATTR_ALWAYS_SENSITIVE,
    /// Key check value.
    OBJ_ATTR_KCV,
    /// Extended attribute 1.
    OBJ_EXT_ATTR1,
    /// Extended key check value.
    OBJ_ATTR_EKCV,
    /// The key can only be wrapped with a trusted wrapping key.
    OBJ_ATTR_WRAP_WITH_TRUSTED,
    /// The key can be split into parts.
    OBJ_ATTR_SPLITTABLE,
    /// The key is part of a split.
    OBJ_ATTR_IS_SPLIT,
    /// The key supports encryption.
    OBJ_ATTR_ENCRYPT_KEY_MECHANISMS,
    /// The key supports decryption.
    OBJ_ATTR_DECRYPT_KEY_MECHANISMS,
    /// The key supports signing.
    OBJ_ATTR_SIGN_KEY_MECHANISMS,
    /// The key supports signature verification.
    OBJ_ATTR_VERIFY_KEY_MECHANISMS,
    /// The key supports key wrapping.
    OBJ_ATTR_WRAP_KEY_MECHANISMS,
    /// The key supports key unwrapping.
    OBJ_ATTR_UNWAP_KEY_MECHANISMS,
    /// The key supports key derivation.
    OBJ_ATTR_DERIVE_KEY_MECHANISMS,
    /// An attribute the module itself does not name.
    OBJ_UNKNOWN,
    /// Signature.
    SIGNATURE,
    /// Any tag outside the catalogue.
    UNKNOWN,
}

impl TLVMapping {
    /// The tag of the attribute; `UNKNOWN` has none.
    pub open spec fn tag(self) -> Option<u32> {
        match self {
            TLVMapping::OBJ_ATTR_CLASS => Some(0x0000u32),
            TLVMapping::OBJ_ATTR_TOKEN => Some(0x0001u32),
            TLVMapping::OBJ_ATTR_PRIVATE => Some(0x0002u32),
            TLVMapping::OBJ_ATTR_LABEL => Some(0x0003u32),
            TLVMapping::OBJ_ATTR_TRUSTED => Some(0x0086u32),
            TLVMapping::OBJ_ATTR_KEY_TYPE => Some(0x0100u32),
            TLVMapping::OBJ_ATTR_ID => Some(0x0102u32),
            TLVMapping::OBJ_ATTR_SENSITIVE => Some(0x0103u32),
            TLVMapping::OBJ_ATTR_ENCRYPT => Some(0x0104u32),
            TLVMapping::OBJ_ATTR_DECRYPT => Some(0x0105u32),
            TLVMapping::OBJ_ATTR_WRAP => Some(0x0106u32),
            TLVMapping::OBJ_ATTR_UNWRAP => Some(0x0107u32),
            TLVMapping::OBJ_ATTR_SIGN => Some(0x0108u32),
            TLVMapping::OBJ_ATTR_VERIFY => Some(0x010Au32),
            TLVMapping::OBJ_ATTR_DERIVE => Some(0x010Cu32),
            TLVMapping::OBJ_ATTR_MODULUS => Some(0x0120u32),
            TLVMapping::OBJ_ATTR_MODULUS_BITS => Some(0x0121u32),
            TLVMapping::OBJ_ATTR_PUBLIC_EXPONENT => Some(0x0122u32),
            TLVMapping::OBJ_ATTR_VALUE_LEN => Some(0x0161u32),
            TLVMapping::OBJ_ATTR_EXTRACTABLE => Some(0x0162u32),
            TLVMapping::OBJ_ATTR_LOCAL => Some(0x0163u32),
            TLVMapping::OBJ_ATTR_NEVER_EXTRACTABLE => Some(0x0164u32),
            TLVMapping::OBJ_ATTR_ALWAYS_SENSITIVE => Some(0x0165u32),
            TLVMapping::OBJ_ATTR_KCV => Some(0x0173u32),
            TLVMapping::OBJ_EXT_ATTR1 => Some(0x1000u32),
            TLVMapping::OBJ_ATTR_EKCV => Some(0x1003u32),
            TLVMapping::OBJ_ATTR_WRAP_WITH_TRUSTED => Some(0x0210u32),
            TLVMapping::OBJ_ATTR_SPLITTABLE => Some(0x80000002u32),
            TLVMapping::OBJ_ATTR_IS_SPLIT => Some(0x80000003u32),
            TLVMapping::OBJ_ATTR_ENCRYPT_KEY_MECHANISMS => Some(0x80000174u32),
            TLVMapping::OBJ_ATTR_DECRYPT_KEY_MECHANISMS => Some(0x80000175u32),
            TLVMapping::OBJ_ATTR_SIGN_KEY_MECHANISMS => Some(0x80000176u32),
            TLVMapping::OBJ_ATTR_VERIFY_KEY_MECHANISMS => Some(0x80000177u32),
            TLVMapping::OBJ_ATTR_WRAP_KEY_MECHANISMS => Some(0x80000178u32),
            TLVMapping::OBJ_ATTR_UNWAP_KEY_MECHANISMS => Some(0x80000179u32),
            TLVMapping::OBJ_ATTR_DERIVE_KEY_MECHANISMS => Some(0x80000180u32),
            TLVMapping::OBJ_UNKNOWN => Some(0x80000000u32),
            TLVMapping::SIGNATURE => Some(0xFFFFFF01u32),
            TLVMapping::UNKNOWN => None,
        }
    }

    /// The kind of the attribute; a tag outside the catalogue is read as `Bytes`.
    pub open spec fn kind_of(self) -> Kind {
        match self {
            TLVMapping::OBJ_ATTR_CLASS => Kind::ClassKey,
            TLVMapping::OBJ_ATTR_TOKEN => Kind::Bytes,
            TLVMapping::OBJ_ATTR_PRIVATE => Kind::Bool,
            TLVMapping::OBJ_ATTR_LABEL => Kind::ByteStr,
            TLVMapping::OBJ_ATTR_TRUSTED => Kind::Bool,
            TLVMapping::OBJ_ATTR_KEY_TYPE => Kind::Bytes,
            TLVMapping::OBJ_ATTR_ID => Kind::HexStr128,
            TLVMapping::OBJ_ATTR_SENSITIVE => Kind::Bool,
            TLVMapping::OBJ_ATTR_ENCRYPT => Kind::Bool,
            TLVMapping::OBJ_ATTR_DECRYPT => Kind::Bool,
            TLVMapping::OBJ_ATTR_WRAP => Kind::Bool,
            TLVMapping::OBJ_ATTR_UNWRAP => Kind::Bool,
            TLVMapping::OBJ_ATTR_SIGN => Kind::Bool,
            TLVMapping::OBJ_ATTR_VERIFY => Kind::Bool,
            TLVMapping::OBJ_ATTR_DERIVE => Kind::Bool,
            TLVMapping::OBJ_ATTR_MODULUS => Kind::Bytes,
            TLVMapping::OBJ_ATTR_MODULUS_BITS => Kind::Int,
            TLVMapping::OBJ_ATTR_PUBLIC_EXPONENT => Kind::Int,
            TLVMapping::OBJ_ATTR_VALUE_LEN => Kind::Int,
            TLVMapping::OBJ_ATTR_EXTRACTABLE => Kind::Bool,
            TLVMapping::OBJ_ATTR_LOCAL => Kind::Bool,
            TLVMapping::OBJ_ATTR_NEVER_EXTRACTABLE => Kind::Bool,
            TLVMapping::OBJ_ATTR_ALWAYS_SENSITIVE => Kind::Bool,
            TLVMapping::OBJ_ATTR_KCV => Kind::Bytes,
            TLVMapping::OBJ_EXT_ATTR1 => Kind::Bytes,
            TLVMapping::OBJ_ATTR_EKCV => Kind::Bytes,
            TLVMapping::OBJ_ATTR_WRAP_WITH_TRUSTED => Kind::Bool,
            TLVMapping::OBJ_ATTR_SPLITTABLE => Kind::Bool,
            TLVMapping::OBJ_ATTR_IS_SPLIT => Kind::Bool,
            TLVMapping::OBJ_ATTR_ENCRYPT_KEY_MECHANISMS => Kind::Bool,
            TLVMapping::OBJ_ATTR_DECRYPT_KEY_MECHANISMS => Kind::Bool,
            TLVMapping::OBJ_ATTR_SIGN_KEY_MECHANISMS => Kind::Bool,
            TLVMapping::OBJ_ATTR_VERIFY_KEY_MECHANISMS => Kind::Bool,
            TLVMapping::OBJ_ATTR_WRAP_KEY_MECHANISMS => Kind::Bool,
            TLVMapping::OBJ_ATTR_UNWAP_KEY_MECHANISMS => Kind::Bool,
            TLVMapping::OBJ_ATTR_DERIVE_KEY_MECHANISMS => Kind::Bool,
            TLVMapping::OBJ_UNKNOWN => Kind::Bytes,
            TLVMapping::SIGNATURE => Kind::ByteStr,
            TLVMapping::UNKNOWN => Kind::Bytes,
        }
    }

    /// The name of the attribute.
    pub open spec fn name_of(self) -> Seq<char> {
        match self {
            TLVMapping::OBJ_ATTR_CLASS => "OBJ_ATTR_CLASS"@,
            TLVMapping::OBJ_ATTR_TOKEN => "OBJ_ATTR_TOKEN"@,
            TLVMapping::OBJ_ATTR_PRIVATE => "OBJ_ATTR_PRIVATE"@,
            TLVMapping::OBJ_ATTR_LABEL => "OBJ_ATTR_LABEL"@,
            TLVMapping::OBJ_ATTR_TRUSTED => "OBJ_ATTR_TRUSTED"@,
            TLVMapping::OBJ_ATTR_KEY_TYPE => "OBJ_ATTR_KEY_TYPE"@,
            TLVMapping::OBJ_ATTR_ID => "OBJ_ATTR_ID"@,
            TLVMapping::OBJ_ATTR_SENSITIVE => "OBJ_ATTR_SENSITIVE"@,
            TLVMapping::OBJ_ATTR_ENCRYPT => "OBJ_ATTR_ENCRYPT"@,
            TLVMapping::OBJ_ATTR_DECRYPT => "OBJ_ATTR_DECRYPT"@,
            TLVMapping::OBJ_ATTR_WRAP => "OBJ_ATTR_WRAP"@,
            TLVMapping::OBJ_ATTR_UNWRAP => "OBJ_ATTR_UNWRAP"@,
            TLVMapping::OBJ_ATTR_SIGN => "OBJ_ATTR_SIGN"@,
            TLVMapping::OBJ_ATTR_VERIFY => "OBJ_ATTR_VERIFY"@,
            TLVMapping::OBJ_ATTR_DERIVE => "OBJ_ATTR_DERIVE"@,
            TLVMapping::OBJ_ATTR_MODULUS => "OBJ_ATTR_MODULUS"@,
            TLVMapping::OBJ_ATTR_MODULUS_BITS => "OBJ_ATTR_MODULUS_BITS"@,
            TLVMapping::OBJ_ATTR_PUBLIC_EXPONENT => "OBJ_ATTR_PUBLIC_EXPONENT"@,
            TLVMapping::OBJ_ATTR_VALUE_LEN => "OBJ_ATTR_VALUE_LEN"@,
            TLVMapping::OBJ_ATTR_EXTRACTABLE => "OBJ_ATTR_EXTRACTABLE"@,
            TLVMapping::OBJ_ATTR_LOCAL => "OBJ_ATTR_LOCAL"@,
            TLVMapping::OBJ_ATTR_NEVER_EXTRACTABLE => "OBJ_ATTR_NEVER_EXTRACTABLE"@,
            TLVMapping::OBJ_ATTR_ALWAYS_SENSITIVE => "OBJ_ATTR_ALWAYS_SENSITIVE"@,
            TLVMapping::OBJ_ATTR_KCV => "OBJ_ATTR_KCV"@,
            TLVMapping::OBJ_EXT_ATTR1 => "OBJ_EXT_ATTR1"@,
            TLVMapping::OBJ_ATTR_EKCV => "OBJ_ATTR_EKCV"@,
            TLVMapping::OBJ_ATTR_WRAP_WITH_TRUSTED => "OBJ_ATTR_WRAP_WITH_TRUSTED"@,
            TLVMapping::OBJ_ATTR_SPLITTABLE => "OBJ_ATTR_SPLITTABLE"@,
            TLVMapping::OBJ_ATTR_IS_SPLIT => "OBJ_ATTR_IS_SPLIT"@,
            TLVMapping::OBJ_ATTR_ENCRYPT_KEY_MECHANISMS => "OBJ_ATTR_ENCRYPT_KEY_MECHANISMS"@,
            TLVMapping::OBJ_ATTR_DECRYPT_KEY_MECHANISMS => "OBJ_ATTR_DECRYPT_KEY_MECHANISMS"@,
            TLVMapping::OBJ_ATTR_SIGN_KEY_MECHANISMS => "OBJ_ATTR_SIGN_KEY_MECHANISMS"@,
            TLVMapping::OBJ_ATTR_VERIFY_KEY_MECHANISMS => "OBJ_ATTR_VERIFY_KEY_MECHANISMS"@,
            TLVMapping::OBJ_ATTR_WRAP_KEY_MECHANISMS => "OBJ_ATTR_WRAP_KEY_MECHANISMS"@,
            TLVMapping::OBJ_ATTR_UNWAP_KEY_MECHANISMS => "OBJ_ATTR_UNWAP_KEY_MECHANISMS"@,
            TLVMapping::OBJ_ATTR_DERIVE_KEY_MECHANISMS => "OBJ_ATTR_DERIVE_KEY_MECHANISMS"@,
            TLVMapping::OBJ_UNKNOWN => "OBJ_UNKNOWN"@,
            TLVMapping::SIGNATURE => "SIGNATURE"@,
            TLVMapping::UNKNOWN => "UNKNOWN"@,
        }
    }

    /// The catalogue entry with tag `val`, or `UNKNOWN` where there is none.
    pub fn from_int(val: u32) -> (m: TLVMapping)
        ensures
            m == catalogue(val),
    {
        let m = match val {
            0x0000 => TLVMapping::OBJ_ATTR_CLASS,
            0x0001 => TLVMapping::OBJ_ATTR_TOKEN,
            0x0002 => TLVMapping::OBJ_ATTR_PRIVATE,
            0x0003 => TLVMapping::OBJ_ATTR_LABEL,
            0x0086 => TLVMapping::OBJ_ATTR_TRUSTED,
            0x0100 => TLVMapping::OBJ_ATTR_KEY_TYPE,
            0x0102 => TLVMapping::OBJ_ATTR_ID,
            0x0103 => TLVMapping::OBJ_ATTR_SENSITIVE,
            0x0104 => TLVMapping::OBJ_ATTR_ENCRYPT,
            0x0105 => TLVMapping::OBJ_ATTR_DECRYPT,
            0x0106 => TLVMapping::OBJ_ATTR_WRAP,
            0x0107 => TLVMapping::OBJ_ATTR_UNWRAP,
            0x0108 => TLVMapping::OBJ_ATTR_SIGN,
            0x010A => TLVMapping::OBJ_ATTR_VERIFY,
            0x010C => TLVMapping::OBJ_ATTR_DERIVE,
            0x0120 => TLVMapping::OBJ_ATTR_MODULUS,
            0x0121 => TLVMapping::OBJ_ATTR_MODULUS_BITS,
            0x0122 => TLVMapping::OBJ_ATTR_PUBLIC_EXPONENT,
            0x0161 => TLVMapping::OBJ_ATTR_VALUE_LEN,
            0x0162 => TLVMapping::OBJ_ATTR_EXTRACTABLE,
            0x0163 => TLVMapping::OBJ_ATTR_LOCAL,
            0x0164 => TLVMapping::OBJ_ATTR_NEVER_EXTRACTABLE,
            0x0165 => TLVMapping::OBJ_ATTR_ALWAYS_SENSITIVE,
            0x0173 => TLVMapping::OBJ_ATTR_KCV,
            0x1000 => TLVMapping::OBJ_EXT_ATTR1,
            0x1003 => TLVMapping::OBJ_ATTR_EKCV,
            0x0210 => TLVMapping::OBJ_ATTR_WRAP_WITH_TRUSTED,
            0x80000002 => TLVMapping::OBJ_ATTR_SPLITTABLE,
            0x80000003 => TLVMapping::OBJ_ATTR_IS_SPLIT,
            0x80000174 => TLVMapping::OBJ_ATTR_ENCRYPT_KEY_MECHANISMS,
            0x80000175 => TLVMapping::OBJ_ATTR_DECRYPT_KEY_MECHANISMS,
            0x80000176 => TLVMapping::OBJ_ATTR_SIGN_KEY_MECHANISMS,
            0x80000177 => TLVMapping::OBJ_ATTR_VERIFY_KEY_MECHANISMS,
            0x80000178 => TLVMapping::OBJ_ATTR_WRAP_KEY_MECHANISMS,
            0x80000179 => TLVMapping::OBJ_ATTR_UNWAP_KEY_MECHANISMS,
            0x80000180 => TLVMapping::OBJ_ATTR_DERIVE_KEY_MECHANISMS,
            0x80000000 => TLVMapping::OBJ_UNKNOWN,
            0xFFFFFF01 => TLVMapping::SIGNATURE,
            _ => TLVMapping::UNKNOWN,
        };
        m
    }

    /// The kind of the attribute.
    pub fn kind(&self) -> (k: Kind)
        ensures
            k == self.kind_of(),
    {
        match self {
            TLVMapping::OBJ_ATTR_CLASS => Kind::ClassKey,
            TLVMapping::OBJ_ATTR_TOKEN => Kind::Bytes,
            TLVMapping::OBJ_ATTR_PRIVATE => Kind::Bool,
            TLVMapping::OBJ_ATTR_LABEL => Kind::ByteStr,
            TLVMapping::OBJ_ATTR_TRUSTED => Kind::Bool,
            TLVMapping::OBJ_ATTR_KEY_TYPE => Kind::Bytes,
            TLVMapping::OBJ_ATTR_ID => Kind::HexStr128,
            TLVMapping::OBJ_ATTR_SENSITIVE => Kind::Bool,
            TLVMapping::OBJ_ATTR_ENCRYPT => Kind::Bool,
            TLVMapping::OBJ_ATTR_DECRYPT => Kind::Bool,
            TLVMapping::OBJ_ATTR_WRAP => Kind::Bool,
            TLVMapping::OBJ_ATTR_UNWRAP => Kind::Bool,
            TLVMapping::OBJ_ATTR_SIGN => Kind::Bool,
            TLVMapping::OBJ_ATTR_VERIFY => Kind::Bool,
            TLVMapping::OBJ_ATTR_DERIVE => Kind::Bool,
            TLVMapping::OBJ_ATTR_MODULUS => Kind::Bytes,
            TLVMapping::OBJ_ATTR_MODULUS_BITS => Kind::Int,
            TLVMapping::OBJ_ATTR_PUBLIC_EXPONENT => Kind::Int,
            TLVMapping::OBJ_ATTR_VALUE_LEN => Kind::Int,
            TLVMapping::OBJ_ATTR_EXTRACTABLE => Kind::Bool,
            TLVMapping::OBJ_ATTR_LOCAL => Kind::Bool,
            TLVMapping::OBJ_ATTR_NEVER_EXTRACTABLE => Kind::Bool,
            TLVMapping::OBJ_ATTR_ALWAYS_SENSITIVE => Kind::Bool,
            TLVMapping::OBJ_ATTR_KCV => Kind::Bytes,
            TLVMapping::OBJ_EXT_ATTR1 => Kind::Bytes,
            TLVMapping::OBJ_ATTR_EKCV => Kind::Bytes,
            TLVMapping::OBJ_ATTR_WRAP_WITH_TRUSTED => Kind::Bool,
            TLVMapping::OBJ_ATTR_SPLITTABLE => Kind::Bool,
            TLVMapping::OBJ_ATTR_IS_SPLIT => Kind::Bool,
            TLVMapping::OBJ_ATTR_ENCRYPT_KEY_MECHANISMS => Kind::Bool,
            TLVMapping::OBJ_ATTR_DECRYPT_KEY_MECHANISMS => Kind::Bool,
            TLVMapping::OBJ_ATTR_SIGN_KEY_MECHANISMS => Kind::Bool,
            TLVMapping::OBJ_ATTR_VERIFY_KEY_MECHANISMS => Kind::Bool,
            TLVMapping::OBJ_ATTR_WRAP_KEY_MECHANISMS => Kind::Bool,
            TLVMapping::OBJ_ATTR_UNWAP_KEY_MECHANISMS => Kind::Bool,
            TLVMapping::OBJ_ATTR_DERIVE_KEY_MECHANISMS => Kind::Bool,
            TLVMapping::OBJ_UNKNOWN => Kind::Bytes,
            TLVMapping::SIGNATURE => Kind::ByteStr,
            TLVMapping::UNKNOWN => Kind::Bytes,
        }
    }

    /// The name of the attribute.
    pub fn name(&self) -> (s: &'static str)
        ensures
            s@ == self.name_of(),
    {
        match self {
            TLVMapping::OBJ_ATTR_CLASS => "OBJ_ATTR_CLASS",
            TLVMapping::OBJ_ATTR_TOKEN => "OBJ_ATTR_TOKEN",
            TLVMapping::OBJ_ATTR_PRIVATE => "OBJ_ATTR_PRIVATE",
            TLVMapping::OBJ_ATTR_LABEL => "OBJ_ATTR_LABEL",
            TLVMapping::OBJ_ATTR_TRUSTED => "OBJ_ATTR_TRUSTED",
            TLVMapping::OBJ_ATTR_KEY_TYPE => "OBJ_ATTR_KEY_TYPE",
            TLVMapping::OBJ_ATTR_ID => "OBJ_ATTR_ID",
            TLVMapping::OBJ_ATTR_SENSITIVE => "OBJ_ATTR_SENSITIVE",
            TLVMapping::OBJ_ATTR_ENCRYPT => "OBJ_ATTR_ENCRYPT",
            TLVMapping::OBJ_ATTR_DECRYPT => "OBJ_ATTR_DECRYPT",
            TLVMapping::OBJ_ATTR_WRAP => "OBJ_ATTR_WRAP",
            TLVMapping::OBJ_ATTR_UNWRAP => "OBJ_ATTR_UNWRAP",
            TLVMapping::OBJ_ATTR_SIGN => "OBJ_ATTR_SIGN",
            TLVMapping::OBJ_ATTR_VERIFY => "OBJ_ATTR_VERIFY",
            TLVMapping::OBJ_ATTR_DERIVE => "OBJ_ATTR_DERIVE",
            TLVMapping::OBJ_ATTR_MODULUS => "OBJ_ATTR_MODULUS",
            TLVMapping::OBJ_ATTR_MODULUS_BITS => "OBJ_ATTR_MODULUS_BITS",
            TLVMapping::OBJ_ATTR_PUBLIC_EXPONENT => "OBJ_ATTR_PUBLIC_EXPONENT",
            TLVMapping::OBJ_ATTR_VALUE_LEN => "OBJ_ATTR_VALUE_LEN",
            TLVMapping::OBJ_ATTR_EXTRACTABLE => "OBJ_ATTR_EXTRACTABLE",
            TLVMapping::OBJ_ATTR_LOCAL => "OBJ_ATTR_LOCAL",
            TLVMapping::OBJ_ATTR_NEVER_EXTRACTABLE => "OBJ_ATTR_NEVER_EXTRACTABLE",
            TLVMapping::OBJ_ATTR_ALWAYS_SENSITIVE => "OBJ_ATTR_ALWAYS_SENSITIVE",
            TLVMapping::OBJ_ATTR_KCV => "OBJ_ATTR_KCV",
            TLVMapping::OBJ_EXT_ATTR1 => "OBJ_EXT_ATTR1",
            TLVMapping::OBJ_ATTR_EKCV => "OBJ_ATTR_EKCV",
            TLVMapping::OBJ_ATTR_WRAP_WITH_TRUSTED => "OBJ_ATTR_WRAP_WITH_TRUSTED",
            TLVMapping::OBJ_ATTR_SPLITTABLE => "OBJ_ATTR_SPLITTABLE",
            TLVMapping::OBJ_ATTR_IS_SPLIT => "OBJ_ATTR_IS_SPLIT",
            TLVMapping::OBJ_ATTR_ENCRYPT_KEY_MECHANISMS => "OBJ_ATTR_ENCRYPT_KEY_MECHANISMS",
            TLVMapping::OBJ_ATTR_DECRYPT_KEY_MECHANISMS => "OBJ_ATTR_DECRYPT_KEY_MECHANISMS",
            TLVMapping::OBJ_ATTR_SIGN_KEY_MECHANISMS => "OBJ_ATTR_SIGN_KEY_MECHANISMS",
            TLVMapping::OBJ_ATTR_VERIFY_KEY_MECHANISMS => "OBJ_ATTR_VERIFY_KEY_MECHANISMS",
            TLVMapping::OBJ_ATTR_WRAP_KEY_MECHANISMS => "OBJ_ATTR_WRAP_KEY_MECHANISMS",
            TLVMapping::OBJ_ATTR_UNWAP_KEY_MECHANISMS => "OBJ_ATTR_UNWAP_KEY_MECHANISMS",
            TLVMapping::OBJ_ATTR_DERIVE_KEY_MECHANISMS => "OBJ_ATTR_DERIVE_KEY_MECHANISMS",
            TLVMapping::OBJ_UNKNOWN => "OBJ_UNKNOWN",
            TLVMapping::SIGNATURE => "SIGNATURE",
            TLVMapping::UNKNOWN => "UNKNOWN",
        }
    }

    /// Decodes the bytes of an attribute by its kind. Bytes that do not decode
    /// come back unchanged, as `RawBytes`. The declared length is not consulted.
    pub fn encode(&self, bytes: &[u8], len: u32) -> (v: TLVValue)
        ensures
            v@ == decode_value(self.kind_of(), bytes@),
    {
        let decoded = match self.kind() {
            Kind::Bool => match Bool::encode(bytes, len) {
                Some(x) => Some(TLVValue::Bool(x)),
                None => None,
            },
            Kind::Int => match Int::encode(bytes, len) {
                Some(x) => Some(TLVValue::Int(x)),
                None => None,
            },
            Kind::Bytes => match Bytes::encode(bytes, len) {
                Some(x) => Some(TLVValue::Bytes(x)),
                None => None,
            },
            Kind::ByteStr => match ByteStr::encode(bytes, len) {
                Some(x) => Some(TLVValue::ByteStr(x)),
                None => None,
            },
            Kind::HexStr128 => match HexStr128::encode(bytes, len) {
                Some(x) => Some(TLVValue::HexStr128(x)),
                None => None,
            },
            Kind::ClassKey => match ClassKey::encode(bytes, len) {
                Some(x) => Some(TLVValue::ClassKey(x)),
                None => None,
            },
        };
        match decoded {
            Some(v) => v,
            None => match RawBytes::encode(bytes, len) {
                Some(x) => TLVValue::RawBytes(x),
                None => TLVValue::RawBytes(RawBytes(Vec::new())),
            },
        }
    }
}

/// The catalogue: the attribute that carries the tag `val`, or `UNKNOWN`.
pub open spec fn catalogue(val: u32) -> TLVMapping {
    match val {
        0x0000u32 => TLVMapping::OBJ_ATTR_CLASS,
        0x0001u32 => TLVMapping::OBJ_ATTR_TOKEN,
        0x0002u32 => TLVMapping::OBJ_ATTR_PRIVATE,
        0x0003u32 => TLVMapping::OBJ_ATTR_LABEL,
        0x0086u32 => TLVMapping::OBJ_ATTR_TRUSTED,
        0x0100u32 => TLVMapping::OBJ_ATTR_KEY_TYPE,
        0x0102u32 => TLVMapping::OBJ_ATTR_ID,
        0x0103u32 => TLVMapping::OBJ_ATTR_SENSITIVE,
        0x0104u32 => TLVMapping::OBJ_ATTR_ENCRYPT,
        0x0105u32 => TLVMapping::OBJ_ATTR_DECRYPT,
        0x0106u32 => TLVMapping::OBJ_ATTR_WRAP,
        0x0107u32 => TLVMapping::OBJ_ATTR_UNWRAP,
        0x0108u32 => TLVMapping::OBJ_ATTR_SIGN,
        0x010Au32 => TLVMapping::OBJ_ATTR_VERIFY,
        0x010Cu32 => TLVMapping::OBJ_ATTR_DERIVE,
        0x0120u32 => TLVMapping::OBJ_ATTR_MODULUS,
        0x0121u32 => TLVMapping::OBJ_ATTR_MODULUS_BITS,
        0x0122u32 => TLVMapping::OBJ_ATTR_PUBLIC_EXPONENT,
        0x0161u32 => TLVMapping::OBJ_ATTR_VALUE_LEN,
        0x0162u32 => TLVMapping::OBJ_ATTR_EXTRACTABLE,
        0x0163u32 => TLVMapping::OBJ_ATTR_LOCAL,
        0x0164u32 => TLVMapping::OBJ_ATTR_NEVER_EXTRACTABLE,
        0x0165u32 => TLVMapping::OBJ_ATTR_ALWAYS_SENSITIVE,
        0x0173u32 => TLVMapping::OBJ_ATTR_KCV,
        0x1000u32 => TLVMapping::OBJ_EXT_ATTR1,
        0x1003u32 => TLVMapping::OBJ_ATTR_EKCV,
        0x0210u32 => TLVMapping::OBJ_ATTR_WRAP_WITH_TRUSTED,
        0x80000002u32 => TLVMapping::OBJ_ATTR_SPLITTABLE,
        0x80000003u32 => TLVMapping::OBJ_ATTR_IS_SPLIT,
        0x80000174u32 => TLVMapping::OBJ_ATTR_ENCRYPT_KEY_MECHANISMS,
        0x80000175u32 => TLVMapping::OBJ_ATTR_DECRYPT_KEY_MECHANISMS,
        0x80000176u32 => TLVMapping::OBJ_ATTR_SIGN_KEY_MECHANISMS,
        0x80000177u32 => TLVMapping::OBJ_ATTR_VERIFY_KEY_MECHANISMS,
        0x80000178u32 => TLVMapping::OBJ_ATTR_WRAP_KEY_MECHANISMS,
        0x80000179u32 => TLVMapping::OBJ_ATTR_UNWAP_KEY_MECHANISMS,
        0x80000180u32 => TLVMapping::OBJ_ATTR_DERIVE_KEY_MECHANISMS,
        0x80000000u32 => TLVMapping::OBJ_UNKNOWN,
        0xFFFFFF01u32 => TLVMapping::SIGNATURE,
        _ => TLVMapping::UNKNOWN,
    }
}

/// The catalogue and the tags agree: an attribute is found under its own
/// tag, and `UNKNOWN` under every tag that no attribute has.
pub proof fn lemma_catalogue_inverts_tag(val: u32)
    ensures
        catalogue(val) != TLVMapping::UNKNOWN ==> catalogue(val).tag() == Some(val),
        catalogue(val) == TLVMapping::UNKNOWN ==> forall|m: TLVMapping| m.tag() != Some(val),
{
}

} // verus!
