//! The account of a certificate authority that speaks ACME, and the external key that binds it.
use crate::text;
use vstd::prelude::*;
use vstd::string::*;
use vstd::utf8;

verus! {

/// An external account: its key, and the id of the key.
#[derive(Debug)]
pub struct AcmeEabConfiguration {
    pub key_id: String,
    pub key: Vec<u8>,
}

/// The server of a certificate authority, and the account with it.
#[derive(Debug)]
pub struct AcmeConfiguration {
    pub server: String,
    pub admin_email: String,
    pub eab: Option<AcmeEabConfiguration>,
}

/// Why a text is not the base64 form of a key.
#[derive(Debug, Clone, Copy, PartialEq, Eq, Structural)]
pub enum DecodeError {
    /// The byte at an offset is out of place.
    InvalidByte(usize, u8),
    /// The length is one that no key gives.
    InvalidLength,
    /// The symbol at an offset is the last one, and has bits that belong to no byte.
    InvalidLastSymbol(usize, u8),
}

/// The symbol for six bits in the base64 alphabet for URLs.
pub open spec fn symbol(bits: nat) -> char {
    if bits < 26 {
        (65 + bits) as char
    } else if bits < 52 {
        (97 + bits - 26) as char
    } else if bits < 62 {
        (48 + bits - 52) as char
    } else if bits == 62 {
        '-'
    } else {
        '_'
    }
}

/// The base64 form of bytes, in the alphabet for URLs, with padding: four symbols for three bytes.
pub open spec fn base64_text(bytes: Seq<u8>) -> Seq<char>
    decreases bytes.len(),
{
    let a = bytes[0] as nat;
    let b = bytes[1] as nat;
    let c = bytes[2] as nat;
    if bytes.len() == 0 {
        seq![]
    } else if bytes.len() == 1 {
        seq![symbol(a / 4), symbol(a % 4 * 16), '=', '=']
    } else if bytes.len() == 2 {
        seq![symbol(a / 4), symbol(a % 4 * 16 + b / 16), symbol(b % 16 * 4), '=']
    } else {
        seq![
            symbol(a / 4),
            symbol(a % 4 * 16 + b / 16),
            symbol(b % 16 * 4 + c / 64),
            symbol(c % 64),
        ] + base64_text(bytes.skip(3))
    }
}

/// How many signs of padding end the base64 form of `n` bytes.
pub open spec fn padding(n: nat) -> nat {
    if n % 3 == 0 {
        0
    } else {
        (3 - n % 3) as nat
    }
}

/// Whether `s` is the base64 form of `bytes`, where padding may be left out.
pub open spec fn is_base64_of(s: Seq<char>, bytes: Seq<u8>) -> bool {
    &&& s.is_prefix_of(base64_text(bytes))
    &&& s.len() + padding(bytes.len()) >= base64_text(bytes).len()
}

/// Whether `s` is the base64 form of no bytes.
pub open spec fn is_no_base64(s: Seq<char>) -> bool {
    forall|bytes: Seq<u8>| !#[trigger] is_base64_of(s, bytes)
}

/// Whether a byte is a symbol of the base64 alphabet for URLs.
pub open spec fn is_symbol(byte: u8) -> bool {
    ||| 65 <= byte <= 90
    ||| 97 <= byte <= 122
    ||| 48 <= byte <= 57
    ||| byte == 45
    ||| byte == 95
}

/// How many symbols stand at the start.
pub open spec fn leading_symbols(bytes: Seq<u8>) -> nat
    decreases bytes.len(),
{
    if bytes.len() > 0 && is_symbol(bytes[0]) {
        1 + leading_symbols(bytes.skip(1))
    } else {
        0
    }
}

/// Whether what follows the symbols at the start is nothing, or padding that completes the last
/// four signs.
pub open spec fn ends_in_padding(bytes: Seq<u8>) -> bool {
    let p = leading_symbols(bytes);
    ||| p == bytes.len()
    ||| {
        &&& p % 4 >= 2
        &&& bytes.len() <= p - p % 4 + 4
        &&& forall|i: int| p <= i < bytes.len() ==> #[trigger] bytes[i] == 61
    }
}

/// Why the bytes of a text are not the base64 form of a key.
pub open spec fn decode_error(bytes: Seq<u8>) -> DecodeError {
    let n = bytes.len();
    let p = leading_symbols(bytes);
    if n % 4 == 1 {
        if bytes.last() == 61 || is_symbol(bytes.last()) {
            DecodeError::InvalidLength
        } else {
            DecodeError::InvalidByte((n - 1) as usize, bytes.last())
        }
    } else if !ends_in_padding(bytes) {
        DecodeError::InvalidByte(p as usize, bytes[p as int])
    } else {
        DecodeError::InvalidLastSymbol((p - 1) as usize, bytes[p - 1])
    }
}

/// What an error says.
pub open spec fn decode_error_text(error: DecodeError) -> Seq<char> {
    match error {
        DecodeError::InvalidByte(offset, byte) => "Invalid byte "@ + text::decimal(byte as nat)
            + ", offset "@ + text::decimal(offset as nat) + "."@,
        DecodeError::InvalidLength => "Encoded text cannot have a 6-bit remainder."@,
        DecodeError::InvalidLastSymbol(offset, byte) => "Invalid last symbol "@ + text::decimal(
            byte as nat,
        ) + ", offset "@ + text::decimal(offset as nat) + "."@,
    }
}

/// Whether a key is small enough for its base64 form to fit into memory.
pub open spec fn is_encodable(key: Seq<u8>) -> bool {
    (key.len() + 2) / 3 * 4 <= isize::MAX
}

/// `base64::encode_config` with the configuration `base64::URL_SAFE` returns the base64 form of the
/// bytes, in the alphabet for URLs and with padding.
#[verifier::external_body]
fn encode_url_safe(bytes: &[u8]) -> (s: String)
    requires
        is_encodable(bytes@),
    ensures
        s@ == base64_text(bytes@),
{
    base64::encode_config(bytes, base64::URL_SAFE)
}

/// `base64::decode_config` with the configuration `base64::URL_SAFE` returns the bytes of which the
/// text is the base64 form, in the alphabet for URLs, where padding may be left out in part or as a
/// whole. On any other text it returns an error, which tells of a length that no bytes give, else
/// of the first byte that is out of place, else of the last symbol.
#[verifier::external_body]
fn decode_url_safe(s: &str) -> (r: Result<Vec<u8>, DecodeError>)
    ensures
        match r {
            Ok(bytes) => is_base64_of(s@, bytes@),
            Err(error) => error == decode_error(utf8::encode_utf8(s@)) && is_no_base64(s@),
        },
{
    match base64::decode_config(s, base64::URL_SAFE) {
        Ok(bytes) => Ok(bytes),
        Err(base64::DecodeError::InvalidByte(i, b)) => Err(DecodeError::InvalidByte(i, b)),
        Err(base64::DecodeError::InvalidLength) => Err(DecodeError::InvalidLength),
        Err(base64::DecodeError::InvalidLastSymbol(i, b)) => Err(
            DecodeError::InvalidLastSymbol(i, b),
        ),
    }
}

/// The `Display` form of `base64::DecodeError` is a fixed sentence for each kind of error, with the
/// offending byte and its offset in decimal.
#[verifier::external_body]
fn display_decode_error(error: &DecodeError) -> (s: String)
    ensures
        s@ == decode_error_text(*error),
{
    let error = match *error {
        DecodeError::InvalidByte(i, b) => base64::DecodeError::InvalidByte(i, b),
        DecodeError::InvalidLength => base64::DecodeError::InvalidLength,
        DecodeError::InvalidLastSymbol(i, b) => base64::DecodeError::InvalidLastSymbol(i, b),
    };
    error.to_string()
}

impl DecodeError {
    /// What the error says.
    pub fn to_string(&self) -> (s: String)
        ensures
            s@ == decode_error_text(*self),
    {
        display_decode_error(self)
    }
}

impl AcmeEabConfiguration {
    /// The account with a key that is given in its base64 form.
    pub fn new(key_id: &str, key_b64: &str) -> (r: Result<Self, DecodeError>)
        ensures
            match r {
                Ok(configuration) => configuration.key_id@ == key_id@ && is_base64_of(
                    key_b64@,
                    configuration.key@,
                ),
                Err(error) => error == decode_error(utf8::encode_utf8(key_b64@)) && is_no_base64(
                    key_b64@,
                ),
            },
    {
        match decode_url_safe(key_b64) {
            Ok(key) => Ok(AcmeEabConfiguration { key_id: key_id.to_owned(), key }),
            Err(error) => Err(error),
        }
    }

    /// The base64 form of the key.
    pub fn eab_key_b64(&self) -> (key_b64: String)
        requires
            is_encodable(self.key@),
        ensures
            key_b64@ == base64_text(self.key@),
    {
        encode_url_safe(self.key.as_slice())
    }
}

/// The text that a key is written as.
pub fn as_base64(key: &[u8]) -> (s: String)
    requires
        is_encodable(key@),
    ensures
        s@ == base64_text(key@),
{
    encode_url_safe(key)
}

/// The key that is read from a text, or what is said of a text that is none.
pub fn from_base64(s: &str) -> (r: Result<Vec<u8>, String>)
    ensures
        match r {
            Ok(key) => is_base64_of(s@, key@),
            Err(message) => message@ == decode_error_text(decode_error(utf8::encode_utf8(s@)))
                && is_no_base64(s@),
        },
{
    match decode_url_safe(s) {
        Ok(key) => Ok(key),
        Err(error) => Err(error.to_string()),
    }
}

/// Symbols differ from each other and from the sign of padding.
proof fn lemma_symbols(x: nat, y: nat)
    requires
        x < 64,
        y < 64,
    ensures
        symbol(x) != '=',
        symbol(x) == symbol(y) ==> x == y,
{
}

/// The base64 form of bytes has four signs for every three bytes that were begun.
pub proof fn law_base64_length(bytes: Seq<u8>)
    ensures
        base64_text(bytes).len() == (bytes.len() + 2) / 3 * 4,
    decreases bytes.len(),
{
    if bytes.len() >= 3 {
        law_base64_length(bytes.skip(3));
    }
}

/// A base64 form agrees with the padded form as far as it goes.
pub(crate) proof fn lemma_base64_agrees(s: Seq<char>, bytes: Seq<u8>)
    requires
        is_base64_of(s, bytes),
    ensures
        s.len() <= base64_text(bytes).len(),
        s.len() + padding(bytes.len()) >= base64_text(bytes).len(),
        forall|i: int| 0 <= i < s.len() ==> #[trigger] s[i] == base64_text(bytes)[i],
{
    let full = base64_text(bytes);
    assert forall|i: int| 0 <= i < s.len() implies #[trigger] s[i] == full[i] by {
        assert(s[i] == full.subrange(0, s.len() as int)[i]);
    }
}

/// How the base64 form of one byte begins.
proof fn lemma_base64_of_one(s: Seq<char>, bytes: Seq<u8>)
    requires
        is_base64_of(s, bytes),
        bytes.len() == 1,
    ensures
        2 <= s.len() <= 4,
        s[0] == symbol(bytes[0] as nat / 4),
        s[1] == symbol(bytes[0] as nat % 4 * 16),
        s.len() > 2 ==> s[2] == '=',
{
    lemma_base64_agrees(s, bytes);
}

/// How the base64 form of two bytes begins.
proof fn lemma_base64_of_two(s: Seq<char>, bytes: Seq<u8>)
    requires
        is_base64_of(s, bytes),
        bytes.len() == 2,
    ensures
        3 <= s.len() <= 4,
        s[0] == symbol(bytes[0] as nat / 4),
        s[1] == symbol(bytes[0] as nat % 4 * 16 + bytes[1] as nat / 16),
        s[2] == symbol(bytes[1] as nat % 16 * 4),
        s.len() > 3 ==> s[3] == '=',
{
    lemma_base64_agrees(s, bytes);
}

/// How the base64 form of three bytes or more begins, and that what follows the first four signs is
/// a base64 form too.
proof fn lemma_base64_of_more(s: Seq<char>, bytes: Seq<u8>)
    requires
        is_base64_of(s, bytes),
        bytes.len() >= 3,
    ensures
        s.len() >= 4,
        s[0] == symbol(bytes[0] as nat / 4),
        s[1] == symbol(bytes[0] as nat % 4 * 16 + bytes[1] as nat / 16),
        s[2] == symbol(bytes[1] as nat % 16 * 4 + bytes[2] as nat / 64),
        s[3] == symbol(bytes[2] as nat % 64),
        is_base64_of(s.skip(4), bytes.skip(3)),
{
    let rest = base64_text(bytes.skip(3));
    lemma_base64_agrees(s, bytes);
    law_base64_length(bytes);
    law_base64_length(bytes.skip(3));
    assert(padding(bytes.skip(3).len()) == padding(bytes.len()));
    assert forall|i: int| 0 <= i < s.len() - 4 implies s.skip(4)[i] == rest[i] by {
        assert(s[i + 4] == base64_text(bytes)[i + 4]);
    }
    assert(s.skip(4) =~= rest.subrange(0, s.len() - 4));
}

/// A base64 form of one byte is not one of more bytes.
proof fn lemma_one_byte_is_not_more(s: Seq<char>, one: Seq<u8>, more: Seq<u8>)
    requires
        is_base64_of(s, one),
        one.len() == 1,
        more.len() > 1,
    ensures
        !is_base64_of(s, more),
{
    if is_base64_of(s, more) {
        lemma_base64_of_one(s, one);
        let (e, f) = (more[1] as nat, more[2] as nat);
        if more.len() == 2 {
            lemma_base64_of_two(s, more);
            lemma_symbols(e % 16 * 4, 0);
        } else {
            lemma_base64_of_more(s, more);
            lemma_symbols(e % 16 * 4 + f / 64, 0);
        }
    }
}

/// A base64 form of two bytes is not one of more bytes.
proof fn lemma_two_bytes_are_not_more(s: Seq<char>, two: Seq<u8>, more: Seq<u8>)
    requires
        is_base64_of(s, two),
        two.len() == 2,
        more.len() > 2,
    ensures
        !is_base64_of(s, more),
{
    if is_base64_of(s, more) {
        lemma_base64_of_two(s, two);
        lemma_base64_of_more(s, more);
        lemma_symbols(more[2] as nat % 64, 0);
    }
}

/// One byte is determined by its base64 form.
proof fn lemma_one_byte_is_determined(s: Seq<char>, x: Seq<u8>, y: Seq<u8>)
    requires
        is_base64_of(s, x),
        is_base64_of(s, y),
        x.len() == 1,
        y.len() == 1,
    ensures
        x == y,
{
    let (a, d) = (x[0] as nat, y[0] as nat);
    lemma_base64_of_one(s, x);
    lemma_base64_of_one(s, y);
    lemma_symbols(a / 4, d / 4);
    lemma_symbols(a % 4 * 16, d % 4 * 16);
    assert(x =~= y);
}

/// Two bytes are determined by their base64 form.
proof fn lemma_two_bytes_are_determined(s: Seq<char>, x: Seq<u8>, y: Seq<u8>)
    requires
        is_base64_of(s, x),
        is_base64_of(s, y),
        x.len() == 2,
        y.len() == 2,
    ensures
        x == y,
{
    let (a, b) = (x[0] as nat, x[1] as nat);
    let (d, e) = (y[0] as nat, y[1] as nat);
    lemma_base64_of_two(s, x);
    lemma_base64_of_two(s, y);
    lemma_symbols(a / 4, d / 4);
    lemma_symbols(a % 4 * 16 + b / 16, d % 4 * 16 + e / 16);
    lemma_symbols(b % 16 * 4, e % 16 * 4);
    assert(x =~= y);
}

/// The first three bytes are determined by a base64 form.
proof fn lemma_first_bytes_are_determined(s: Seq<char>, x: Seq<u8>, y: Seq<u8>)
    requires
        is_base64_of(s, x),
        is_base64_of(s, y),
        x.len() >= 3,
        y.len() >= 3,
    ensures
        x[0] == y[0],
        x[1] == y[1],
        x[2] == y[2],
{
    let (a, b, c) = (x[0] as nat, x[1] as nat, x[2] as nat);
    let (d, e, f) = (y[0] as nat, y[1] as nat, y[2] as nat);
    lemma_base64_of_more(s, x);
    lemma_base64_of_more(s, y);
    lemma_symbols(a / 4, d / 4);
    lemma_symbols(a % 4 * 16 + b / 16, d % 4 * 16 + e / 16);
    lemma_symbols(b % 16 * 4 + c / 64, e % 16 * 4 + f / 64);
    lemma_symbols(c % 64, f % 64);
}

/// A text is the base64 form of one key at most: what is read from it is determined.
pub proof fn law_base64_is_unambiguous(s: Seq<char>, x: Seq<u8>, y: Seq<u8>)
    requires
        is_base64_of(s, x),
        is_base64_of(s, y),
    ensures
        x == y,
    decreases x.len(),
{
    if x.len() == 0 || y.len() == 0 {
        lemma_base64_agrees(s, x);
        lemma_base64_agrees(s, y);
        law_base64_length(x);
        law_base64_length(y);
        assert(x =~= y);
    } else if x.len() == 1 && y.len() == 1 {
        lemma_one_byte_is_determined(s, x, y);
    } else if x.len() == 1 {
        lemma_one_byte_is_not_more(s, x, y);
    } else if y.len() == 1 {
        lemma_one_byte_is_not_more(s, y, x);
    } else if x.len() == 2 && y.len() == 2 {
        lemma_two_bytes_are_determined(s, x, y);
    } else if x.len() == 2 {
        lemma_two_bytes_are_not_more(s, x, y);
    } else if y.len() == 2 {
        lemma_two_bytes_are_not_more(s, y, x);
    } else {
        lemma_first_bytes_are_determined(s, x, y);
        lemma_base64_of_more(s, x);
        lemma_base64_of_more(s, y);
        law_base64_is_unambiguous(s.skip(4), x.skip(3), y.skip(3));
        assert(x.len() == y.len()) by {
            assert(x.skip(3).len() == y.skip(3).len());
        }
        assert forall|i: int| 0 <= i < x.len() implies x[i] == y[i] by {
            if i >= 3 {
                assert(x.skip(3)[i - 3] == y.skip(3)[i - 3]);
            }
        }
        assert(x =~= y);
    }
}

/// Reading a key from the text that it was written as gives the key back: the text is a base64 form
/// of the key, and of no other key.
pub proof fn law_key_survives_base64(key: Seq<u8>, read: Seq<u8>)
    ensures
        is_base64_of(base64_text(key), key),
        is_base64_of(base64_text(key), read) <==> read == key,
{
    let s = base64_text(key);
    assert(s =~= s.take(s.len() as int));
    assert(s.is_prefix_of(s));
    if is_base64_of(s, read) {
        law_base64_is_unambiguous(s, read, key);
    }
}

} // verus!
