//! Laws on keys in base64.
use crate::{acme, text};
use crate::acme::{as_base64, from_base64, AcmeEabConfiguration, DecodeError};
use vstd::prelude::*;
use vstd::utf8;

verus! {

/// A key that was written is read back, by itself and as that of an account; and it is written with
/// four signs for every three bytes that were begun, the same way by itself and as that of an
/// account.
pub proof fn law_written_key_is_read_back(
    configuration: AcmeEabConfiguration,
    key: &[u8],
    key_id: &str,
    written: String,
    by_itself: String,
    input: &str,
    read: Result<AcmeEabConfiguration, DecodeError>,
    key_read: Result<Vec<u8>, String>,
)
    requires
        key@ == configuration.key@,
        call_ensures(AcmeEabConfiguration::eab_key_b64, (&configuration,), written),
        call_ensures(as_base64, (key,), by_itself),
        input@ == written@,
        call_ensures(AcmeEabConfiguration::new, (key_id, input), read),
        call_ensures(from_base64, (input,), key_read),
    ensures
        by_itself@ == written@,
        written@.len() == (configuration.key@.len() + 2) / 3 * 4,
        read is Ok,
        read->Ok_0.key@ == configuration.key@,
        read->Ok_0.key_id@ == key_id@,
        key_read is Ok,
        key_read->Ok_0@ == configuration.key@,
{
    let k = configuration.key@;
    acme::law_base64_length(k);
    acme::law_key_survives_base64(k, k);
    if read is Ok {
        acme::law_key_survives_base64(k, read->Ok_0.key@);
    }
    if key_read is Ok {
        acme::law_key_survives_base64(k, key_read->Ok_0@);
    }
}

/// A text gives a key by itself exactly if it does as that of an account, and the same key; else the
/// message by itself is what the error of the account says.
pub proof fn law_keys_are_read_alike(
    key_id: &str,
    input: &str,
    read: Result<AcmeEabConfiguration, DecodeError>,
    key_read: Result<Vec<u8>, String>,
    error: DecodeError,
    message: String,
)
    requires
        call_ensures(AcmeEabConfiguration::new, (key_id, input), read),
        call_ensures(from_base64, (input,), key_read),
        read is Err ==> read->Err_0 == error,
        call_ensures(DecodeError::to_string, (&error,), message),
    ensures
        read is Ok <==> key_read is Ok,
        read is Ok ==> read->Ok_0.key@ == key_read->Ok_0@,
        read is Ok ==> read->Ok_0.key_id@ == key_id@,
        read is Err ==> key_read->Err_0@ == message@,
{
    if read is Ok && key_read is Ok {
        acme::law_base64_is_unambiguous(input@, read->Ok_0.key@, key_read->Ok_0@);
    }
}

/// A key that a text gives is one whose written form the text is, where padding may be left out: the
/// text and the written form agree as far as the text goes, and two signs at most follow.
pub proof fn law_read_key_was_written(
    input: &str,
    read: Result<Vec<u8>, String>,
    key: &[u8],
    written: String,
)
    requires
        call_ensures(from_base64, (input,), read),
        call_ensures(as_base64, (key,), written),
    ensures
        read is Ok && read->Ok_0@ == key@ ==> {
            &&& input@.len() <= written@.len() <= input@.len() + 2
            &&& forall|i: int| 0 <= i < input@.len() ==> #[trigger] written@[i] == input@[i]
        },
        input@ == written@ ==> read is Ok && read->Ok_0@ == key@,
{
    acme::law_key_survives_base64(key@, key@);
    if input@ == written@ && read is Ok {
        acme::law_key_survives_base64(key@, read->Ok_0@);
    }
    if read is Ok && read->Ok_0@ == key@ {
        acme::lemma_base64_agrees(input@, key@);
    }
}

/// Every key is written whose written form fits into memory.
pub proof fn law_keys_up_to_the_limit_are_written(key: &[u8], configuration: AcmeEabConfiguration)
    requires
        key@.len() <= isize::MAX / 4 * 3,
        configuration.key@ == key@,
    ensures
        call_requires(as_base64, (key,)),
        call_requires(AcmeEabConfiguration::eab_key_b64, (&configuration,)),
{
    assert((key@.len() + 2) / 3 <= isize::MAX / 4);
}

/// Whether a byte is one that stands for six bits.
pub open spec fn stands_for_bits(b: u8) -> bool {
    ||| 'A' as nat <= b as nat <= 'Z' as nat
    ||| 'a' as nat <= b as nat <= 'z' as nat
    ||| '0' as nat <= b as nat <= '9' as nat
    ||| b as nat == '-' as nat
    ||| b as nat == '_' as nat
}

/// What stands before and at the end of the symbols at the start.
proof fn lemma_leading_symbols(bytes: Seq<u8>)
    ensures
        acme::leading_symbols(bytes) <= bytes.len(),
        forall|i: int|
            0 <= i < acme::leading_symbols(bytes) ==> acme::is_symbol(#[trigger] bytes[i]),
        acme::leading_symbols(bytes) < bytes.len() ==> !acme::is_symbol(
            bytes[acme::leading_symbols(bytes) as int],
        ),
    decreases bytes.len(),
{
    if bytes.len() > 0 && acme::is_symbol(bytes[0]) {
        let rest = bytes.skip(1);
        lemma_leading_symbols(rest);
        let p = acme::leading_symbols(rest);
        assert forall|i: int| 0 <= i < p + 1 implies acme::is_symbol(#[trigger] bytes[i]) by {
            if i > 0 {
                assert(acme::is_symbol(rest[i - 1]));
            }
        }
        if p < rest.len() {
            assert(rest[p as int] == bytes[p as int + 1]);
        }
    }
}

/// An error tells what is wrong with a text: a length that is one more than a multiple of four, or a
/// byte of the text that stands for no bits, or the last byte that stands for bits, and where it is.
pub proof fn law_errors_tell_what_is_wrong(
    key_id: &str,
    input: &str,
    read: Result<AcmeEabConfiguration, DecodeError>,
)
    requires
        utf8::encode_utf8(input@).len() <= usize::MAX,
        call_ensures(AcmeEabConfiguration::new, (key_id, input), read),
        read is Err,
    ensures
        match read->Err_0 {
            DecodeError::InvalidLength => utf8::encode_utf8(input@).len() % 4 == 1,
            DecodeError::InvalidByte(i, b) => {
                &&& i < utf8::encode_utf8(input@).len()
                &&& utf8::encode_utf8(input@)[i as int] == b
                &&& !stands_for_bits(b)
            },
            DecodeError::InvalidLastSymbol(i, b) => {
                &&& utf8::encode_utf8(input@).len() % 4 != 1
                &&& i < utf8::encode_utf8(input@).len()
                &&& utf8::encode_utf8(input@)[i as int] == b
                &&& stands_for_bits(b)
                &&& forall|j: int|
                    i < j < utf8::encode_utf8(input@).len() ==> #[trigger] utf8::encode_utf8(
                        input@,
                    )[j] as nat == '=' as nat
            },
        },
{
    let bytes = utf8::encode_utf8(input@);
    lemma_leading_symbols(bytes);
    if bytes.len() == 0 {
        if input@.len() > 0 {
            utf8::encode_utf8_first_scalar(input@);
        }
        let none = Seq::<u8>::empty();
        assert(input@ =~= acme::base64_text(none).subrange(0, 0));
        assert(acme::is_base64_of(input@, none));
        assert(false);
    }
}

/// What the errors say.
pub proof fn law_errors_say_what_is_wrong(error: DecodeError, s: String)
    requires
        call_ensures(DecodeError::to_string, (&error,), s),
    ensures
        match error {
            DecodeError::InvalidByte(i, b) => s@ == "Invalid byte "@ + text::decimal(b as nat)
                + ", offset "@ + text::decimal(i as nat) + "."@,
            DecodeError::InvalidLength => s@ == "Encoded text cannot have a 6-bit remainder."@,
            DecodeError::InvalidLastSymbol(i, b) => s@ == "Invalid last symbol "@ + text::decimal(
                b as nat,
            ) + ", offset "@ + text::decimal(i as nat) + "."@,
        },
{
}

/// Before the padding there is no sign of padding.
proof fn lemma_padding_comes_last(bytes: Seq<u8>, i: int)
    requires
        0 <= i < acme::base64_text(bytes).len() - acme::padding(bytes.len()),
    ensures
        acme::base64_text(bytes)[i] != '=',
    decreases bytes.len(),
{
    acme::law_base64_length(bytes);
    if bytes.len() >= 3 && i >= 4 {
        let rest = bytes.skip(3);
        acme::law_base64_length(rest);
        assert(acme::padding(rest.len()) == acme::padding(bytes.len()));
        lemma_padding_comes_last(rest, i - 4);
        assert(acme::base64_text(bytes)[i] == acme::base64_text(rest)[i - 4]);
    } else {
        lemma_first_signs(bytes, i);
    }
}

/// The first four signs, but for the padding, are none of padding.
proof fn lemma_first_signs(bytes: Seq<u8>, i: int)
    requires
        bytes.len() > 0,
        0 <= i < 4,
        bytes.len() == 1 ==> i < 2,
        bytes.len() == 2 ==> i < 3,
    ensures
        acme::base64_text(bytes)[i] != '=',
{
    let (a, b, c) = (bytes[0] as nat, bytes[1] as nat, bytes[2] as nat);
    lemma_no_sign_of_padding(a / 4);
    lemma_no_sign_of_padding(a % 4 * 16);
    lemma_no_sign_of_padding(a % 4 * 16 + b / 16);
    lemma_no_sign_of_padding(b % 16 * 4);
    lemma_no_sign_of_padding(b % 16 * 4 + c / 64);
    lemma_no_sign_of_padding(c % 64);
}

/// No symbol is the sign of padding.
proof fn lemma_no_sign_of_padding(bits: nat)
    ensures
        bits < 64 ==> acme::symbol(bits) != '=',
{
}

/// Padding may be left out: a key is read from what it was written as, and from that without some or
/// all of the signs of padding at its end.
pub proof fn law_padding_may_be_left_out(
    input: &str,
    key_id: &str,
    read: Result<AcmeEabConfiguration, DecodeError>,
    key_read: Result<Vec<u8>, String>,
    key: &[u8],
    written: String,
)
    requires
        call_ensures(as_base64, (key,), written),
        call_ensures(from_base64, (input,), key_read),
        call_ensures(AcmeEabConfiguration::new, (key_id, input), read),
        input@.len() <= written@.len(),
        forall|i: int| 0 <= i < input@.len() ==> #[trigger] input@[i] == written@[i],
        forall|i: int| input@.len() <= i < written@.len() ==> #[trigger] written@[i] == '=',
    ensures
        key_read is Ok && key_read->Ok_0@ == key@,
        read is Ok && read->Ok_0.key@ == key@,
{
    let s = input@;
    let full = acme::base64_text(key@);
    if s.len() < full.len() - acme::padding(key@.len()) {
        lemma_padding_comes_last(key@, s.len() as int);
        assert(written@[s.len() as int] == '=');
    }
    assert(s =~= full.subrange(0, s.len() as int));
    assert(acme::is_base64_of(s, key@));
    if key_read is Ok {
        acme::law_base64_is_unambiguous(s, key_read->Ok_0@, key@);
    }
    if read is Ok {
        acme::law_base64_is_unambiguous(s, read->Ok_0.key@, key@);
    }
}

} // verus!
