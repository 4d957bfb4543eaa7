//! Addresses of the Internet Protocol, version 4.
use crate::text;
use vstd::prelude::*;
use vstd::string::*;

verus! {

/// An address, as the four numbers of which it is made.
#[derive(Debug, Clone, Copy, PartialEq, Eq, Structural)]
pub struct Ipv4Address {
    pub a: u8,
    pub b: u8,
    pub c: u8,
    pub d: u8,
}

/// An address and a port.
#[derive(Debug, Clone, Copy, PartialEq, Eq, Structural)]
pub struct SocketAddress {
    pub ip: Ipv4Address,
    pub port: u16,
}

/// Whether a text is an address in dotted decimal.
pub open spec fn is_dotted(s: Seq<char>) -> bool {
    exists|address: Ipv4Address| s == #[trigger] address.dotted()
}

impl Ipv4Address {
    /// The address in dotted decimal.
    pub open spec fn dotted(self) -> Seq<char> {
        text::decimal(self.a as nat) + "."@ + text::decimal(self.b as nat) + "."@ + text::decimal(
            self.c as nat,
        ) + "."@ + text::decimal(self.d as nat)
    }

    /// The address in dotted decimal.
    pub fn to_text(&self) -> (s: String)
        ensures
            s@ == self.dotted(),
    {
        let mut s = text::decimal_text(self.a as u64);
        s.append(".");
        s.append(text::decimal_text(self.b as u64).as_str());
        s.append(".");
        s.append(text::decimal_text(self.c as u64).as_str());
        s.append(".");
        s.append(text::decimal_text(self.d as u64).as_str());
        s
    }

    /// Reads an address in dotted decimal: four numbers up to 255, written without superfluous
    /// zeros and parted by dots, and nothing else.
    pub fn parse(s: &str) -> (r: Option<Self>)
        ensures
            match r {
                Some(address) => s@ == address.dotted(),
                None => !is_dotted(s@),
            },
    {
        let chars = text::chars_of(s);
        proof {
            assert forall|address: Ipv4Address| s@ == #[trigger] address.dotted() implies ({
                let (p, q, r) = dots(address);
                splits_at(s@, address, p, q, r)
            }) by {
                lemma_dotted_splits(address);
            }
        }
        let (a, p) = match octet_at(&chars, 0) {
            Some(found) => found,
            None => return None,
        };
        proof {
            lemma_octets_agree(s@, 0, a, p as int);
        }
        if p >= chars.len() || chars[p] != '.' {
            return None;
        }
        let (b, q) = match octet_at(&chars, p + 1) {
            Some(found) => found,
            None => return None,
        };
        proof {
            lemma_octets_agree(s@, p + 1, b, q as int);
        }
        if q >= chars.len() || chars[q] != '.' {
            return None;
        }
        let (c, r) = match octet_at(&chars, q + 1) {
            Some(found) => found,
            None => return None,
        };
        proof {
            lemma_octets_agree(s@, q + 1, c, r as int);
        }
        if r >= chars.len() || chars[r] != '.' {
            return None;
        }
        let (d, end) = match octet_at(&chars, r + 1) {
            Some(found) => found,
            None => return None,
        };
        proof {
            lemma_octets_agree(s@, r + 1, d, end as int);
        }
        if end != chars.len() {
            return None;
        }
        let address = Ipv4Address { a, b, c, d };
        proof {
            reveal_strlit(".");
            assert(s@ =~= address.dotted());
        }
        Some(address)
    }
}

/// Whether the number `octet` stands in `s` from `start` up to `end`, and no digit follows.
spec fn octet_stands(s: Seq<char>, start: int, octet: u8, end: int) -> bool {
    &&& 0 <= start <= end <= s.len()
    &&& s.subrange(start, end) == text::decimal(octet as nat)
    &&& end == s.len() || !text::is_digit(s[end])
}

/// The positions of the dots in an address.
spec fn dots(address: Ipv4Address) -> (int, int, int) {
    let p = text::decimal(address.a as nat).len() as int;
    let q = p + 1 + text::decimal(address.b as nat).len();
    let r = q + 1 + text::decimal(address.c as nat).len();
    (p, q, r)
}

/// Whether `s` is made of the numbers of an address, with dots at the given positions.
spec fn splits_at(s: Seq<char>, address: Ipv4Address, p: int, q: int, r: int) -> bool {
    &&& octet_stands(s, 0, address.a, p)
    &&& p < s.len() && s[p] == '.'
    &&& octet_stands(s, p + 1, address.b, q)
    &&& q < s.len() && s[q] == '.'
    &&& octet_stands(s, q + 1, address.c, r)
    &&& r < s.len() && s[r] == '.'
    &&& octet_stands(s, r + 1, address.d, s.len() as int)
}

proof fn lemma_dotted_splits(address: Ipv4Address)
    ensures
        ({
            let (p, q, r) = dots(address);
            splits_at(address.dotted(), address, p, q, r)
        }),
{
    reveal_strlit(".");
    let s = address.dotted();
    let (p, q, r) = dots(address);
    assert(s.subrange(0, p) =~= text::decimal(address.a as nat));
    assert(s.subrange(p + 1, q) =~= text::decimal(address.b as nat));
    assert(s.subrange(q + 1, r) =~= text::decimal(address.c as nat));
    assert(s.subrange(r + 1, s.len() as int) =~= text::decimal(address.d as nat));
}

/// At most one number stands at a position.
proof fn lemma_octets_agree(s: Seq<char>, start: int, octet: u8, end: int)
    requires
        octet_stands(s, start, octet, end),
    ensures
        forall|o: u8, e: int| #[trigger] octet_stands(s, start, o, e) ==> o == octet && e == end,
{
    assert forall|o: u8, e: int| #[trigger] octet_stands(s, start, o, e) implies o == octet && e
        == end by {
        text::lemma_decimal(octet as nat);
        text::lemma_decimal(o as nat);
        if e < end {
            assert(text::is_digit(s.subrange(start, end)[e - start]));
        } else if end < e {
            assert(text::is_digit(s.subrange(start, e)[end - start]));
        }
    }
}

/// The number up to 255 that stands at a position, and where it ends.
fn octet_at(chars: &Vec<char>, start: usize) -> (r: Option<(u8, usize)>)
    requires
        start <= chars@.len(),
    ensures
        match r {
            Some((octet, end)) => octet_stands(chars@, start as int, octet, end as int),
            None => forall|o: u8, e: int| !#[trigger] octet_stands(chars@, start as int, o, e),
        },
{
    let mut end: usize = start;
    let mut value: u64 = 0;
    let ghost mut digits = Seq::<char>::empty();
    while end < chars.len() && end - start < 4 && is_digit_char(chars[end])
        invariant
            start <= end <= chars@.len(),
            end - start <= 4,
            digits == chars@.subrange(start as int, end as int),
            text::all_digits(digits),
            value == text::digits_value(digits),
            end - start == 0 ==> value == 0,
            end - start == 1 ==> value < 10,
            end - start == 2 ==> value < 100,
            end - start == 3 ==> value < 1000,
            end - start == 4 ==> value < 10000,
        decreases chars@.len() - end,
    {
        let code = text::code_point(chars[end]);
        value = value * 10 + (code as u64 - 48);
        proof {
            let c = chars@[end as int];
            let longer = digits.push(c);
            assert(longer.drop_last() =~= digits);
            assert(chars@.subrange(start as int, end + 1) =~= longer);
            assert forall|k: int| 0 <= k < longer.len() implies text::is_digit(
                #[trigger] longer[k],
            ) by {
                if k < digits.len() {
                    assert(text::is_digit(digits[k]));
                }
            }
            digits = longer;
        }
        end = end + 1;
    }
    proof {
        assert forall|o: u8, e: int| #[trigger]
            octet_stands(chars@, start as int, o, e) implies e == end && o == value && 1 <= end
            - start <= 3 && (end - start > 1 ==> chars@[start as int] != '0') by {
            let number = chars@.subrange(start as int, e);
            text::lemma_decimal(o as nat);
            reveal_with_fuel(text::decimal, 4);
            assert(number.len() <= 3);
            if e < end {
                assert(text::is_digit(digits[e - start]));
            } else if end < e {
                assert(text::is_digit(number[end - start]));
            }
            assert(number[0] == chars@[start as int]);
        }
    }
    let length = end - start;
    if length == 0 || length > 3 {
        return None;
    }
    if length > 1 && chars[start] == '0' {
        return None;
    }
    if value > 255 {
        return None;
    }
    proof {
        assert(digits[0] == chars@[start as int]);
        text::lemma_digits_are_decimal(digits);
    }
    Some((value as u8, end))
}

/// Whether a character is a decimal digit.
fn is_digit_char(c: char) -> (r: bool)
    ensures
        r == text::is_digit(c),
{
    let code = text::code_point(c);
    48 <= code && code <= 57
}

impl SocketAddress {
    /// The address in dotted decimal, a colon and the port.
    pub open spec fn text(self) -> Seq<char> {
        self.ip.dotted() + ":"@ + text::decimal(self.port as nat)
    }

    /// The address in dotted decimal, a colon and the port.
    pub fn to_text(&self) -> (s: String)
        ensures
            s@ == self.text(),
    {
        let mut s = self.ip.to_text();
        s.append(":");
        s.append(text::decimal_text(self.port as u64).as_str());
        s
    }
}

/// Different addresses are written differently, so that an address that was written is the one
/// that is read back.
pub proof fn law_dotted_is_unambiguous(x: Ipv4Address, y: Ipv4Address)
    requires
        x.dotted() == y.dotted(),
    ensures
        x == y,
{
    let s = x.dotted();
    lemma_dotted_splits(x);
    lemma_dotted_splits(y);
    let (p, q, r) = dots(x);
    lemma_octets_agree(s, 0, x.a, p);
    lemma_octets_agree(s, p + 1, x.b, q);
    lemma_octets_agree(s, q + 1, x.c, r);
    lemma_octets_agree(s, r + 1, x.d, s.len() as int);
}

} // verus!
