//! The 48-bit hardware address of a network interface.

use crate::bytes::{
    be_value, lemma_be_value_2, lemma_be_value_4, lemma_be_value_6,
    lemma_be_value_determines_bytes,
};
use crate::net::error::{Error, ErrorView};
use crate::text::{hex_digit, hex_digit_str, hex_pair};
use std::array::TryFromSliceError;
use std::str::FromStr;
use vstd::prelude::*;
use vstd::std_specs::iter::IteratorSpec;
use vstd::std_specs::convert::{FromSpecImpl, TryFromSpecImpl};

verus! {

/// The number of octets in a hardware address.
pub const MAC_ADDR_LEN: usize = 6;

/// A hardware address: six octets, the first sent first.
#[derive(Clone, Copy, Debug, PartialEq, Eq, PartialOrd, Ord, Hash)]
pub struct MacAddr([u8; 6]);

impl View for MacAddr {
    type V = Seq<u8>;

    closed spec fn view(&self) -> Seq<u8> {
        self.0@
    }
}

impl MacAddr {
    /// The address of all zeros.
    pub fn zero() -> (r: MacAddr)
        ensures
            r@ == seq![0u8, 0u8, 0u8, 0u8, 0u8, 0u8],
    {
        let r = MacAddr([0, 0, 0, 0, 0, 0]);
        assert(r@ =~= seq![0u8, 0u8, 0u8, 0u8, 0u8, 0u8]);
        r
    }

    /// An address has six octets.
    pub proof fn lemma_six_octets(self)
        ensures
            self@.len() == MAC_ADDR_LEN,
    {
    }

    /// The address as a number: its octets read as one big-endian numeral.
    pub open spec fn value(self) -> nat {
        be_value(self@)
    }

    /// The address with the octets given.
    pub closed spec fn of(octets: [u8; 6]) -> MacAddr {
        MacAddr(octets)
    }

    /// The address made of octets has those octets.
    pub proof fn lemma_of(octets: [u8; 6])
        ensures
            MacAddr::of(octets)@ == octets@,
    {
    }

    /// Whether the address is the broadcast address, all ones.
    pub open spec fn is_broadcast(self) -> bool {
        self.value() == 0xffff_ffff_ffff
    }

    /// Whether the first octet of a frame's destination marks it as sent to
    /// a group. The slice must be longer than an address.
    pub fn is_multicast(octets: &[u8]) -> (r: bool)
        requires
            octets@.len() > MAC_ADDR_LEN,
        ensures
            r == (octets@[0] % 2 == 1),
    {
        let first: u8 = octets[0];
        assert(first & 0x1 == first % 2) by (bit_vector);
        first & 0x1 == 1
    }

    /// Whether the address is that of a single station: neither the
    /// broadcast address nor a group address.
    pub fn is_unicast(mac: MacAddr) -> (r: bool)
        ensures
            r == (!mac.is_broadcast() && mac@[0] % 2 == 0),
    {
        let n: u64 = mac.to_u64();
        let first: u8 = mac.0[0];
        proof {
            lemma_be_value_6(mac@);
            let rest: u64 = (n - 0x100_0000_0000 * first) as u64;
            assert((0x100_0000_0000 * first + rest) as u64 & 0x0100_0000_0000 == 0x0100_0000_0000
                <==> first % 2 == 1) by (bit_vector)
                requires
                    rest < 0x100_0000_0000,
            ;
        }
        n != 0xffff_ffff_ffff && n & 0x0100_0000_0000 != 0x0100_0000_0000
    }

    /// The address as a number.
    pub fn to_u64(&self) -> (r: u64)
        ensures
            r == self.value(),
            r <= 0xffff_ffff_ffff,
    {
        let b0: u64 = self.0[0] as u64;
        let b1: u64 = self.0[1] as u64;
        let b2: u64 = self.0[2] as u64;
        let b3: u64 = self.0[3] as u64;
        let b4: u64 = self.0[4] as u64;
        let b5: u64 = self.0[5] as u64;
        proof {
            lemma_be_value_6(self@);
            assert((b0 << 40) | (b1 << 32) | (b2 << 24) | (b3 << 16) | (b4 << 8) | b5
                == 0x100_0000_0000 * b0 + 0x1_0000_0000 * b1 + 0x100_0000 * b2 + 0x1_0000 * b3
                + 0x100 * b4 + b5) by (bit_vector)
                requires
                    b0 < 0x100,
                    b1 < 0x100,
                    b2 < 0x100,
                    b3 < 0x100,
                    b4 < 0x100,
                    b5 < 0x100,
            ;
        }
        (b0 << 40) | (b1 << 32) | (b2 << 24) | (b3 << 16) | (b4 << 8) | b5
    }

    /// The octets of the address.
    pub fn octets(&self) -> (r: &[u8; 6])
        ensures
            r@ == self@,
    {
        &self.0
    }

    /// The last four octets as a number.
    pub fn to_lower_32b(&self) -> (r: u32)
        ensures
            r as nat == be_value(self@.subrange(2, 6)),
    {
        let b2: u32 = self.0[2] as u32;
        let b3: u32 = self.0[3] as u32;
        let b4: u32 = self.0[4] as u32;
        let b5: u32 = self.0[5] as u32;
        proof {
            lemma_be_value_4(self@.subrange(2, 6));
            assert((b2 << 24) | (b3 << 16) | (b4 << 8) | b5 == 0x100_0000 * b2 + 0x1_0000 * b3
                + 0x100 * b4 + b5) by (bit_vector)
                requires
                    b2 < 0x100,
                    b3 < 0x100,
                    b4 < 0x100,
                    b5 < 0x100,
            ;
        }
        (b2 << 24) | (b3 << 16) | (b4 << 8) | b5
    }

    /// The last two octets as a number.
    pub fn get_suffix(&self) -> (r: u16)
        ensures
            r as nat == be_value(self@.subrange(4, 6)),
    {
        let b4: u16 = self.0[4] as u16;
        let b5: u16 = self.0[5] as u16;
        proof {
            lemma_be_value_2(self@.subrange(4, 6));
            assert((b4 << 8) | b5 == 0x100 * b4 + b5) by (bit_vector)
                requires
                    b4 < 0x100,
                    b5 < 0x100,
            ;
        }
        (b4 << 8) | b5
    }
}

impl Default for MacAddr {
    fn default() -> (r: Self)
        ensures
            r@ == seq![0u8, 0u8, 0u8, 0u8, 0u8, 0u8],
    {
        MacAddr::zero()
    }
}

impl From<MacAddr> for u64 {
    fn from(mac: MacAddr) -> (r: u64) {
        mac.to_u64()
    }
}

impl FromSpecImpl<MacAddr> for u64 {
    open spec fn obeys_from_spec() -> bool {
        true
    }

    open spec fn from_spec(mac: MacAddr) -> u64 {
        mac.value() as u64
    }
}

impl From<[u8; 6]> for MacAddr {
    fn from(octets: [u8; 6]) -> (r: MacAddr) {
        MacAddr(octets)
    }
}

impl FromSpecImpl<[u8; 6]> for MacAddr {
    open spec fn obeys_from_spec() -> bool {
        true
    }

    open spec fn from_spec(octets: [u8; 6]) -> MacAddr {
        MacAddr::of(octets)
    }
}

/// The error of a slice that does not have the length of the array asked
/// for.
#[verifier::external_type_specification]
#[verifier::external_body]
pub struct ExTryFromSliceError(std::array::TryFromSliceError);

/// `<[u8; 6]>::try_from` on a slice: an array with the slice's elements if
/// the slice has six of them, an error if it has not.
#[verifier::external_body]
fn six_octets(octets: &[u8]) -> (r: Result<[u8; 6], TryFromSliceError>)
    ensures
        r is Ok <==> octets@.len() == 6,
        r is Ok ==> r->Ok_0@ == octets@,
{
    <[u8; 6]>::try_from(octets)
}

impl TryFrom<&[u8]> for MacAddr {
    type Error = TryFromSliceError;

    /// The address with the octets of a slice, which must hold six.
    fn try_from(octets: &[u8]) -> (r: Result<Self, Self::Error>)
        ensures
            r is Ok <==> octets@.len() == MAC_ADDR_LEN,
            r is Ok ==> r->Ok_0@ == octets@,
    {
        match six_octets(octets) {
            Ok(array) => Ok(MacAddr(array)),
            Err(e) => Err(e),
        }
    }
}

impl TryFromSpecImpl<&[u8]> for MacAddr {
    open spec fn obeys_try_from_spec() -> bool {
        false
    }

    open spec fn try_from_spec(octets: &[u8]) -> Result<Self, TryFromSliceError> {
        arbitrary()
    }
}

impl TryFrom<u64> for MacAddr {
    type Error = u64;

    /// The address that a number denotes. A number that does not fit into
    /// 48 bits is handed back as the error.
    fn try_from(value: u64) -> (r: Result<Self, Self::Error>)
        ensures
            match r {
                Ok(mac) => mac.value() == value,
                Err(e) => value > 0xffff_ffff_ffff && e == value,
            },
    {
        if value & 0xFFFF_0000_0000_0000 != 0 {
            assert(value & 0xFFFF_0000_0000_0000 != 0 ==> value > 0xffff_ffff_ffff)
                by (bit_vector);
            return Err(value);
        }
        assert(value & 0xFFFF_0000_0000_0000 == 0 ==> value <= 0xffff_ffff_ffff) by (bit_vector);
        let x0: u64 = (value >> 40) & 0xff;
        let x1: u64 = (value >> 32) & 0xff;
        let x2: u64 = (value >> 24) & 0xff;
        let x3: u64 = (value >> 16) & 0xff;
        let x4: u64 = (value >> 8) & 0xff;
        let x5: u64 = value & 0xff;
        proof {
            assert(((value >> 40) & 0xff) < 0x100 && ((value >> 32) & 0xff) < 0x100 && ((value
                >> 24) & 0xff) < 0x100 && ((value >> 16) & 0xff) < 0x100 && ((value >> 8) & 0xff)
                < 0x100 && (value & 0xff) < 0x100) by (bit_vector);
            assert(0x100_0000_0000 * ((value >> 40) & 0xff) + 0x1_0000_0000 * ((value >> 32)
                & 0xff) + 0x100_0000 * ((value >> 24) & 0xff) + 0x1_0000 * ((value >> 16) & 0xff)
                + 0x100 * ((value >> 8) & 0xff) + (value & 0xff) == value) by (bit_vector)
                requires
                    value <= 0xffff_ffff_ffff,
            ;
        }
        let octets: [u8; 6] = [x0 as u8, x1 as u8, x2 as u8, x3 as u8, x4 as u8, x5 as u8];
        let mac = MacAddr(octets);
        proof {
            lemma_be_value_6(mac@);
            assert(mac@[0] == x0 && mac@[1] == x1 && mac@[2] == x2 && mac@[3] == x3 && mac@[4]
                == x4 && mac@[5] == x5);
        }
        Ok(mac)
    }
}

impl TryFromSpecImpl<u64> for MacAddr {
    open spec fn obeys_try_from_spec() -> bool {
        false
    }

    open spec fn try_from_spec(value: u64) -> Result<Self, u64> {
        arbitrary()
    }
}

/// The value of a hexadecimal digit, in either case.
pub open spec fn hex_value(c: char) -> Option<nat> {
    if '0' <= c <= '9' {
        Some((c as nat - '0' as nat) as nat)
    } else if 'a' <= c <= 'f' {
        Some((c as nat - 'a' as nat + 10) as nat)
    } else if 'A' <= c <= 'F' {
        Some((c as nat - 'A' as nat + 10) as nat)
    } else {
        None
    }
}

/// Whether every character is a hexadecimal digit.
pub open spec fn all_hex(digits: Seq<char>) -> bool {
    forall|i: int| 0 <= i < digits.len() ==> hex_value(#[trigger] digits[i]) is Some
}

/// The number that hexadecimal digits denote.
pub open spec fn hex_number(digits: Seq<char>) -> nat
    decreases digits.len(),
{
    if digits.len() == 0 {
        0
    } else {
        16 * hex_number(digits.drop_last()) + match hex_value(digits.last()) {
            Some(v) => v,
            None => 0,
        }
    }
}

/// A part without the plus sign that may lead it.
pub open spec fn unsigned(part: Seq<char>) -> Seq<char> {
    if part.len() > 0 && part[0] == '+' {
        part.drop_first()
    } else {
        part
    }
}

/// The octet that one part of an address text denotes: one or more
/// hexadecimal digits, with or without a leading plus sign, that make a
/// number up to 255.
pub open spec fn octet_of(part: Seq<char>) -> Option<u8> {
    let digits = unsigned(part);
    if digits.len() > 0 && all_hex(digits) && hex_number(digits) <= 255 {
        Some(hex_number(digits) as u8)
    } else {
        None
    }
}

/// The parts of a text between its colons. A text without a colon is one
/// part, and a colon at either end has an empty part beside it.
pub open spec fn split_colons(text: Seq<char>) -> Seq<Seq<char>>
    decreases text.len(),
{
    if text.len() == 0 {
        seq![Seq::empty()]
    } else {
        let before = split_colons(text.drop_last());
        if text.last() == ':' {
            before.push(Seq::empty())
        } else {
            before.update(before.len() - 1, before.last().push(text.last()))
        }
    }
}

/// The octets that an address text denotes: the text has at most six parts
/// between colons, each part denotes an octet, and the octets that the text
/// leaves out are zero.
pub open spec fn parse_mac(text: Seq<char>) -> Option<Seq<u8>> {
    let parts = split_colons(text);
    if parts.len() <= 6 && (forall|k: int|
        0 <= k < parts.len() ==> octet_of(#[trigger] parts[k]) is Some) {
        Some(
            Seq::new(
                6,
                |k: int|
                    if k < parts.len() {
                        octet_of(parts[k])->Some_0
                    } else {
                        0u8
                    },
            ),
        )
    } else {
        None
    }
}

/// Whether the parts before the last are at most six and each denotes an
/// octet.
spec fn closed_parts_ok(parts: Seq<Seq<char>>) -> bool {
    &&& parts.len() - 1 <= 6
    &&& forall|k: int| 0 <= k < parts.len() - 1 ==> octet_of(#[trigger] parts[k]) is Some
}

/// A character added to the last part leaves the parts before it as they
/// were.
proof fn lemma_extend_last_part(parts: Seq<Seq<char>>, c: char)
    requires
        parts.len() >= 1,
    ensures
        closed_parts_ok(parts.update(parts.len() - 1, parts.last().push(c))) == closed_parts_ok(
            parts,
        ),
{
    let longer = parts.update(parts.len() - 1, parts.last().push(c));
    assert(longer.len() == parts.len());
    if closed_parts_ok(parts) {
        assert forall|k: int| 0 <= k < longer.len() - 1 implies octet_of(#[trigger] longer[k])
            is Some by {
            assert(longer[k] == parts[k]);
        }
    }
    if closed_parts_ok(longer) {
        assert forall|k: int| 0 <= k < parts.len() - 1 implies octet_of(#[trigger] parts[k])
            is Some by {
            assert(longer[k] == parts[k]);
        }
    }
}

/// A colon closes the last part, which then has to denote an octet and to
/// be one of the first six.
proof fn lemma_close_last_part(parts: Seq<Seq<char>>)
    requires
        parts.len() >= 1,
    ensures
        closed_parts_ok(parts.push(Seq::empty())) == (closed_parts_ok(parts) && parts.len() <= 6
            && octet_of(parts.last()) is Some),
{
    let longer = parts.push(Seq::empty());
    if closed_parts_ok(parts) && parts.len() <= 6 && octet_of(parts.last()) is Some {
        assert forall|k: int| 0 <= k < longer.len() - 1 implies octet_of(#[trigger] longer[k])
            is Some by {
            assert(longer[k] == parts[k]);
        }
    }
    if closed_parts_ok(longer) {
        assert forall|k: int| 0 <= k < parts.len() - 1 implies octet_of(#[trigger] parts[k])
            is Some by {
            assert(longer[k] == parts[k]);
        }
        assert(longer[parts.len() - 1] == parts.last());
    }
}

/// The value of a hexadecimal digit.
fn hex_of(c: char) -> (r: Option<u8>)
    ensures
        match r {
            Some(v) => hex_value(c) == Some(v as nat) && v < 16,
            None => hex_value(c) is None,
        },
{
    if '0' <= c && c <= '9' {
        Some((c as u32 - '0' as u32) as u8)
    } else if 'a' <= c && c <= 'f' {
        Some((c as u32 - 'a' as u32 + 10) as u8)
    } else if 'A' <= c && c <= 'F' {
        Some((c as u32 - 'A' as u32 + 10) as u8)
    } else {
        None
    }
}

/// The part of an address text that is being read.
struct Part {
    plus: bool,
    has_digits: bool,
    hex_ok: bool,
    big: bool,
    val: u8,
}

impl Part {
    /// Whether the record describes the part read so far.
    spec fn describes(self, part: Seq<char>) -> bool {
        let digits = unsigned(part);
        &&& self.plus <==> part.len() > 0 && part[0] == '+'
        &&& self.has_digits <==> digits.len() > 0
        &&& self.hex_ok <==> all_hex(digits)
        &&& self.hex_ok ==> (self.big <==> hex_number(digits) > 255)
        &&& self.hex_ok && !self.big ==> self.val == hex_number(digits)
    }

    fn empty() -> (r: Part)
        ensures
            r.describes(Seq::empty()),
    {
        Part { plus: false, has_digits: false, hex_ok: true, big: false, val: 0 }
    }

    /// Takes in the next character of the part.
    fn push(&mut self, c: char, Ghost(part): Ghost<Seq<char>>)
        requires
            old(self).describes(part),
            c != ':',
        ensures
            final(self).describes(part.push(c)),
    {
        let ghost digits = unsigned(part);
        let ghost longer = unsigned(part.push(c));
        if !self.plus && !self.has_digits && c == '+' {
            proof {
                assert(part.len() == 0);
                assert(longer =~= Seq::empty());
            }
            self.plus = true;
        } else {
            proof {
                assert(longer =~= digits.push(c));
                assert(longer.drop_last() =~= digits);
                assert(longer.last() == c);
            }
            self.has_digits = true;
            match hex_of(c) {
                None => {
                    self.hex_ok = false;
                },
                Some(v) => {
                    proof {
                        if self.hex_ok {
                            assert forall|i: int| 0 <= i < longer.len() implies hex_value(
                                #[trigger] longer[i],
                            ) is Some by {
                                if i < digits.len() {
                                    assert(longer[i] == digits[i]);
                                }
                            }
                        } else {
                            let bad = choose|i: int|
                                0 <= i < digits.len() && !(hex_value(#[trigger] digits[i])
                                    is Some);
                            assert(longer[bad] == digits[bad]);
                        }
                    }
                    if self.hex_ok && !self.big {
                        let wide: u16 = (self.val as u16) * 16 + (v as u16);
                        if wide > 255 {
                            self.big = true;
                        } else {
                            self.val = wide as u8;
                        }
                    }
                },
            }
        }
    }

    /// The octet that the part denotes, if it denotes one.
    fn octet(&self, Ghost(part): Ghost<Seq<char>>) -> (r: Option<u8>)
        requires
            self.describes(part),
        ensures
            r == octet_of(part),
    {
        if self.has_digits && self.hex_ok && !self.big {
            Some(self.val)
        } else {
            None
        }
    }
}

impl MacAddr {
    /// Reads an address from text: up to six parts separated by colons,
    /// each an octet in hexadecimal. Octets that the text leaves out are
    /// zero. A text that is not of this form is refused, and the error
    /// holds the text.
    pub fn parse(s: &str) -> (r: Result<MacAddr, Error>)
        ensures
            match r {
                Ok(mac) => parse_mac(s@) == Some(mac@),
                Err(e) => parse_mac(s@) is None && e@ == ErrorView::ParseMacFailed(s@),
            },
    {
        broadcast use {vstd::string::axiom_spec_iter, vstd::string::next_postcondition};

        let mut addr: [u8; 6] = [0, 0, 0, 0, 0, 0];
        let mut done: usize = 0;
        let mut ok = true;
        let mut part = Part::empty();
        let mut it = s.chars();
        let ghost mut i: int = 0;
        loop
            invariant
                0 <= i <= s@.len(),
                it.remaining() == s@.skip(i),
                it.obeys_prophetic_iter_laws(),
                it.decrease() is Some,
                split_colons(s@.take(i)).len() >= 1,
                done <= 7,
                done == if split_colons(s@.take(i)).len() - 1 < 7 {
                    split_colons(s@.take(i)).len() - 1
                } else {
                    7
                },
                ok <==> closed_parts_ok(split_colons(s@.take(i))),
                ok ==> forall|k: int|
                    0 <= k < split_colons(s@.take(i)).len() - 1 ==> #[trigger] addr@[k]
                        == octet_of(split_colons(s@.take(i))[k])->Some_0,
                forall|k: int|
                    split_colons(s@.take(i)).len() - 1 <= k < 6 ==> #[trigger] addr@[k] == 0,
                part.describes(split_colons(s@.take(i)).last()),
            ensures
                i == s@.len(),
            decreases s@.len() - i,
        {
            let ghost parts = split_colons(s@.take(i));
            match it.next() {
                Some(c) => {
                    proof {
                        assert(c == s@[i]);
                        assert(s@.skip(i).drop_first() =~= s@.skip(i + 1));
                        assert(s@.take(i + 1).drop_last() =~= s@.take(i));
                        assert(s@.take(i + 1).last() == c);
                    }
                    let ghost longer = split_colons(s@.take(i + 1));
                    if c == ':' {
                        proof {
                            assert(longer == parts.push(Seq::empty()));
                            lemma_close_last_part(parts);
                        }
                        let octet = part.octet(Ghost(parts.last()));
                        match octet {
                            Some(v) => {
                                if ok && done < 6 {
                                    addr[done] = v;
                                } else {
                                    ok = false;
                                }
                            },
                            None => {
                                ok = false;
                            },
                        }
                        if done < 7 {
                            done = done + 1;
                        }
                        part = Part::empty();
                        proof {
                            assert forall|k: int| 0 <= k < longer.len() - 1 implies longer[k]
                                == parts[k] by {}
                        }
                    } else {
                        proof {
                            assert(longer == parts.update(
                                parts.len() - 1,
                                parts.last().push(c),
                            ));
                            lemma_extend_last_part(parts, c);
                        }
                        part.push(c, Ghost(parts.last()));
                    }
                    proof {
                        i = i + 1;
                    }
                },
                None => {
                    break;
                },
            }
        }
        proof {
            assert(s@.take(i) =~= s@);
        }
        let ghost parts = split_colons(s@);
        let octet = part.octet(Ghost(parts.last()));
        match octet {
            Some(v) => {
                if ok && done < 6 {
                    addr[done] = v;
                    let mac = MacAddr(addr);
                    proof {
                        assert(mac@ =~= parse_mac(s@)->Some_0);
                    }
                    return Ok(mac);
                }
            },
            None => {},
        }
        Err(Error::ParseMacFailed(s.to_owned()))
    }
}

impl FromStr for MacAddr {
    type Err = Error;

    fn from_str(s: &str) -> (r: Result<Self, Self::Err>)
        ensures
            match r {
                Ok(mac) => parse_mac(s@) == Some(mac@),
                Err(e) => parse_mac(s@) is None && e@ == ErrorView::ParseMacFailed(s@),
            },
    {
        MacAddr::parse(s)
    }
}

/// An address as text: its six octets in two lower-case hexadecimal digits
/// each, with colons between them.
pub open spec fn mac_text(octets: Seq<u8>) -> Seq<char> {
    hex_pair(octets[0]) + seq![':'] + hex_pair(octets[1]) + seq![':'] + hex_pair(octets[2])
        + seq![':'] + hex_pair(octets[3]) + seq![':'] + hex_pair(octets[4]) + seq![':']
        + hex_pair(octets[5])
}

/// Appends the two hexadecimal digits of an octet.
fn push_hex_pair(out: &mut String, b: u8)
    ensures
        final(out)@ == old(out)@ + hex_pair(b),
{
    out.append(hex_digit_str(b / 16));
    out.append(hex_digit_str(b % 16));
    assert(final(out)@ =~= old(out)@ + hex_pair(b));
}

impl MacAddr {
    /// The address as text, such as `00:1b:21:3c:9d:f8`.
    pub fn to_string(&self) -> (r: String)
        ensures
            r@ == mac_text(self@),
    {
        proof {
            reveal_strlit(":");
            assert(":"@ =~= seq![':']);
        }
        let mut out = String::new();
        push_hex_pair(&mut out, self.0[0]);
        out.append(":");
        push_hex_pair(&mut out, self.0[1]);
        out.append(":");
        push_hex_pair(&mut out, self.0[2]);
        out.append(":");
        push_hex_pair(&mut out, self.0[3]);
        out.append(":");
        push_hex_pair(&mut out, self.0[4]);
        out.append(":");
        push_hex_pair(&mut out, self.0[5]);
        assert(out@ =~= mac_text(self@));
        out
    }
}

/// A hexadecimal digit is neither a colon nor a plus sign, and reads back as
/// the number it was written for.
pub proof fn lemma_hex_digit_reads_back(n: nat)
    requires
        n < 16,
    ensures
        hex_digit(n) != ':',
        hex_digit(n) != '+',
        hex_value(hex_digit(n)) == Some(n),
{
    reveal_strlit("0123456789abcdef");
}

/// The two digits written for an octet read back as that octet.
pub proof fn lemma_hex_pair_reads_back(b: u8)
    ensures
        octet_of(hex_pair(b)) == Some(b),
        hex_pair(b).len() == 2,
        hex_pair(b)[0] != ':',
        hex_pair(b)[1] != ':',
{
    let pair = hex_pair(b);
    lemma_hex_digit_reads_back(b as nat / 16);
    lemma_hex_digit_reads_back(b as nat % 16);
    assert(unsigned(pair) == pair);
    assert(pair.drop_last() =~= seq![pair[0]]);
    assert(pair.drop_last().drop_last() =~= Seq::<char>::empty());
    reveal_with_fuel(hex_number, 3);
    assert(hex_number(pair) == 16 * (b as nat / 16) + b as nat % 16);
}

/// A colon at the end of a text begins a new, empty part.
pub proof fn lemma_split_after_colon(text: Seq<char>)
    ensures
        split_colons(text.push(':')) == split_colons(text).push(Seq::empty()),
{
    assert(text.push(':').drop_last() =~= text);
}

/// Characters other than colons at the end of a text lengthen its last
/// part.
pub proof fn lemma_split_after_part(text: Seq<char>, more: Seq<char>)
    requires
        forall|i: int| 0 <= i < more.len() ==> more[i] != ':',
    ensures
        split_colons(text).len() >= 1,
        split_colons(text + more) == split_colons(text).update(
            split_colons(text).len() - 1,
            split_colons(text).last() + more,
        ),
    decreases more.len(),
{
    lemma_split_is_not_empty(text);
    let parts = split_colons(text);
    if more.len() == 0 {
        assert(text + more =~= text);
        assert(parts.last() + more =~= parts.last());
        assert(parts.update(parts.len() - 1, parts.last()) =~= parts);
    } else {
        let shorter = more.drop_last();
        lemma_split_after_part(text, shorter);
        assert((text + more).drop_last() =~= text + shorter);
        assert((text + more).last() == more.last());
        let before = split_colons(text + shorter);
        assert(before.last().push(more.last()) =~= parts.last() + more);
        assert(before.update(before.len() - 1, before.last().push(more.last())) =~= parts.update(
            parts.len() - 1,
            parts.last() + more,
        ));
    }
}

/// Every text has at least one part.
pub proof fn lemma_split_is_not_empty(text: Seq<char>)
    ensures
        split_colons(text).len() >= 1,
    decreases text.len(),
{
    if text.len() > 0 {
        lemma_split_is_not_empty(text.drop_last());
    }
}

/// One more octet written after a colon is one more part.
proof fn lemma_split_next_octet(text: Seq<char>, b: u8)
    ensures
        split_colons(text + seq![':'] + hex_pair(b)) == split_colons(text).push(hex_pair(b)),
{
    lemma_hex_pair_reads_back(b);
    lemma_split_after_colon(text);
    assert(text + seq![':'] =~= text.push(':'));
    lemma_split_after_part(text.push(':'), hex_pair(b));
    let parts = split_colons(text).push(Seq::empty());
    assert(Seq::<char>::empty() + hex_pair(b) =~= hex_pair(b));
    assert(parts.update(parts.len() - 1, hex_pair(b)) =~= split_colons(text).push(hex_pair(b)));
}

/// What is written is read back: the text of an address denotes the octets
/// it was written for.
pub proof fn lemma_text_reads_back(octets: Seq<u8>)
    requires
        octets.len() == 6,
    ensures
        parse_mac(mac_text(octets)) == Some(octets),
{
    let p0 = hex_pair(octets[0]);
    let t0 = p0;
    let t1 = t0 + seq![':'] + hex_pair(octets[1]);
    let t2 = t1 + seq![':'] + hex_pair(octets[2]);
    let t3 = t2 + seq![':'] + hex_pair(octets[3]);
    let t4 = t3 + seq![':'] + hex_pair(octets[4]);
    let t5 = t4 + seq![':'] + hex_pair(octets[5]);
    assert(t5 == mac_text(octets));
    lemma_hex_pair_reads_back(octets[0]);
    lemma_split_after_part(Seq::empty(), p0);
    assert(Seq::<char>::empty() + p0 =~= p0);
    assert(split_colons(Seq::<char>::empty()) =~= seq![Seq::<char>::empty()]);
    assert(split_colons(t0) =~= seq![p0]);
    lemma_split_next_octet(t0, octets[1]);
    lemma_split_next_octet(t1, octets[2]);
    lemma_split_next_octet(t2, octets[3]);
    lemma_split_next_octet(t3, octets[4]);
    lemma_split_next_octet(t4, octets[5]);
    let parts = split_colons(t5);
    assert(parts.len() == 6);
    assert forall|k: int| 0 <= k < parts.len() implies octet_of(#[trigger] parts[k]) == Some(
        octets[k],
    ) by {
        assert(parts[k] == hex_pair(octets[k]));
        lemma_hex_pair_reads_back(octets[k]);
    }
    assert(parse_mac(t5)->Some_0 =~= octets);
}

/// An address is determined by its number: two addresses with the same
/// number have the same octets.
pub proof fn lemma_value_determines_octets(a: MacAddr, b: MacAddr)
    requires
        a.value() == b.value(),
    ensures
        a@ == b@,
{
    lemma_be_value_determines_bytes(a@, b@);
}

} // verus!
