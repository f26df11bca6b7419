//! Identifiers.

use crate::hash::{hex_char, hex_value};
use vstd::arithmetic::div_mod::lemma_div_denominator;
use vstd::arithmetic::power::{lemma_pow_positive, pow};
use vstd::prelude::*;

verus! {

/// A 128 bit identifier, as the number that its bytes make in big endian order.
#[derive(Clone, Copy, Debug, PartialEq, Eq, Structural)]
pub struct Uuid {
    pub bits: u128,
}

/// The hexadecimal digit of `bits` that `place` digits follow.
pub open spec fn nibble(bits: nat, place: nat) -> int {
    (bits as int / pow(16, place)) % 16
}

/// How many hyphens stand before position `i` of a hyphenated identifier.
pub open spec fn hyphens_before(i: int) -> int {
    if i <= 8 {
        0
    } else if i <= 13 {
        1
    } else if i <= 18 {
        2
    } else if i <= 23 {
        3
    } else {
        4
    }
}

/// An identifier in its canonical form: 32 hexadecimal digits in groups of 8, 4, 4, 4 and 12,
/// joined by hyphens.
pub open spec fn hyphenated(id: Uuid) -> Seq<char> {
    Seq::new(
        36,
        |i: int|
            if i == 8 || i == 13 || i == 18 || i == 23 {
                '-'
            } else {
                hex_char(nibble(id.bits as nat, (31 - (i - hyphens_before(i))) as nat))
            },
    )
}

/// What the text of an identifier is read as; `None` for a text that is not one.
pub uninterp spec fn parsed_uuid(s: Seq<char>) -> Option<u128>;

/// Calls `uuid::Uuid::new_v4`. Whatever is drawn, the version digit is 4 and the variant bits
/// are 10; the other bits are random. The call does not return where the machine has no source of
/// randomness.
#[verifier::external_body]
fn uuid_new_v4() -> (bits: u128)
    ensures
        nibble(bits as nat, 19) == 4,
        8 <= nibble(bits as nat, 15) < 12,
{
    uuid::Uuid::new_v4().as_u128()
}

/// Calls `to_string` on a `uuid::Uuid`, which writes the canonical form in lower case.
#[verifier::external_body]
fn uuid_to_string(bits: u128) -> (s: String)
    ensures
        s@ == hyphenated(Uuid { bits }),
{
    uuid::Uuid::from_u128(bits).to_string()
}

/// Calls `uuid::Uuid::parse_str`. What it returns is a function of the text, and the canonical
/// form of an identifier is read back as that identifier.
#[verifier::external_body]
fn uuid_parse_str(s: &str) -> (r: Option<u128>)
    ensures
        r == parsed_uuid(s@),
        forall|id: Uuid| s@ == #[trigger] hyphenated(id) ==> r == Some(id.bits),
{
    uuid::Uuid::parse_str(s).ok().map(|id| id.as_u128())
}

/// Whether an identifier carries the version and variant marks of a random one.
pub open spec fn is_random_uuid(id: Uuid) -> bool {
    &&& nibble(id.bits as nat, 19) == 4
    &&& 8 <= nibble(id.bits as nat, 15) < 12
}

/// What a text names.
pub open spec fn uuid_named(s: Seq<char>) -> Option<Uuid> {
    match parsed_uuid(s) {
        Some(bits) => Some(Uuid { bits }),
        None => None,
    }
}

impl Uuid {
    /// A fresh random identifier.
    pub fn new_v4() -> (id: Uuid)
        ensures
            is_random_uuid(id),
    {
        Uuid { bits: uuid_new_v4() }
    }

    /// The canonical form.
    pub fn text(&self) -> (s: String)
        ensures
            s@ == hyphenated(*self),
    {
        uuid_to_string(self.bits)
    }

    /// Reads an identifier; `None` for a text that is not one.
    pub fn parse_str(s: &str) -> (id: Option<Uuid>)
        ensures
            id == uuid_named(s@),
            forall|known: Uuid| s@ == #[trigger] hyphenated(known) ==> id == Some(known),
    {
        match uuid_parse_str(s) {
            Some(bits) => Some(Uuid { bits }),
            None => None,
        }
    }
}

proof fn nibble_of_quotient(bits: nat, place: nat)
    ensures
        nibble(bits, place + 1) == nibble(bits / 16, place),
{
    lemma_pow_positive(16, place);
    reveal(pow);
    assert(pow(16, place + 1) == 16 * pow(16, place));
    lemma_div_denominator(bits as int, 16, pow(16, place));
}

proof fn nibbles_determine(a: nat, b: nat, places: nat)
    requires
        a < pow(16, places),
        b < pow(16, places),
        forall|p: nat| p < places ==> #[trigger] nibble(a, p) == nibble(b, p),
    ensures
        a == b,
    decreases places,
{
    reveal(pow);
    if places > 0 {
        let rest = (places - 1) as nat;
        assert(pow(16, places) == 16 * pow(16, rest));
        assert forall|p: nat| p < rest implies #[trigger] nibble(a / 16, p) == nibble(b / 16, p) by {
            nibble_of_quotient(a, p);
            nibble_of_quotient(b, p);
            assert(nibble(a, p + 1) == nibble(b, p + 1));
        }
        nibbles_determine(a / 16, b / 16, rest);
        assert(pow(16, 0) == 1);
        assert(nibble(a, 0) == nibble(b, 0));
    }
}

/// Different identifiers have different texts.
pub proof fn hyphenated_injective(a: Uuid, b: Uuid)
    requires
        hyphenated(a) == hyphenated(b),
    ensures
        a == b,
{
    assert forall|p: nat| p < 32 implies #[trigger] nibble(a.bits as nat, p) == nibble(
        b.bits as nat,
        p,
    ) by {
        let d = 31 - p;
        let i = if d < 8 {
            d
        } else if d < 12 {
            d + 1
        } else if d < 16 {
            d + 2
        } else if d < 20 {
            d + 3
        } else {
            d + 4
        };
        assert(hyphenated(a)[i] == hex_char(nibble(a.bits as nat, p)));
        assert(hyphenated(b)[i] == hex_char(nibble(b.bits as nat, p)));
    }
    assert(pow(16, 32) > u128::MAX) by {
        reveal_with_fuel(pow, 33);
    }
    nibbles_determine(a.bits as nat, b.bits as nat, 32);
}

/// The number that hexadecimal digits stand for, whatever hyphens stand between them.
pub open spec fn hex_number(s: Seq<char>) -> int
    decreases s.len(),
{
    if s.len() == 0 {
        0
    } else if s.last() == '-' {
        hex_number(s.drop_last())
    } else {
        16 * hex_number(s.drop_last()) + hex_value(s.last())
    }
}

proof fn hyphenated_prefix_reads_back(id: Uuid, i: int)
    requires
        0 <= i <= 36,
    ensures
        hex_number(hyphenated(id).take(i)) == id.bits as int / pow(
            16,
            (32 - (i - hyphens_before(i))) as nat,
        ),
    decreases i,
{
    let s = hyphenated(id);
    let place = (32 - (i - hyphens_before(i))) as nat;
    if i == 0 {
        assert(pow(16, 32) > u128::MAX) by {
            reveal_with_fuel(pow, 33);
        }
        assert(id.bits as int / pow(16, 32) == 0) by (nonlinear_arith)
            requires
                pow(16, 32) > id.bits,
        ;
    } else {
        hyphenated_prefix_reads_back(id, i - 1);
        assert(s.take(i).drop_last() =~= s.take(i - 1));
        assert(s.take(i).last() == s[i - 1]);
        if !(i - 1 == 8 || i - 1 == 13 || i - 1 == 18 || i - 1 == 23) {
            lemma_pow_positive(16, place);
            reveal(pow);
            assert(pow(16, place + 1) == 16 * pow(16, place));
            lemma_div_denominator(id.bits as int, pow(16, place), 16);
            assert(pow(16, place) * 16 == 16 * pow(16, place));
            let d = nibble(id.bits as nat, place);
            assert(0 <= d < 16);
            assert(s[i - 1] == hex_char(d));
            assert(hex_value(hex_char(d)) == d && hex_char(d) != '-');
        }
    }
}

/// The text of an identifier is 36 characters, hyphens at the four places where they belong and
/// hexadecimal digits at all others, and the digits stand for the identifier.
pub proof fn hyphenated_reads_back(id: Uuid)
    ensures
        hyphenated(id).len() == 36,
        forall|i: int|
            0 <= i < 36 ==> if i == 8 || i == 13 || i == 18 || i == 23 {
                #[trigger] hyphenated(id)[i] == '-'
            } else {
                crate::hash::is_hex_char(hyphenated(id)[i])
            },
        hex_number(hyphenated(id)) == id.bits,
{
    hyphenated_prefix_reads_back(id, 36);
    assert(hyphenated(id).take(36) =~= hyphenated(id));
    assert(pow(16, 0) == 1) by {
        reveal(pow);
    }
}

/// A random identifier shows that it is one: version 4, and one of the four variants.
pub proof fn random_identifiers_show_their_version(id: Uuid)
    ensures
        is_random_uuid(id) <==> {
            &&& hyphenated(id)[14] == '4'
            &&& hyphenated(id)[19] == '8' || hyphenated(id)[19] == '9' || hyphenated(id)[19] == 'a'
                || hyphenated(id)[19] == 'b'
        },
{
    assert(hyphenated(id)[14] == hex_char(nibble(id.bits as nat, 19)));
    assert(hyphenated(id)[19] == hex_char(nibble(id.bits as nat, 15)));
    lemma_pow_positive(16, 19);
    lemma_pow_positive(16, 15);
}

/// A text names an identifier exactly if it can be read as one, and then that one.
pub proof fn texts_name_what_they_are_read_as(s: Seq<char>, id: Uuid)
    ensures
        uuid_named(s) == Some(id) <==> parsed_uuid(s) == Some(id.bits),
        uuid_named(s) is None <==> parsed_uuid(s) is None,
{
}

} // verus!
