//! 128-bit identifiers and their canonical text.

use vstd::prelude::*;

verus! {

/// A 128-bit identifier: it names a user, a machine key, a key group or a
/// stored object. The library never looks inside it.
#[derive(Clone, Copy, Debug, PartialEq, Eq, Hash, Structural)]
pub struct Uuid(pub u128);

impl View for Uuid {
    type V = u128;

    open spec fn view(&self) -> u128 {
        self.0
    }
}

impl Uuid {
    /// The identifier with the given value.
    pub fn from_u128(v: u128) -> (id: Uuid)
        ensures
            id@ == v,
    {
        Uuid(v)
    }

    /// The identifier's value.
    pub fn as_u128(&self) -> (v: u128)
        ensures
            v == self@,
    {
        self.0
    }
}

/// The lower-case hexadecimal digit for `d`, where `0 <= d < 16`.
pub open spec fn hex_digit(d: int) -> char {
    seq!['0', '1', '2', '3', '4', '5', '6', '7', '8', '9', 'a', 'b', 'c', 'd', 'e', 'f'][d]
}

/// The last `n` hexadecimal digits of `v`, most significant first.
pub open spec fn hex_digits(v: nat, n: nat) -> Seq<char>
    decreases n,
{
    if n == 0 {
        Seq::empty()
    } else {
        hex_digits(v / 16, (n - 1) as nat).push(hex_digit((v % 16) as int))
    }
}

/// The canonical text of an identifier: its 32 hexadecimal digits in groups of
/// 8, 4, 4, 4 and 12, with a hyphen between the groups.
pub open spec fn hyphenated(v: u128) -> Seq<char> {
    let d = hex_digits(v as nat, 32);
    d.subrange(0, 8) + seq!['-'] + d.subrange(8, 12) + seq!['-'] + d.subrange(12, 16) + seq!['-']
        + d.subrange(16, 20) + seq!['-'] + d.subrange(20, 32)
}

/// Whether `c` may occur in canonical text: a lower-case hexadecimal digit or a
/// hyphen.
pub open spec fn is_canonical_char(c: char) -> bool {
    ||| '0' <= c <= '9'
    ||| 'a' <= c <= 'f'
    ||| c == '-'
}

/// `16` to the power `n`.
pub open spec fn pow16(n: nat) -> nat
    decreases n,
{
    if n == 0 {
        1
    } else {
        16 * pow16((n - 1) as nat)
    }
}

proof fn lemma_hex_digit_injective(a: int, b: int)
    requires
        0 <= a < 16,
        0 <= b < 16,
        hex_digit(a) == hex_digit(b),
    ensures
        a == b,
{
}

proof fn lemma_hex_digits_len(v: nat, n: nat)
    ensures
        hex_digits(v, n).len() == n,
    decreases n,
{
    if n > 0 {
        lemma_hex_digits_len(v / 16, (n - 1) as nat);
    }
}

proof fn lemma_hex_digits_canonical(v: nat, n: nat, i: int)
    requires
        0 <= i < n,
    ensures
        is_canonical_char(hex_digits(v, n)[i]),
    decreases n,
{
    lemma_hex_digits_len(v, n);
    lemma_hex_digits_len(v / 16, (n - 1) as nat);
    if i < n - 1 {
        lemma_hex_digits_canonical(v / 16, (n - 1) as nat, i);
    }
}

proof fn lemma_hex_digits_injective(a: nat, b: nat, n: nat)
    requires
        a < pow16(n),
        b < pow16(n),
        hex_digits(a, n) == hex_digits(b, n),
    ensures
        a == b,
    decreases n,
{
    if n > 0 {
        let m = (n - 1) as nat;
        let da = hex_digits(a / 16, m);
        let db = hex_digits(b / 16, m);
        lemma_hex_digits_len(a / 16, m);
        lemma_hex_digits_len(b / 16, m);
        assert(da == hex_digits(a, n).drop_last());
        assert(db == hex_digits(b, n).drop_last());
        assert(hex_digit((a % 16) as int) == hex_digits(a, n).last());
        assert(hex_digit((b % 16) as int) == hex_digits(b, n).last());
        lemma_hex_digit_injective((a % 16) as int, (b % 16) as int);
        lemma_hex_digits_injective(a / 16, b / 16, m);
    }
}

/// Canonical text is 36 characters long, made of lower-case hexadecimal digits
/// and hyphens only.
pub proof fn lemma_hyphenated_shape(v: u128)
    ensures
        hyphenated(v).len() == 36,
        forall|i: int| 0 <= i < 36 ==> is_canonical_char(#[trigger] hyphenated(v)[i]),
{
    let d = hex_digits(v as nat, 32);
    lemma_hex_digits_len(v as nat, 32);
    assert forall|i: int| 0 <= i < 36 implies is_canonical_char(#[trigger] hyphenated(v)[i]) by {
        let j = if i < 8 {
            i
        } else if i < 13 {
            i - 1
        } else if i < 18 {
            i - 2
        } else if i < 23 {
            i - 3
        } else {
            i - 4
        };
        if i != 8 && i != 13 && i != 18 && i != 23 {
            lemma_hex_digits_canonical(v as nat, 32, j);
            assert(hyphenated(v)[i] == d[j]);
        }
    }
}

/// Two identifiers with the same canonical text are the same identifier.
pub proof fn lemma_hyphenated_injective(a: u128, b: u128)
    requires
        hyphenated(a) == hyphenated(b),
    ensures
        a == b,
{
    let da = hex_digits(a as nat, 32);
    let db = hex_digits(b as nat, 32);
    let ha = hyphenated(a);
    let hb = hyphenated(b);
    lemma_hex_digits_len(a as nat, 32);
    lemma_hex_digits_len(b as nat, 32);
    assert(da =~= ha.subrange(0, 8) + ha.subrange(9, 13) + ha.subrange(14, 18) + ha.subrange(
        19,
        23,
    ) + ha.subrange(24, 36));
    assert(db =~= hb.subrange(0, 8) + hb.subrange(9, 13) + hb.subrange(14, 18) + hb.subrange(
        19,
        23,
    ) + hb.subrange(24, 36));
    assert(pow16(32) == 0x1_0000_0000_0000_0000_0000_0000_0000_0000) by {
        reveal_with_fuel(pow16, 33);
    }
    lemma_hex_digits_injective(a as nat, b as nat, 32);
}

/// Whether `v` is a time-ordered identifier of version 7: the version field
/// holds 7 and the variant field the bits `10`.
pub open spec fn is_version_7(v: u128) -> bool {
    (v >> 76) & 0xf == 7 && (v >> 62) & 0x3 == 2
}

/// What parsing a text as an identifier yields: the identifier's value, or
/// nothing where the text is no identifier.
pub uninterp spec fn uuid_from_text(text: Seq<u8>) -> Option<u128>;

/// Calls `uuid::Uuid::try_parse_ascii`, the parser behind `Uuid::parse_str`,
/// and hands back the value of the identifier it read. The contract only gives
/// the outcome a name: it depends on the text alone.
#[verifier::external_body]
pub(crate) fn parse_uuid(text: &[u8]) -> (id: Option<Uuid>)
    ensures
        id == match uuid_from_text(text@) {
            Some(v) => Some(Uuid(v)),
            None => None,
        },
{
    match ::uuid::Uuid::try_parse_ascii(text) {
        Ok(parsed) => Some(Uuid(parsed.as_u128())),
        Err(_) => None,
    }
}

/// Formats an identifier through `uuid::Uuid`'s `Display`, which writes the
/// hyphenated lower-case form. The contract claims that the text is exactly
/// `hyphenated` of the value.
#[verifier::external_body]
pub(crate) fn uuid_text(id: Uuid) -> (text: String)
    ensures
        text@ == hyphenated(id@),
{
    ::uuid::Uuid::from_u128(id.0).to_string()
}

/// Calls `uuid::Uuid::now_v7` for a fresh time-ordered identifier. Which one
/// comes back depends on the clock and on chance; whatever it is, its version
/// and variant fields are those of version 7. The call expects a clock that
/// is not set before 1970.
#[verifier::external_body]
pub(crate) fn fresh_uuid() -> (id: Uuid)
    ensures
        is_version_7(id@),
{
    Uuid(::uuid::Uuid::now_v7().as_u128())
}

} // verus!
