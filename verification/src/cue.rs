//! The cue ordering key: an optional primary number and an optional
//! secondary number, with a total order. An unset primary sorts after any
//! set primary; among equal set primaries the base cue — the one with no
//! secondary number — sorts before every secondary-numbered variant; among
//! unset primaries the fully unset key sorts last. This lets an operator
//! insert a cue between 5 and 6 as primary 5 with some secondary number,
//! while cue 5 itself stays first in its group and a new, not-yet-numbered
//! cue stays last overall.

use vstd::prelude::*;

use core::cmp::Ordering;

verus! {

/// A cue's two-level ordering key. The first field is the primary number,
/// the second the secondary (tie-breaking) number. Any combination of
/// set/unset fields is valid.
#[derive(Default, Debug, Clone, Copy, PartialEq, Eq)]
pub struct CueNumber(pub Option<usize>, pub Option<usize>);

/// The rank of the primary number: a set value ranks as itself, an unset
/// value ranks above every representable number, so it sorts after all of
/// them.
pub open spec fn primary_rank(x: Option<usize>) -> int {
    match x {
        Some(n) => n as int,
        None => usize::MAX as int + 1,
    }
}

/// The tie-breaking rank of the secondary number, used between keys of
/// equal primary rank. A set secondary ranks as itself. An unset secondary
/// ranks below every number when the primary is set — the base cue of a
/// primary sorts before its secondary-numbered variants — and above every
/// number when the primary is unset, so the fully unset key sorts last.
pub open spec fn tie_rank(k: CueNumber) -> int {
    match k.1 {
        Some(n) => n as int,
        None => if k.0 is Some {
            -1
        } else {
            usize::MAX as int + 1
        },
    }
}

/// The strict order on keys: primary rank first, the secondary tie-break
/// rank between equal primary ranks.
pub open spec fn key_lt(a: CueNumber, b: CueNumber) -> bool {
    ||| primary_rank(a.0) < primary_rank(b.0)
    ||| (primary_rank(a.0) == primary_rank(b.0) && tie_rank(a) < tie_rank(b))
}

/// The three-way comparison that `key_lt` induces.
pub open spec fn key_cmp(a: CueNumber, b: CueNumber) -> Ordering {
    if key_lt(a, b) {
        Ordering::Less
    } else if key_lt(b, a) {
        Ordering::Greater
    } else {
        Ordering::Equal
    }
}

/// The key after bumping the primary number: an unset primary becomes 1,
/// a set primary grows by one, saturating at the largest representable
/// value. The secondary number is untouched.
pub open spec fn inc_key(k: CueNumber) -> CueNumber {
    match k.0 {
        None => CueNumber(Some(1), k.1),
        Some(n) => if n < usize::MAX {
            CueNumber(Some((n + 1) as usize), k.1)
        } else {
            k
        },
    }
}

/// The key after lowering the primary number: an unset primary stays unset,
/// a primary of 1 or below clears to unset, a larger primary shrinks by one.
/// The secondary number is untouched.
pub open spec fn dec_key(k: CueNumber) -> CueNumber {
    match k.0 {
        None => k,
        Some(n) => if n > 1 {
            CueNumber(Some((n - 1) as usize), k.1)
        } else {
            CueNumber(None, k.1)
        },
    }
}

/// The character for one decimal digit.
pub open spec fn digit_char(d: nat) -> char {
    if d == 0 {
        '0'
    } else if d == 1 {
        '1'
    } else if d == 2 {
        '2'
    } else if d == 3 {
        '3'
    } else if d == 4 {
        '4'
    } else if d == 5 {
        '5'
    } else if d == 6 {
        '6'
    } else if d == 7 {
        '7'
    } else if d == 8 {
        '8'
    } else {
        '9'
    }
}

/// The decimal digits of `n`, most significant first, with no leading zero
/// except for `n == 0` itself.
pub open spec fn dec_digits(n: nat) -> Seq<char>
    decreases n,
{
    if n < 10 {
        seq![digit_char(n)]
    } else {
        dec_digits(n / 10).push(digit_char(n % 10))
    }
}

/// How a key displays: an unset primary renders as an underscore
/// placeholder, a set primary as its decimal value.
pub open spec fn display_chars(k: CueNumber) -> Seq<char> {
    match k.0 {
        None => seq!['_'],
        Some(n) => dec_digits(n as nat),
    }
}

/// The one-character string for a decimal digit.
fn digit_literal(d: usize) -> (r: &'static str)
    requires
        d < 10,
    ensures
        r@ == seq![digit_char(d as nat)],
{
    proof {
        reveal_strlit("0");
        reveal_strlit("1");
        reveal_strlit("2");
        reveal_strlit("3");
        reveal_strlit("4");
        reveal_strlit("5");
        reveal_strlit("6");
        reveal_strlit("7");
        reveal_strlit("8");
        reveal_strlit("9");
    }
    let r = if d == 0 {
        "0"
    } else if d == 1 {
        "1"
    } else if d == 2 {
        "2"
    } else if d == 3 {
        "3"
    } else if d == 4 {
        "4"
    } else if d == 5 {
        "5"
    } else if d == 6 {
        "6"
    } else if d == 7 {
        "7"
    } else if d == 8 {
        "8"
    } else {
        "9"
    };
    proof {
        assert(r@ =~= seq![digit_char(d as nat)]);
    }
    r
}

/// The decimal rendering of `n`, per `dec_digits`.
fn dec_string(n: usize) -> (r: String)
    ensures
        r@ == dec_digits(n as nat),
    decreases n,
{
    if n < 10 {
        String::from_str(digit_literal(n))
    } else {
        let mut s = dec_string(n / 10);
        s.append(digit_literal(n % 10));
        proof {
            assert(dec_digits(n as nat) =~= dec_digits(n as nat / 10) + seq![
                digit_char(n as nat % 10),
            ]);
        }
        s
    }
}

impl CueNumber {
    /// A fresh key, fully unset: it sorts after every other key.
    pub fn new() -> (r: CueNumber)
        ensures
            r.0 is None,
            r.1 is None,
    {
        Self(None, None)
    }

    /// Three-way comparison per `key_cmp`: primary numbers take precedence,
    /// with an unset primary sorting after any set one; secondary numbers
    /// break ties, the base cue (no secondary) first among equal set
    /// primaries, and the fully unset key last among unset primaries.
    pub fn cmp(&self, other: &Self) -> (r: Ordering)
        ensures
            r == key_cmp(*self, *other),
            r == Ordering::Equal <==> *self == *other,
            r == Ordering::Less <==> key_lt(*self, *other),
            r == Ordering::Greater <==> key_lt(*other, *self),
    {
        match (self.0, other.0) {
            (None, None) => match (self.1, other.1) {
                (None, None) => Ordering::Equal,
                (None, Some(_)) => Ordering::Greater,
                (Some(_), None) => Ordering::Less,
                (Some(a), Some(b)) => if a < b {
                    Ordering::Less
                } else if a == b {
                    Ordering::Equal
                } else {
                    Ordering::Greater
                },
            },
            (None, Some(_)) => Ordering::Greater,
            (Some(_), None) => Ordering::Less,
            (Some(a), Some(b)) => if a < b {
                Ordering::Less
            } else if a > b {
                Ordering::Greater
            } else {
                match (self.1, other.1) {
                    (None, None) => Ordering::Equal,
                    (None, Some(_)) => Ordering::Less,
                    (Some(_), None) => Ordering::Greater,
                    (Some(a), Some(b)) => if a < b {
                        Ordering::Less
                    } else if a == b {
                        Ordering::Equal
                    } else {
                        Ordering::Greater
                    },
                }
            },
        }
    }

    /// The displayed form of the key, per `display_chars`: the decimal
    /// primary number, or an underscore placeholder when it is unset.
    pub fn to_string(&self) -> (r: String)
        ensures
            r@ == display_chars(*self),
    {
        match self.0 {
            None => {
                let r = String::from_str("_");
                proof {
                    reveal_strlit("_");
                    assert(r@ =~= seq!['_']);
                }
                r
            },
            Some(n) => dec_string(n),
        }
    }

    /// The key with the primary number bumped, per `inc_key`.
    pub fn incremented(&self) -> (r: CueNumber)
        ensures
            r == inc_key(*self),
    {
        match self.0 {
            None => Self(Some(1), self.1),
            Some(n) => if n < usize::MAX {
                Self(Some(n + 1), self.1)
            } else {
                Self(Some(n), self.1)
            },
        }
    }

    /// The key with the primary number lowered, per `dec_key`.
    pub fn decremented(&self) -> (r: CueNumber)
        ensures
            r == dec_key(*self),
    {
        match self.0 {
            None => Self(None, self.1),
            Some(n) => if n > 1 {
                Self(Some(n - 1), self.1)
            } else {
                Self(None, self.1)
            },
        }
    }
}

impl PartialOrd for CueNumber {
    /// Comparison through the `<`/`<=` operators follows `key_cmp`: keys are
    /// totally ordered, so the comparison always produces a value.
    fn partial_cmp(&self, other: &Self) -> (r: Option<Ordering>)
        ensures
            r == Some(key_cmp(*self, *other)),
    {
        Some(self.cmp(other))
    }
}

impl vstd::std_specs::cmp::PartialOrdSpecImpl for CueNumber {
    open spec fn obeys_partial_cmp_spec() -> bool {
        true
    }

    open spec fn partial_cmp_spec(&self, other: &Self) -> Option<Ordering> {
        Some(key_cmp(*self, *other))
    }
}

/// Bumping and then lowering the primary number restores the key, as long
/// as the primary was either unset (the round trip goes through 1 and back
/// to unset) or set to a value of at least 1 and below the saturation
/// ceiling.
pub proof fn lemma_inc_then_dec(k: CueNumber)
    requires
        k.0 is None || (1 <= k.0->0 < usize::MAX),
    ensures
        dec_key(inc_key(k)) == k,
{
}

/// The key order is a total order: for any two keys exactly one of
/// `key_lt(a, b)`, `a == b`, `key_lt(b, a)` holds.
pub proof fn lemma_order_trichotomy(a: CueNumber, b: CueNumber)
    ensures
        key_lt(a, b) || a == b || key_lt(b, a),
        key_lt(a, b) ==> a != b && !key_lt(b, a),
        a == b ==> !key_lt(a, b) && !key_lt(b, a),
        key_lt(b, a) ==> a != b && !key_lt(a, b),
{
}

/// The key order is transitive.
pub proof fn lemma_order_transitive(a: CueNumber, b: CueNumber, c: CueNumber)
    requires
        key_lt(a, b),
        key_lt(b, c),
    ensures
        key_lt(a, c),
{
}

/// A key with a set primary number sorts before any key with an unset
/// primary number, whatever the secondary numbers are.
pub proof fn lemma_unset_sorts_last(p: usize, s1: Option<usize>, s2: Option<usize>)
    ensures
        key_lt(CueNumber(Some(p), s1), CueNumber(None, s2)),
{
}

} // verus!
