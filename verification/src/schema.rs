//! Closed schemas: a record is accepted only if its fields are exactly the
//! required ones, each given once.

use crate::document::{fields_of, Field, Member};
use crate::text::str_eq;
use vstd::prelude::*;

verus! {

/// The least index from `lo` up to, not including, `hi` at which `p` holds.
pub open spec fn least_from(lo: int, hi: int, p: spec_fn(int) -> bool) -> Option<int>
    decreases hi - lo,
{
    if lo >= hi {
        None
    } else if p(lo) {
        Some(lo)
    } else {
        least_from(lo + 1, hi, p)
    }
}

/// What `least_from` returns is in range, `p` holds there and nowhere before;
/// where it returns nothing, `p` holds nowhere in the range.
pub proof fn lemma_least_from(lo: int, hi: int, p: spec_fn(int) -> bool)
    ensures
        match least_from(lo, hi, p) {
            Some(i) => lo <= i < hi && p(i) && forall|j: int| lo <= j < i ==> !#[trigger] p(j),
            None => forall|j: int| lo <= j < hi ==> !#[trigger] p(j),
        },
    decreases hi - lo,
{
    if lo < hi && !p(lo) {
        lemma_least_from(lo + 1, hi, p);
    }
}

/// How the fields of a record stand against the schema of two names.
#[derive(Clone, Copy, PartialEq, Eq, Debug, Structural)]
pub enum PairShape {
    /// Every field is allowed and both names are given, at these positions.
    Exact { first: usize, second: usize },
    /// The field at `position` has neither name.
    Unknown { position: usize },
    /// The field at `position` has the name of an earlier field.
    Repeated { position: usize },
    /// No field has the first name.
    MissingFirst,
    /// No field has the second name.
    MissingSecond,
}

/// Whether the field at `i` has a name outside the schema.
pub open spec fn unknown_at(fields: Seq<Field>, first: Seq<char>, second: Seq<char>, i: int) -> bool {
    fields[i].name != first && fields[i].name != second
}

/// Whether the field at `i` has the name of a field before it.
pub open spec fn repeated_at(fields: Seq<Field>, i: int) -> bool {
    exists|j: int| 0 <= j < i && #[trigger] fields[j].name == fields[i].name
}

/// The positions that a closed schema of two names does not allow.
pub open spec fn offence(fields: Seq<Field>, first: Seq<char>, second: Seq<char>) -> spec_fn(
    int,
) -> bool {
    |i: int| unknown_at(fields, first, second, i) || repeated_at(fields, i)
}

/// The positions of the fields called `name`.
pub open spec fn named(fields: Seq<Field>, name: Seq<char>) -> spec_fn(int) -> bool {
    |i: int| fields[i].name == name
}

/// The shape of `fields` against the schema `{first, second}`. The earliest
/// field that the schema does not allow is reported before a missing one,
/// and a missing first name before a missing second.
pub open spec fn pair_shape(fields: Seq<Field>, first: Seq<char>, second: Seq<char>) -> PairShape {
    match least_from(0, fields.len() as int, offence(fields, first, second)) {
        Some(i) => if unknown_at(fields, first, second, i) {
            PairShape::Unknown { position: i as usize }
        } else {
            PairShape::Repeated { position: i as usize }
        },
        None => match (
            least_from(0, fields.len() as int, named(fields, first)),
            least_from(0, fields.len() as int, named(fields, second)),
        ) {
            (None, _) => PairShape::MissingFirst,
            (Some(_), None) => PairShape::MissingSecond,
            (Some(a), Some(b)) => PairShape::Exact { first: a as usize, second: b as usize },
        },
    }
}

/// In a record that the schema allows, a field sits at the first position of
/// its name.
proof fn lemma_field_is_first_of_its_name(
    fields: Seq<Field>,
    first: Seq<char>,
    second: Seq<char>,
    k: int,
)
    requires
        0 <= k < fields.len(),
        least_from(0, fields.len() as int, offence(fields, first, second)) is None,
    ensures
        fields[k].name == first ==> least_from(0, fields.len() as int, named(fields, first))
            == Some(k),
        fields[k].name == second ==> least_from(0, fields.len() as int, named(fields, second))
            == Some(k),
        fields[k].name == first || fields[k].name == second,
{
    let n = fields.len() as int;
    lemma_least_from(0, n, offence(fields, first, second));
    lemma_least_from(0, n, named(fields, first));
    lemma_least_from(0, n, named(fields, second));
    assert(!offence(fields, first, second)(k));
    if fields[k].name == first {
        assert(named(fields, first)(k));
        let a = least_from(0, n, named(fields, first))->Some_0;
        assert(named(fields, first)(a));
        if a < k {
            assert(fields[a].name == fields[k].name);
            assert(repeated_at(fields, k));
        }
    }
    if fields[k].name == second {
        assert(named(fields, second)(k));
        let b = least_from(0, n, named(fields, second))->Some_0;
        assert(named(fields, second)(b));
        if b < k {
            assert(fields[b].name == fields[k].name);
            assert(repeated_at(fields, k));
        }
    }
}

/// A record of the exact shape has two fields, one of each name.
pub proof fn lemma_exact_pair(fields: Seq<Field>, first: Seq<char>, second: Seq<char>)
    requires
        first != second,
        pair_shape(fields, first, second) is Exact,
    ensures
        fields.len() == 2,
        ({
            let a = pair_shape(fields, first, second)->Exact_first as int;
            let b = pair_shape(fields, first, second)->Exact_second as int;
            &&& 0 <= a < 2
            &&& 0 <= b < 2
            &&& a != b
            &&& fields[a].name == first
            &&& fields[b].name == second
        }),
{
    let n = fields.len() as int;
    lemma_least_from(0, n, named(fields, first));
    lemma_least_from(0, n, named(fields, second));
    let a = least_from(0, n, named(fields, first))->Some_0;
    let b = least_from(0, n, named(fields, second))->Some_0;
    assert(named(fields, first)(a));
    assert(named(fields, second)(b));
    if n > 2 {
        lemma_field_is_first_of_its_name(fields, first, second, 0);
        lemma_field_is_first_of_its_name(fields, first, second, 1);
        lemma_field_is_first_of_its_name(fields, first, second, 2);
    }
}

/// Holds the fields of a record against the schema `{first, second}`.
pub fn check_pair(members: &Vec<Member>, first: &str, second: &str) -> (shape: PairShape)
    ensures
        shape == pair_shape(fields_of(members@), first@, second@),
{
    let ghost fields = fields_of(members@);
    let ghost bad = offence(fields, first@, second@);
    let ghost is_first = named(fields, first@);
    let ghost is_second = named(fields, second@);
    let n: usize = members.len();
    let mut at_first: Option<usize> = None;
    let mut at_second: Option<usize> = None;
    let mut i: usize = 0;
    while i < n
        invariant
            i <= n,
            n == members@.len(),
            n == fields.len(),
            fields == fields_of(members@),
            bad == offence(fields, first@, second@),
            is_first == named(fields, first@),
            is_second == named(fields, second@),
            least_from(0, n as int, bad) == least_from(i as int, n as int, bad),
            match at_first {
                Some(a) => a < i && least_from(0, n as int, is_first) == Some(a as int),
                None => least_from(0, n as int, is_first) == least_from(i as int, n as int, is_first),
            },
            match at_second {
                Some(b) => b < i && least_from(0, n as int, is_second) == Some(b as int),
                None => least_from(0, n as int, is_second) == least_from(
                    i as int,
                    n as int,
                    is_second,
                ),
            },
        decreases n - i,
    {
        let member = &members[i];
        assert(fields[i as int].name == member.name@);
        let has_first = str_eq(member.name.as_str(), first);
        let has_second = str_eq(member.name.as_str(), second);
        proof {
            lemma_least_from(0, i as int, is_first);
            lemma_least_from(0, i as int, is_second);
            lemma_least_from(0, n as int, is_first);
            lemma_least_from(0, n as int, is_second);
            lemma_least_from(i as int, n as int, is_first);
            lemma_least_from(i as int, n as int, is_second);
        }
        if !has_first && !has_second {
            assert(unknown_at(fields, first@, second@, i as int));
            assert(bad(i as int));
            return PairShape::Unknown { position: i };
        }
        let seen = match (has_first, at_first, has_second, at_second) {
            (true, Some(a), _, _) => Some(a),
            (_, _, true, Some(b)) => Some(b),
            _ => None,
        };
        match seen {
            Some(k) => {
                proof {
                    if has_first && at_first == Some(k) {
                        assert(is_first(k as int));
                    } else {
                        assert(is_second(k as int));
                    }
                    assert(fields[k as int].name == fields[i as int].name);
                    assert(repeated_at(fields, i as int));
                    assert(bad(i as int));
                }
                return PairShape::Repeated { position: i };
            },
            None => {
                proof {
                    assert forall|j: int| 0 <= j < i implies fields[j].name != fields[i as int].name by {
                        if has_first {
                            assert(!is_first(j));
                        } else {
                            assert(!is_second(j));
                        }
                    }
                    assert(!bad(i as int));
                    if has_first {
                        assert(is_first(i as int));
                    }
                    if has_second {
                        assert(is_second(i as int));
                    }
                }
                if has_first {
                    at_first = Some(i);
                }
                if has_second {
                    at_second = Some(i);
                }
            },
        }
        i = i + 1;
    }
    match (at_first, at_second) {
        (None, _) => PairShape::MissingFirst,
        (Some(_), None) => PairShape::MissingSecond,
        (Some(a), Some(b)) => PairShape::Exact { first: a, second: b },
    }
}

} // verus!
