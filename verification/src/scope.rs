//! Scopes. A scope is a set of permission names; it is written as a string in
//! which spaces and commas separate the names.

use vstd::prelude::*;
use crate::error::ErrorKind;
use crate::text::chars_of;

verus! {

/// The characters that separate the names of a scope string.
pub open spec fn is_delimiter(c: char) -> bool {
    c == ' ' || c == ','
}

/// Whether positions `from` up to `to` of `s` hold one name: a run of
/// characters without a delimiter that cannot be extended on either side.
pub open spec fn is_item_at(s: Seq<char>, from: int, to: int) -> bool {
    &&& 0 <= from < to <= s.len()
    &&& forall|k: int| from <= k < to ==> !is_delimiter(#[trigger] s[k])
    &&& (from == 0 || is_delimiter(s[from - 1]))
    &&& (to == s.len() || is_delimiter(s[to]))
}

/// The set of names that a scope string holds.
pub open spec fn scope_set(s: Seq<char>) -> Set<Seq<char>> {
    Set::new(
        |item: Seq<char>|
            exists|from: int, to: int| is_item_at(s, from, to) && s.subrange(from, to) == item,
    )
}

/// Whether a scope string holds no name at all.
pub open spec fn names_nothing(s: Seq<char>) -> bool {
    forall|from: int, to: int| !is_item_at(s, from, to)
}

/// Whether every name of `requested` is a name of `granted`.
pub open spec fn scope_within(requested: Seq<char>, granted: Seq<char>) -> bool {
    scope_set(requested).subset_of(scope_set(granted))
}

/// Whether `requested` may be asked for under a grant of `granted`: it names
/// at least one permission and none that `granted` lacks.
pub open spec fn scope_allowed(requested: Seq<char>, granted: Seq<char>) -> bool {
    !names_nothing(requested) && scope_within(requested, granted)
}

/// Whether a pair of positions lies inside a text of the given length.
pub open spec fn is_range(bound: (usize, usize), len: nat) -> bool {
    bound.0 <= bound.1 <= len
}

/// Two names that end at the same position begin at the same position.
proof fn lemma_one_start(s: Seq<char>, from: int, other: int, to: int)
    requires
        is_item_at(s, from, to),
        is_item_at(s, other, to),
    ensures
        from == other,
{
    if from < other {
        assert(is_delimiter(s[other - 1]));
    }
    if other < from {
        assert(is_delimiter(s[from - 1]));
    }
}

/// The names that end before a position end before every run without
/// delimiters that reaches up to that position.
proof fn lemma_ends_before(s: Seq<char>, bounds: Seq<(usize, usize)>, start: int, end: int)
    requires
        0 <= start < end <= s.len(),
        forall|k: int| start <= k < end ==> !is_delimiter(#[trigger] s[k]),
        forall|k: int|
            0 <= k < bounds.len() ==> is_item_at(s, (#[trigger] bounds[k]).0 as int, bounds[k].1 as int)
                && bounds[k].1 < end,
    ensures
        forall|k: int| 0 <= k < bounds.len() ==> (#[trigger] bounds[k]).1 < start,
{
    assert forall|k: int| 0 <= k < bounds.len() implies (#[trigger] bounds[k]).1 < start by {
        assert(is_delimiter(s[bounds[k].1 as int]));
    }
}

/// The positions of the names of `chars`, from left to right.
fn item_bounds(chars: &Vec<char>) -> (bounds: Vec<(usize, usize)>)
    ensures
        forall|k: int|
            0 <= k < bounds.len() ==> is_item_at(
                chars@,
                (#[trigger] bounds[k]).0 as int,
                bounds[k].1 as int,
            ),
        forall|k: int, l: int| 0 <= k < l < bounds.len() ==> bounds[k].1 < bounds[l].0,
        forall|from: int, to: int|
            is_item_at(chars@, from, to) ==> bounds@.contains((from as usize, to as usize)),
{
    let n = chars.len();
    let mut bounds: Vec<(usize, usize)> = Vec::new();
    let mut start: usize = 0;
    let mut inside = false;
    let mut i: usize = 0;
    while i < n
        invariant
            n == chars.len(),
            i <= n,
            inside ==> start < i,
            inside ==> forall|k: int| start <= k < i ==> !is_delimiter(#[trigger] chars@[k]),
            inside ==> start == 0 || is_delimiter(chars@[start - 1]),
            !inside ==> i == 0 || is_delimiter(chars@[i - 1]),
            forall|k: int|
                0 <= k < bounds.len() ==> is_item_at(
                    chars@,
                    (#[trigger] bounds[k]).0 as int,
                    bounds[k].1 as int,
                ) && bounds[k].1 < i,
            forall|k: int, l: int| 0 <= k < l < bounds.len() ==> bounds[k].1 < bounds[l].0,
            forall|from: int, to: int|
                is_item_at(chars@, from, to) && to < i ==> bounds@.contains(
                    (from as usize, to as usize),
                ),
        decreases n - i,
    {
        let c = chars[i];
        let ghost before = bounds@;
        if c == ' ' || c == ',' {
            if inside {
                proof {
                    lemma_ends_before(chars@, before, start as int, i as int);
                }
                bounds.push((start, i));
                inside = false;
            }
        } else {
            if !inside {
                start = i;
                inside = true;
            }
        }
        proof {
            assert forall|from: int, to: int| is_item_at(chars@, from, to) && to < i + 1 implies bounds@.contains(
                (from as usize, to as usize),
            ) by {
                if to < i {
                    let k = before.index_of((from as usize, to as usize));
                    assert(bounds@[k] == before[k]);
                } else {
                    lemma_one_start(chars@, from, bounds@[before.len() as int].0 as int, to);
                }
            }
        }
        i = i + 1;
    }
    let ghost before = bounds@;
    if inside {
        proof {
            lemma_ends_before(chars@, before, start as int, n as int);
        }
        bounds.push((start, n));
    }
    proof {
        assert forall|from: int, to: int| is_item_at(chars@, from, to) implies bounds@.contains(
            (from as usize, to as usize),
        ) by {
            if to < n {
                let k = before.index_of((from as usize, to as usize));
                assert(bounds@[k] == before[k]);
            } else {
                lemma_one_start(chars@, from, start as int, to);
                assert(bounds@[before.len() as int] == (from as usize, to as usize));
            }
        }
    }
    bounds
}

/// Whether two stretches of text hold the same characters.
fn same_run(a: &Vec<char>, a_bound: (usize, usize), b: &Vec<char>, b_bound: (usize, usize)) -> (same: bool)
    requires
        is_range(a_bound, a@.len()),
        is_range(b_bound, b@.len()),
    ensures
        same == (a@.subrange(a_bound.0 as int, a_bound.1 as int) == b@.subrange(
            b_bound.0 as int,
            b_bound.1 as int,
        )),
{
    let ghost left = a@.subrange(a_bound.0 as int, a_bound.1 as int);
    let ghost right = b@.subrange(b_bound.0 as int, b_bound.1 as int);
    let len = a_bound.1 - a_bound.0;
    if len != b_bound.1 - b_bound.0 {
        assert(left.len() != right.len());
        return false;
    }
    let mut k: usize = 0;
    while k < len
        invariant
            k <= len,
            len == a_bound.1 - a_bound.0,
            len == b_bound.1 - b_bound.0,
            is_range(a_bound, a@.len()),
            is_range(b_bound, b@.len()),
            left == a@.subrange(a_bound.0 as int, a_bound.1 as int),
            right == b@.subrange(b_bound.0 as int, b_bound.1 as int),
            forall|j: int| 0 <= j < k ==> left[j] == right[j],
        decreases len - k,
    {
        if a[a_bound.0 + k] != b[b_bound.0 + k] {
            assert(left[k as int] != right[k as int]);
            return false;
        }
        k = k + 1;
    }
    assert(left =~= right);
    true
}

/// Whether one stretch of `text` occurs among the given stretches of `other`.
fn run_among(
    text: &Vec<char>,
    bound: (usize, usize),
    other: &Vec<char>,
    others: &Vec<(usize, usize)>,
) -> (found: bool)
    requires
        is_range(bound, text@.len()),
        forall|k: int| 0 <= k < others.len() ==> is_range(#[trigger] others[k], other@.len()),
    ensures
        found == exists|k: int|
            0 <= k < others.len() && text@.subrange(bound.0 as int, bound.1 as int)
                == other@.subrange((#[trigger] others[k]).0 as int, others[k].1 as int),
{
    let mut k: usize = 0;
    while k < others.len()
        invariant
            k <= others.len(),
            is_range(bound, text@.len()),
            forall|j: int| 0 <= j < others.len() ==> is_range(#[trigger] others[j], other@.len()),
            forall|j: int|
                0 <= j < k ==> text@.subrange(bound.0 as int, bound.1 as int) != other@.subrange(
                    (#[trigger] others[j]).0 as int,
                    others[j].1 as int,
                ),
        decreases others.len() - k,
    {
        if same_run(text, bound, other, others[k]) {
            return true;
        }
        k = k + 1;
    }
    false
}

/// Whether a scope string holds no name at all.
pub fn scope_is_empty(scope: &str) -> (empty: bool)
    ensures
        empty == names_nothing(scope@),
{
    let chars = chars_of(scope);
    let bounds = item_bounds(&chars);
    proof {
        if bounds.len() > 0 {
            assert(is_item_at(scope@, bounds[0].0 as int, bounds[0].1 as int));
        }
    }
    bounds.len() == 0
}

/// Checks a requested scope against the scope that was granted before. The
/// requested scope is accepted, and handed back, where it names at least one
/// permission and none beyond the granted ones; a request for the very same
/// set is accepted.
pub fn check_scope(requested: String, granted: &str) -> (checked: Result<String, ErrorKind>)
    ensures
        match checked {
            Ok(scope) => scope == requested && scope_allowed(requested@, granted@),
            Err(kind) => kind == ErrorKind::InvalidScope && !scope_allowed(requested@, granted@),
        },
{
    let asked = chars_of(requested.as_str());
    let given = chars_of(granted);
    let asked_bounds = item_bounds(&asked);
    let given_bounds = item_bounds(&given);
    if asked_bounds.len() == 0 {
        return Err(ErrorKind::InvalidScope);
    }
    proof {
        assert(is_item_at(asked@, asked_bounds[0].0 as int, asked_bounds[0].1 as int));
    }
    let mut k: usize = 0;
    while k < asked_bounds.len()
        invariant
            k <= asked_bounds.len(),
            asked@ == requested@,
            given@ == granted@,
            forall|j: int|
                0 <= j < asked_bounds.len() ==> is_item_at(
                    asked@,
                    (#[trigger] asked_bounds[j]).0 as int,
                    asked_bounds[j].1 as int,
                ),
            forall|j: int|
                0 <= j < given_bounds.len() ==> is_item_at(
                    given@,
                    (#[trigger] given_bounds[j]).0 as int,
                    given_bounds[j].1 as int,
                ),
            forall|from: int, to: int|
                is_item_at(given@, from, to) ==> given_bounds@.contains((from as usize, to as usize)),
            forall|j: int|
                0 <= j < k ==> scope_set(given@).contains(
                    asked@.subrange((#[trigger] asked_bounds[j]).0 as int, asked_bounds[j].1 as int),
                ),
        decreases asked_bounds.len() - k,
    {
        let bound = asked_bounds[k];
        let ghost item = asked@.subrange(bound.0 as int, bound.1 as int);
        assert(is_item_at(asked@, bound.0 as int, bound.1 as int));
        assert forall|j: int| 0 <= j < given_bounds.len() implies is_range(
            #[trigger] given_bounds[j],
            given@.len(),
        ) by {
        }
        if !run_among(&asked, bound, &given, &given_bounds) {
            proof {
                if scope_set(given@).contains(item) {
                    let (from, to) = choose|from: int, to: int|
                        is_item_at(given@, from, to) && given@.subrange(from, to) == item;
                    let j = given_bounds@.index_of((from as usize, to as usize));
                    assert(given_bounds[j] == (from as usize, to as usize));
                }
            }
            return Err(ErrorKind::InvalidScope);
        }
        proof {
            let j = choose|j: int|
                0 <= j < given_bounds.len() && item == given@.subrange(
                    (#[trigger] given_bounds[j]).0 as int,
                    given_bounds[j].1 as int,
                );
            assert(is_item_at(given@, given_bounds[j].0 as int, given_bounds[j].1 as int));
        }
        k = k + 1;
    }
    proof {
        assert forall|item: Seq<char>| scope_set(asked@).contains(item) implies scope_set(
            given@,
        ).contains(item) by {
            let (from, to) = choose|from: int, to: int|
                is_item_at(asked@, from, to) && asked@.subrange(from, to) == item;
            let j = asked_bounds@.index_of((from as usize, to as usize));
            assert(asked_bounds[j] == (from as usize, to as usize));
        }
    }
    Ok(requested)
}

} // verus!
