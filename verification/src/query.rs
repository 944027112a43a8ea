//! The query of a URI, read as `name=value` parameters.
//!
//! Nothing here runs: these are the terms in which the crate states what
//! the connection URI carries.

use vstd::prelude::*;

verus! {

/// Where `c` first stands in `text`; the length of `text` where it does not
/// occur.
pub open spec fn position(text: Seq<char>, c: char) -> int
    decreases text.len(),
{
    if text.len() == 0 {
        0
    } else if text[0] == c {
        0
    } else {
        1 + position(text.drop_first(), c)
    }
}

/// Whether `c` occurs nowhere in `text`.
pub open spec fn lacks(text: Seq<char>, c: char) -> bool {
    forall|i: int| 0 <= i < text.len() ==> #[trigger] text[i] != c
}

/// The query of a URI: what stands between the first `?` and the fragment.
/// Empty where the URI has no `?` before its fragment.
pub open spec fn query_of(uri: Seq<char>) -> Seq<char> {
    let mark = position(uri, '?');
    let fragment = position(uri, '#');
    if mark < fragment {
        uri.subrange(mark + 1, fragment)
    } else {
        Seq::empty()
    }
}

/// One parameter as name and value, parted at the first `=`. A parameter
/// without `=` is a name with an empty value.
pub open spec fn parameter(item: Seq<char>) -> (Seq<char>, Seq<char>) {
    let sign = position(item, '=');
    if sign < item.len() {
        (item.subrange(0, sign), item.subrange(sign + 1, item.len() as int))
    } else {
        (item, Seq::empty())
    }
}

/// The parameters of a query, parted at every `&`.
pub open spec fn parameters(query: Seq<char>) -> Seq<(Seq<char>, Seq<char>)>
    decreases query.len(),
{
    let end = position(query, '&');
    if query.len() == 0 {
        Seq::empty()
    } else if 0 <= end < query.len() {
        seq![parameter(query.subrange(0, end))] + parameters(
            query.subrange(end + 1, query.len() as int),
        )
    } else {
        seq![parameter(query)]
    }
}

/// The parameters of a URI's query.
pub open spec fn query_parameters(uri: Seq<char>) -> Seq<(Seq<char>, Seq<char>)> {
    parameters(query_of(uri))
}

/// The first occurrence lies within the text, or at its end where there is
/// none.
pub proof fn position_in_range(text: Seq<char>, c: char)
    ensures
        0 <= position(text, c) <= text.len(),
        position(text, c) < text.len() ==> text[position(text, c)] == c,
        lacks(text, c) <==> position(text, c) == text.len(),
    decreases text.len(),
{
    if text.len() > 0 && text[0] != c {
        let rest = text.drop_first();
        position_in_range(rest, c);
        if lacks(text, c) {
            assert forall|i: int| 0 <= i < rest.len() implies #[trigger] rest[i] != c by {
                assert(text[i + 1] != c);
            }
        }
        if lacks(rest, c) {
            assert forall|i: int| 0 <= i < text.len() implies #[trigger] text[i] != c by {
                if i > 0 {
                    assert(rest[i - 1] != c);
                }
            }
        }
    } else if text.len() > 0 {
        assert(text[0] == c);
    }
}

/// A text that lacks `c` does not hold the first occurrence: the search goes
/// on in what follows it.
pub proof fn position_after(head: Seq<char>, tail: Seq<char>, c: char)
    requires
        lacks(head, c),
    ensures
        position(head + tail, c) == head.len() + position(tail, c),
    decreases head.len(),
{
    if head.len() == 0 {
        assert(head + tail =~= tail);
    } else {
        let rest = head.drop_first();
        assert(head[0] != c);
        assert((head + tail)[0] == head[0]);
        assert((head + tail).drop_first() =~= rest + tail);
        assert forall|i: int| 0 <= i < rest.len() implies #[trigger] rest[i] != c by {
            assert(head[i + 1] != c);
        }
        position_after(rest, tail, c);
    }
}

/// Two texts that lack `c` lack it together.
pub proof fn lacks_add(a: Seq<char>, b: Seq<char>, c: char)
    requires
        lacks(a, c),
        lacks(b, c),
    ensures
        lacks(a + b, c),
{
    assert forall|i: int| 0 <= i < (a + b).len() implies #[trigger] (a + b)[i] != c by {
        if i < a.len() {
            assert(a[i] != c);
        } else {
            assert(b[i - a.len()] != c);
        }
    }
}

} // verus!
