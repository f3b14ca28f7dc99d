//! Splitting text on a delimiter: the mathematical model, the facts about it,
//! and the scan that finds a delimiter in a string.

use vstd::prelude::*;
use vstd::string::*;

verus! {

/// The position of the first `delim` in `text`, or `text.len()` where `text`
/// holds none.
pub open spec fn first_index(text: Seq<char>, delim: char) -> int
    decreases text.len(),
{
    if text.len() == 0 || text[0] == delim {
        0
    } else {
        1 + first_index(text.drop_first(), delim)
    }
}

/// How many times `delim` occurs in `text`.
pub open spec fn count(text: Seq<char>, delim: char) -> nat
    decreases text.len(),
{
    if text.len() == 0 {
        0
    } else {
        count(text.drop_first(), delim) + if text[0] == delim {
            1nat
        } else {
            0nat
        }
    }
}

/// The segments of `text` between the occurrences of `delim`, in order and
/// verbatim. Text without a delimiter is one segment, the empty text included;
/// each delimiter ends one segment and starts the next.
pub open spec fn split(text: Seq<char>, delim: char) -> Seq<Seq<char>>
    decreases text.len(),
{
    let at = first_index(text, delim);
    if 0 <= at < text.len() {
        seq![text.take(at)] + split(text.skip(at + 1), delim)
    } else {
        seq![text]
    }
}

/// `first_index` lies within the text or at its end, no delimiter stands
/// before it, and one stands at it unless it is the end.
pub proof fn lemma_first_index(text: Seq<char>, delim: char)
    ensures
        0 <= first_index(text, delim) <= text.len(),
        forall|j: int| 0 <= j < first_index(text, delim) ==> text[j] != delim,
        first_index(text, delim) < text.len() ==> text[first_index(text, delim)] == delim,
        first_index(text, delim) == text.len() <==> !text.contains(delim),
    decreases text.len(),
{
    if text.len() == 0 || text[0] == delim {
    } else {
        let rest = text.drop_first();
        lemma_first_index(rest, delim);
        let at = first_index(rest, delim);
        assert forall|j: int| 0 <= j < 1 + at implies text[j] != delim by {
            if j > 0 {
                assert(text[j] == rest[j - 1]);
            }
        }
        if at < rest.len() {
            assert(text[1 + at] == rest[at]);
        }
    }
}

/// A position that holds the delimiter, with none before it, is the first index.
pub proof fn lemma_first_index_is(text: Seq<char>, delim: char, at: int)
    requires
        0 <= at <= text.len(),
        forall|j: int| 0 <= j < at ==> text[j] != delim,
        at < text.len() ==> text[at] == delim,
    ensures
        first_index(text, delim) == at,
{
    lemma_first_index(text, delim);
    let first = first_index(text, delim);
    if first < at {
        assert(text[first] == delim);
    }
}

/// Text that holds no delimiter is a single segment: itself.
pub proof fn lemma_split_whole(text: Seq<char>, delim: char)
    requires
        !text.contains(delim),
    ensures
        split(text, delim) == seq![text],
{
    lemma_first_index(text, delim);
}

/// The empty text is one empty segment, not none.
pub proof fn lemma_split_empty(delim: char)
    ensures
        split(Seq::<char>::empty(), delim) == seq![Seq::<char>::empty()],
{
}

/// Where `head` holds no delimiter, splitting `head`, a delimiter and `tail`
/// gives `head` and then the segments of `tail`.
pub proof fn lemma_split_joined(head: Seq<char>, tail: Seq<char>, delim: char)
    requires
        !head.contains(delim),
    ensures
        split(head + seq![delim] + tail, delim) == seq![head] + split(tail, delim),
{
    let text = head + seq![delim] + tail;
    let at = head.len() as int;
    assert forall|j: int| 0 <= j < at implies text[j] != delim by {
        assert(text[j] == head[j]);
    }
    assert(text[at] == delim);
    lemma_first_index_is(text, delim, at);
    assert(text.take(at) =~= head);
    assert(text.skip(at + 1) =~= tail);
}

/// The delimiters of a text are those before a position and those from it on.
pub proof fn lemma_count_skip(text: Seq<char>, delim: char, from: int)
    requires
        0 <= from <= text.len(),
    ensures
        count(text, delim) == count(text.take(from), delim) + count(text.skip(from), delim),
    decreases from,
{
    if from == 0 {
        assert(text.skip(0) =~= text);
        assert(text.take(0).len() == 0);
    } else {
        let rest = text.drop_first();
        lemma_count_skip(rest, delim, from - 1);
        assert(rest.take(from - 1) =~= text.take(from).drop_first());
        assert(rest.skip(from - 1) =~= text.skip(from));
        assert(text.take(from)[0] == text[0]);
    }
}

/// A text holds no delimiter exactly when their number is zero.
pub proof fn lemma_count_none(text: Seq<char>, delim: char)
    ensures
        count(text, delim) == 0 <==> !text.contains(delim),
    decreases text.len(),
{
    if text.len() > 0 {
        let rest = text.drop_first();
        lemma_count_none(rest, delim);
        if text[0] != delim {
            if rest.contains(delim) {
                let j = choose|j: int| 0 <= j < rest.len() && rest[j] == delim;
                assert(text[j + 1] == delim);
            }
            if text.contains(delim) {
                let j = choose|j: int| 0 <= j < text.len() && text[j] == delim;
                assert(rest[j - 1] == delim);
            }
        }
    }
}

/// There is one segment more than there are delimiters.
pub proof fn lemma_split_len(text: Seq<char>, delim: char)
    ensures
        split(text, delim).len() == count(text, delim) + 1,
    decreases text.len(),
{
    lemma_first_index(text, delim);
    let at = first_index(text, delim);
    if at < text.len() {
        let head = text.take(at);
        let tail = text.skip(at + 1);
        lemma_split_len(tail, delim);
        assert(!head.contains(delim));
        lemma_count_none(head, delim);
        lemma_count_skip(text, delim, at);
        assert(text.skip(at).drop_first() =~= tail);
        assert(text.skip(at)[0] == delim);
    } else {
        lemma_count_none(text, delim);
    }
}

/// Finds the first `delim` in `text`: its position, counted in characters, or
/// `None` where the text holds none.
pub fn find(text: &str, delim: char) -> (found: Option<usize>)
    ensures
        (match found {
            Some(at) => at < text@.len() && at == first_index(text@, delim),
            None => first_index(text@, delim) == text@.len(),
        }),
{
    broadcast use vstd::string::group_string_axioms;

    // The length bounds the position, so that counting cannot overflow.
    let len = text.unicode_len();
    let mut at: usize = 0;
    for c in it: text.chars()
        invariant
            it.seq() == text@,
            at == it.index(),
            len == text@.len(),
            forall|j: int| 0 <= j < at ==> text@[j] != delim,
    {
        if c == delim {
            proof {
                lemma_first_index_is(text@, delim, at as int);
            }
            return Some(at);
        }
        at = at + 1;
    }
    proof {
        lemma_first_index_is(text@, delim, at as int);
    }
    None
}

/// Cuts `text` at its first `delim`: what stands before it and what stands
/// after it, or `None` where the text holds none.
pub fn split_once<'a>(text: &'a str, delim: char) -> (parts: Option<(&'a str, &'a str)>)
    ensures
        (match parts {
            Some((head, tail)) => text@ == head@ + seq![delim] + tail@ && !head@.contains(delim),
            None => !text@.contains(delim),
        }),
{
    proof {
        lemma_first_index(text@, delim);
    }
    match find(text, delim) {
        Some(at) => {
            let len = text.unicode_len();
            let head = text.substring_char(0, at);
            let tail = text.substring_char(at + 1, len);
            assert(text@ =~= head@ + seq![delim] + tail@);
            Some((head, tail))
        },
        None => None,
    }
}

} // verus!
