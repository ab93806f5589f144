//! Replacing expression tree literals in a source text by their desugared form.
//!
//! The literals are sorted by where they start and then replaced from the last one to the
//! first, so that the offsets of the literals not yet replaced stay valid.
use vstd::prelude::*;

verus! {

/// The bytes from `start` up to `end` of a source text.
#[derive(Clone, Copy, Debug, PartialEq, Eq, Structural)]
pub struct ByteSpan {
    pub start: usize,
    pub end: usize,
}

/// Where an item starting at `start` goes among `sorted`: after every item that starts at or
/// before `start`.
pub open spec fn insert_position<T>(sorted: Seq<(ByteSpan, T)>, start: usize) -> int
    decreases sorted.len(),
{
    if sorted.len() == 0 {
        0
    } else if sorted.last().0.start <= start {
        sorted.len() as int
    } else {
        insert_position(sorted.drop_last(), start)
    }
}

/// `items` in the order of their start, items with the same start in their given order.
pub open spec fn sorted_by_start<T>(items: Seq<(ByteSpan, T)>) -> Seq<(ByteSpan, T)>
    decreases items.len(),
{
    if items.len() == 0 {
        items
    } else {
        let sorted = sorted_by_start(items.drop_last());
        sorted.insert(insert_position(sorted, items.last().0.start), items.last())
    }
}

/// Sorts `items` by the start of their span; the sort is stable.
pub fn sort_by_start_pos<T>(items: &mut Vec<(ByteSpan, T)>)
    ensures
        final(items)@ == sorted_by_start(old(items)@),
{
    let mut rest: Vec<(ByteSpan, T)> = Vec::new();
    std::mem::swap(&mut rest, items);
    let ghost given = rest@;
    let ghost mut done: int = 0;
    let mut sorted: Vec<(ByteSpan, T)> = Vec::new();
    while rest.len() > 0
        invariant
            0 <= done <= given.len(),
            rest@ == given.skip(done),
            sorted@ == sorted_by_start(given.take(done)),
        decreases rest@.len(),
    {
        let item = rest.remove(0);
        let start = item.0.start;
        let mut p: usize = sorted.len();
        proof {
            assert(sorted@.take(p as int) =~= sorted@);
        }
        while p > 0 && sorted[p - 1].0.start > start
            invariant
                p <= sorted@.len(),
                insert_position(sorted@, start) == insert_position(sorted@.take(p as int), start),
            decreases p,
        {
            proof {
                assert(sorted@.take(p as int).drop_last() =~= sorted@.take(p - 1));
            }
            p = p - 1;
        }
        proof {
            assert(given.take(done + 1).drop_last() =~= given.take(done));
            assert(given[done] == item);
            if p == 0 {
                assert(sorted@.take(0) =~= Seq::<(ByteSpan, T)>::empty());
            }
        }
        sorted.insert(p, item);
        proof {
            done = done + 1;
            assert(rest@ =~= given.skip(done));
        }
    }
    proof {
        assert(given.take(done) =~= given);
    }
    *items = sorted;
}

/// Whether the items are in the order of their start.
pub open spec fn is_sorted_by_start<T>(items: Seq<(ByteSpan, T)>) -> bool {
    forall|i: int, j: int|
        0 <= i < j < items.len() ==> #[trigger] items[i].0.start <= #[trigger] items[j].0.start
}

/// In items sorted by start, the insert position of `start` follows every item that starts
/// at or before `start` and precedes every item that starts after it.
proof fn lemma_insert_position<T>(sorted: Seq<(ByteSpan, T)>, start: usize)
    requires
        is_sorted_by_start(sorted),
    ensures
        0 <= insert_position(sorted, start) <= sorted.len(),
        forall|i: int|
            0 <= i < insert_position(sorted, start) ==> #[trigger] sorted[i].0.start <= start,
        forall|i: int|
            insert_position(sorted, start) <= i < sorted.len() ==> #[trigger] sorted[i].0.start
                > start,
    decreases sorted.len(),
{
    if sorted.len() > 0 {
        let n = sorted.len() - 1;
        if sorted.last().0.start <= start {
            assert forall|i: int| 0 <= i < sorted.len() implies #[trigger] sorted[i].0.start
                <= start by {
                if i < n {
                    assert(sorted[i].0.start <= sorted[n].0.start);
                }
            }
        } else {
            let earlier = sorted.drop_last();
            assert forall|i: int, j: int|
                0 <= i < j < earlier.len() implies #[trigger] earlier[i].0.start
                <= #[trigger] earlier[j].0.start by {
                assert(sorted[i].0.start <= sorted[j].0.start);
            }
            lemma_insert_position(earlier, start);
            assert forall|i: int|
                0 <= i < insert_position(sorted, start) implies #[trigger] sorted[i].0.start
                    <= start by {
                assert(sorted[i] == earlier[i]);
            }
            assert forall|i: int|
                insert_position(sorted, start) <= i < sorted.len()
                implies #[trigger] sorted[i].0.start
                    > start by {
                if i < n {
                    assert(sorted[i] == earlier[i]);
                }
            }
        }
    }
}

/// Sorting by start gives the same items, in the order of their start.
pub proof fn lemma_sorted_by_start_sorts<T>(items: Seq<(ByteSpan, T)>)
    ensures
        sorted_by_start(items).to_multiset() == items.to_multiset(),
        is_sorted_by_start(sorted_by_start(items)),
    decreases items.len(),
{
    broadcast use vstd::seq_lib::to_multiset_build, vstd::seq_lib::to_multiset_insert;

    if items.len() == 0 {
    } else {
        let earlier = items.drop_last();
        let x = items.last();
        lemma_sorted_by_start_sorts(earlier);
        let sorted = sorted_by_start(earlier);
        let p = insert_position(sorted, x.0.start);
        lemma_insert_position(sorted, x.0.start);
        assert(items =~= earlier.push(x));
        let result = sorted.insert(p, x);
        assert forall|i: int, j: int| 0 <= i < j < result.len() implies #[trigger] result[i].0.start
            <= #[trigger] result[j].0.start by {
            if j < p {
                assert(result[i] == sorted[i] && result[j] == sorted[j]);
            } else if j == p {
                assert(result[i] == sorted[i]);
            } else if i < p {
                assert(result[i] == sorted[i] && result[j] == sorted[j - 1]);
            } else if i == p {
                assert(result[j] == sorted[j - 1]);
            } else {
                assert(result[i] == sorted[i - 1] && result[j] == sorted[j - 1]);
            }
        }
    }
}

/// Whether an item starts at `start`.
pub open spec fn starting_at<T>(start: usize) -> spec_fn((ByteSpan, T)) -> bool {
    |e: (ByteSpan, T)| e.0.start == start
}

/// Filtering out every item leaves nothing.
proof fn lemma_filter_of_none<T>(s: Seq<(ByteSpan, T)>, pred: spec_fn((ByteSpan, T)) -> bool)
    requires
        forall|i: int| 0 <= i < s.len() ==> !pred(#[trigger] s[i]),
    ensures
        s.filter(pred) == Seq::<(ByteSpan, T)>::empty(),
    decreases s.len(),
{
    reveal_with_fuel(Seq::<_>::filter, 1);
    if s.len() > 0 {
        assert(!pred(s[s.len() - 1]));
        assert forall|i: int| 0 <= i < s.drop_last().len() implies !pred(
            #[trigger] s.drop_last()[i],
        ) by {
            assert(s.drop_last()[i] == s[i]);
        }
        lemma_filter_of_none(s.drop_last(), pred);
    }
}

/// The sort is stable: the items that start at a given offset come out in the order in
/// which they were given.
pub proof fn lemma_sorted_by_start_is_stable<T>(items: Seq<(ByteSpan, T)>, start: usize)
    ensures
        sorted_by_start(items).filter(starting_at(start)) == items.filter(starting_at(start)),
    decreases items.len(),
{
    broadcast use vstd::seq::Seq::filter_distributes_over_add;

    reveal_with_fuel(Seq::<_>::filter, 1);
    if items.len() > 0 {
        let pred = starting_at::<T>(start);
        let earlier = items.drop_last();
        let x = items.last();
        lemma_sorted_by_start_is_stable(earlier, start);
        lemma_sorted_by_start_sorts(earlier);
        let sorted = sorted_by_start(earlier);
        let p = insert_position(sorted, x.0.start);
        lemma_insert_position(sorted, x.0.start);
        let before = sorted.subrange(0, p);
        let after = sorted.subrange(p, sorted.len() as int);
        assert(sorted =~= before + after);
        assert(sorted.insert(p, x) =~= before + seq![x] + after);
        assert(seq![x].drop_last() =~= Seq::<(ByteSpan, T)>::empty());
        assert(items.filter(pred) == if pred(x) {
            earlier.filter(pred).push(x)
        } else {
            earlier.filter(pred)
        });
        if pred(x) {
            assert forall|i: int| 0 <= i < after.len() implies !pred(#[trigger] after[i]) by {
                assert(after[i] == sorted[p + i]);
            }
            lemma_filter_of_none(after, pred);
            assert(seq![x].filter(pred) =~= seq![x]);
            assert((before + seq![x] + after).filter(pred) =~= before.filter(pred).push(x));
            assert(sorted.filter(pred) =~= before.filter(pred));
        } else {
            assert(seq![x].last() == x);
            assert(seq![x].drop_last().filter(pred) =~= Seq::<(ByteSpan, T)>::empty());
            assert(seq![x].filter(pred) =~= Seq::<(ByteSpan, T)>::empty());
            assert((before + seq![x] + after).filter(pred) =~= before.filter(pred) + after.filter(
                pred,
            ));
        }
    }
}

/// Whether byte offset `i` of `s` starts a character or ends the text: no UTF-8
/// continuation byte stands at it.
pub open spec fn is_char_boundary(s: Seq<u8>, i: int) -> bool {
    i == 0 || i == s.len() || (0 < i < s.len() && !(0x80 <= s[i] < 0xC0))
}

/// Whether `span` can be replaced in `s`: it starts before it ends, and both ends are
/// character boundaries of `s`.
pub open spec fn can_replace(s: Seq<u8>, span: ByteSpan) -> bool {
    &&& span.start <= span.end
    &&& is_char_boundary(s, span.start as int)
    &&& is_char_boundary(s, span.end as int)
}

/// `s` with `span` replaced by `text`.
pub open spec fn replaced(s: Seq<u8>, span: ByteSpan, text: Seq<u8>) -> Seq<u8> {
    s.subrange(0, span.start as int) + text + s.subrange(span.end as int, s.len() as int)
}

/// Whether each literal, from the last to the first, can be replaced in the text that the
/// replacements after it leave.
pub open spec fn fits_from_last(s: Seq<u8>, literals: Seq<(ByteSpan, Vec<u8>)>) -> bool
    decreases literals.len(),
{
    literals.len() == 0 || {
        let last = literals.last();
        &&& can_replace(s, last.0)
        &&& fits_from_last(replaced(s, last.0, last.1@), literals.drop_last())
    }
}

/// `s` after each literal's span is replaced by its text, from the last literal to the
/// first.
pub open spec fn replaced_from_last(s: Seq<u8>, literals: Seq<(ByteSpan, Vec<u8>)>) -> Seq<u8>
    decreases literals.len(),
{
    if literals.len() == 0 {
        s
    } else {
        let last = literals.last();
        replaced_from_last(replaced(s, last.0, last.1@), literals.drop_last())
    }
}

/// Whether byte offset `i` of `s` starts a character or ends the text.
pub fn char_boundary(s: &Vec<u8>, i: usize) -> (r: bool)
    ensures
        r == is_char_boundary(s@, i as int),
{
    if i == 0 || i == s.len() {
        true
    } else if i < s.len() {
        let b = s[i];
        !(0x80 <= b && b < 0xC0)
    } else {
        false
    }
}

/// `s` with `span` replaced by `text`.
fn replace_span(s: &Vec<u8>, span: ByteSpan, text: &Vec<u8>) -> (r: Vec<u8>)
    requires
        span.start <= span.end <= s@.len(),
    ensures
        r@ == replaced(s@, span, text@),
{
    let mut r: Vec<u8> = Vec::new();
    let mut i: usize = 0;
    while i < span.start
        invariant
            span.start <= span.end <= s@.len(),
            i <= span.start,
            r@ == s@.subrange(0, i as int),
        decreases span.start - i,
    {
        r.push(s[i]);
        proof {
            assert(r@ =~= s@.subrange(0, i + 1));
        }
        i = i + 1;
    }
    let ghost prefix = r@;
    let mut j: usize = 0;
    while j < text.len()
        invariant
            j <= text@.len(),
            r@ == prefix + text@.subrange(0, j as int),
        decreases text@.len() - j,
    {
        r.push(text[j]);
        proof {
            assert(r@ =~= prefix + text@.subrange(0, j + 1));
        }
        j = j + 1;
    }
    proof {
        assert(text@.subrange(0, text@.len() as int) =~= text@);
    }
    let ghost middle = r@;
    let mut k: usize = span.end;
    while k < s.len()
        invariant
            span.end <= k <= s@.len(),
            r@ == middle + s@.subrange(span.end as int, k as int),
        decreases s@.len() - k,
    {
        r.push(s[k]);
        proof {
            assert(r@ =~= middle + s@.subrange(span.end as int, k + 1));
        }
        k = k + 1;
    }
    r
}

/// The text after each literal's span is replaced by its text, from the last literal to the
/// first; `None` when a span, in the text that the later replacements leave, ends before it
/// starts or has an end that is not a character boundary.
pub fn replace_from_last(src: &[u8], literals: &Vec<(ByteSpan, Vec<u8>)>) -> (r: Option<Vec<u8>>)
    ensures
        r is Some <==> fits_from_last(src@, literals@),
        r matches Some(out) ==> out@ == replaced_from_last(src@, literals@),
{
    let mut cur: Vec<u8> = Vec::new();
    let mut i: usize = 0;
    while i < src.len()
        invariant
            i <= src@.len(),
            cur@ == src@.subrange(0, i as int),
        decreases src@.len() - i,
    {
        cur.push(src[i]);
        proof {
            assert(cur@ =~= src@.subrange(0, i + 1));
        }
        i = i + 1;
    }
    proof {
        assert(cur@ =~= src@);
        assert(literals@.take(literals@.len() as int) =~= literals@);
    }
    let mut k: usize = literals.len();
    while k > 0
        invariant
            k <= literals@.len(),
            fits_from_last(src@, literals@) == fits_from_last(cur@, literals@.take(k as int)),
            replaced_from_last(src@, literals@) == replaced_from_last(
                cur@,
                literals@.take(k as int),
            ),
        decreases k,
    {
        let literal = &literals[k - 1];
        let span = literal.0;
        proof {
            assert(literals@.take(k as int).drop_last() =~= literals@.take(k - 1));
            assert(literals@.take(k as int).last() == literals@[k - 1]);
        }
        if !(span.start <= span.end && char_boundary(&cur, span.start) && char_boundary(
            &cur,
            span.end,
        )) {
            return None;
        }
        cur = replace_span(&cur, span, &literal.1);
        k = k - 1;
    }
    Some(cur)
}

/// Whether each span starts before it ends, and ends before the next span starts.
pub open spec fn spans_in_order(literals: Seq<(ByteSpan, Vec<u8>)>) -> bool {
    &&& forall|i: int|
        0 <= i < literals.len() ==> #[trigger] literals[i].0.start <= literals[i].0.end
    &&& forall|i: int, j: int|
        0 <= i < j < literals.len() ==> #[trigger] literals[i].0.end
            <= #[trigger] literals[j].0.start
}

/// Whether both ends of every span are character boundaries of `s`.
pub open spec fn spans_on_boundaries(s: Seq<u8>, literals: Seq<(ByteSpan, Vec<u8>)>) -> bool {
    forall|i: int|
        0 <= i < literals.len() ==> is_char_boundary(s, #[trigger] literals[i].0.start as int)
            && is_char_boundary(s, literals[i].0.end as int)
}

/// Whether `t` does not start in the middle of a character.
pub open spec fn starts_a_character(t: Seq<u8>) -> bool {
    t.len() == 0 || !(0x80 <= t[0] < 0xC0)
}

/// Whether no replacement text starts in the middle of a character.
pub open spec fn texts_start_characters(literals: Seq<(ByteSpan, Vec<u8>)>) -> bool {
    forall|i: int| 0 <= i < literals.len() ==> starts_a_character(#[trigger] literals[i].1@)
}

/// `s` with every span, taken at its offsets in `s`, replaced by its text.
pub open spec fn spliced(s: Seq<u8>, literals: Seq<(ByteSpan, Vec<u8>)>) -> Seq<u8>
    decreases literals.len(),
{
    if literals.len() == 0 {
        s
    } else {
        let last = literals.last();
        spliced(s.subrange(0, last.0.start as int), literals.drop_last()) + last.1@ + s.subrange(
            last.0.end as int,
            s.len() as int,
        )
    }
}

/// Replacements that all end within `x` neither see nor change what follows `x`, provided
/// that what follows does not start in the middle of a character where a span ends at the
/// end of `x`.
proof fn lemma_replacing_before_suffix(
    x: Seq<u8>,
    suffix: Seq<u8>,
    literals: Seq<(ByteSpan, Vec<u8>)>,
)
    requires
        spans_in_order(literals),
        forall|i: int| 0 <= i < literals.len() ==> #[trigger] literals[i].0.end <= x.len(),
        forall|i: int|
            0 <= i < literals.len() ==> #[trigger] literals[i].0.end < x.len() || is_char_boundary(
                x + suffix,
                x.len() as int,
            ),
    ensures
        fits_from_last(x + suffix, literals) == fits_from_last(x, literals),
        replaced_from_last(x + suffix, literals) == replaced_from_last(x, literals) + suffix,
    decreases literals.len(),
{
    if literals.len() > 0 {
        let n = literals.len() - 1;
        let last = literals.last();
        let span = last.0;
        let rest = literals.drop_last();
        assert(literals[n].0.start <= literals[n].0.end);
        assert(literals[n].0.end <= x.len());
        assert(literals[n].0.end < x.len() || is_char_boundary(x + suffix, x.len() as int));
        assert forall|i: int| 0 <= i < x.len() implies is_char_boundary(x + suffix, i)
            == is_char_boundary(x, i) by {
            if 0 < i {
                assert((x + suffix)[i] == x[i]);
            }
        }
        assert(can_replace(x + suffix, span) == can_replace(x, span));
        let x1 = replaced(x, span, last.1@);
        assert(replaced(x + suffix, span, last.1@) =~= x1 + suffix);
        assert forall|i: int| 0 <= i < rest.len() implies #[trigger] rest[i].0.end <= x1.len() by {
            assert(literals[i].0.end <= literals[n].0.start);
        }
        assert forall|i: int| 0 <= i < rest.len() implies #[trigger] rest[i].0.end < x1.len()
            || is_char_boundary(x1 + suffix, x1.len() as int) by {
            assert(literals[i].0.end <= literals[n].0.start);
            if rest[i].0.end == x1.len() && x1.len() > 0 && suffix.len() > 0 {
                assert(span.end == x.len());
                assert((x1 + suffix)[x1.len() as int] == suffix[0]);
                assert((x + suffix)[x.len() as int] == suffix[0]);
            }
        }
        assert forall|i: int, j: int| 0 <= i < j < rest.len() implies #[trigger] rest[i].0.end
            <= #[trigger] rest[j].0.start by {
            assert(literals[i].0.end <= literals[j].0.start);
        }
        assert forall|i: int| 0 <= i < rest.len() implies #[trigger] rest[i].0.start
            <= rest[i].0.end by {
            assert(literals[i].0.start <= literals[i].0.end);
        }
        lemma_replacing_before_suffix(x1, suffix, rest);
    }
}

/// Replacing from the last literal to the first splices the text: when the spans come in
/// order, lie on character boundaries of the text and no replacement text starts in the
/// middle of a character, every replacement succeeds and each span is replaced where it
/// stands in the original text.
pub proof fn lemma_replacing_from_last_splices(src: Seq<u8>, literals: Seq<(ByteSpan, Vec<u8>)>)
    requires
        spans_in_order(literals),
        spans_on_boundaries(src, literals),
        texts_start_characters(literals),
    ensures
        fits_from_last(src, literals),
        replaced_from_last(src, literals) == spliced(src, literals),
    decreases literals.len(),
{
    if literals.len() > 0 {
        let n = literals.len() - 1;
        let last = literals.last();
        let span = last.0;
        let rest = literals.drop_last();
        assert(literals[n].0.start <= literals[n].0.end);
        assert(is_char_boundary(src, literals[n].0.start as int));
        assert(is_char_boundary(src, literals[n].0.end as int));
        assert(starts_a_character(literals[n].1@));
        let prefix = src.subrange(0, span.start as int);
        let after = last.1@ + src.subrange(span.end as int, src.len() as int);
        assert(replaced(src, span, last.1@) =~= prefix + after);
        if prefix.len() > 0 && after.len() > 0 {
            assert((prefix + after)[prefix.len() as int] == after[0]);
            if last.1@.len() == 0 {
                assert(after[0] == src[span.end as int]);
            } else {
                assert(after[0] == last.1@[0]);
            }
        }
        assert(is_char_boundary(prefix + after, prefix.len() as int));
        assert forall|i: int|
            0 <= i < rest.len() implies #[trigger] rest[i].0.end <= prefix.len() by {
            assert(literals[i].0.end <= literals[n].0.start);
        }
        assert forall|i: int, j: int| 0 <= i < j < rest.len() implies #[trigger] rest[i].0.end
            <= #[trigger] rest[j].0.start by {
            assert(literals[i].0.end <= literals[j].0.start);
        }
        assert forall|i: int| 0 <= i < rest.len() implies #[trigger] rest[i].0.start
            <= rest[i].0.end by {
            assert(literals[i].0.start <= literals[i].0.end);
        }
        assert forall|i: int| 0 <= i < rest.len() implies is_char_boundary(
            prefix,
            #[trigger] rest[i].0.start as int,
        ) && is_char_boundary(prefix, rest[i].0.end as int) by {
            assert(literals[i].0.end <= literals[n].0.start);
            assert(is_char_boundary(src, literals[i].0.start as int));
            assert(is_char_boundary(src, literals[i].0.end as int));
            let a = rest[i].0.start as int;
            let b = rest[i].0.end as int;
            if 0 < a < prefix.len() {
                assert(prefix[a] == src[a]);
            }
            if 0 < b < prefix.len() {
                assert(prefix[b] == src[b]);
            }
        }
        assert forall|i: int|
            0 <= i < rest.len() implies starts_a_character(#[trigger] rest[i].1@) by {
            assert(starts_a_character(literals[i].1@));
        }
        lemma_replacing_before_suffix(prefix, after, rest);
        lemma_replacing_from_last_splices(prefix, rest);
        assert(spliced(prefix, rest) + after =~= spliced(src, literals));
    }
}

/// Whether every span is non-empty and no two spans overlap.
pub open spec fn spans_disjoint(literals: Seq<(ByteSpan, Vec<u8>)>) -> bool {
    &&& forall|i: int|
        0 <= i < literals.len() ==> #[trigger] literals[i].0.start < literals[i].0.end
    &&& forall|i: int, j: int|
        0 <= i < literals.len() && 0 <= j < literals.len() && i != j
            ==> #[trigger] literals[i].0.end
            <= #[trigger] literals[j].0.start || literals[j].0.end <= literals[i].0.start
}

/// Every item of the sorted sequence is an item of the given one.
proof fn lemma_sorted_item_is_given<T>(items: Seq<(ByteSpan, T)>, k: int)
    requires
        0 <= k < sorted_by_start(items).len(),
    ensures
        exists|i: int| 0 <= i < items.len() && items[i] == #[trigger] sorted_by_start(items)[k],
{
    broadcast use vstd::seq_lib::to_multiset_contains;

    lemma_sorted_by_start_sorts(items);
    let sorted = sorted_by_start(items);
    assert(sorted.contains(sorted[k]));
    assert(sorted.to_multiset().count(sorted[k]) > 0);
    assert(items.contains(sorted[k]));
}

/// Sorting non-empty, non-overlapping spans by their start puts them in order.
pub proof fn lemma_sorting_disjoint_spans_orders_them(literals: Seq<(ByteSpan, Vec<u8>)>)
    requires
        spans_disjoint(literals),
    ensures
        spans_in_order(sorted_by_start(literals)),
    decreases literals.len(),
{
    if literals.len() > 0 {
        let n = literals.len() - 1;
        let earlier = literals.drop_last();
        let x = literals.last();
        assert forall|i: int, j: int|
            0 <= i < earlier.len() && 0 <= j < earlier.len() && i != j
            implies #[trigger] earlier[i].0.end
            <= #[trigger] earlier[j].0.start || earlier[j].0.end <= earlier[i].0.start by {
            assert(literals[i] == earlier[i] && literals[j] == earlier[j]);
        }
        assert forall|i: int| 0 <= i < earlier.len() implies #[trigger] earlier[i].0.start
            < earlier[i].0.end by {
            assert(literals[i] == earlier[i]);
        }
        lemma_sorting_disjoint_spans_orders_them(earlier);
        lemma_sorted_by_start_sorts(earlier);
        let sorted = sorted_by_start(earlier);
        let p = insert_position(sorted, x.0.start);
        lemma_insert_position(sorted, x.0.start);
        let result = sorted.insert(p, x);
        assert(x.0.start < x.0.end) by {
            assert(literals[n] == x);
        }
        assert forall|k: int| 0 <= k < sorted.len() implies #[trigger] sorted[k].0.end <= x.0.start
            || x.0.end <= sorted[k].0.start by {
            lemma_sorted_item_is_given(earlier, k);
            let i = choose|i: int| 0 <= i < earlier.len() && earlier[i] == sorted[k];
            assert(literals[i] == sorted[k]);
            assert(literals[i].0.end <= literals[n].0.start || literals[n].0.end
                <= literals[i].0.start);
            assert(sorted[k].0.start < sorted[k].0.end) by {
                assert(literals[i].0.start < literals[i].0.end);
            }
        }
        assert forall|i: int| 0 <= i < result.len() implies #[trigger] result[i].0.start
            <= result[i].0.end by {
            if i < p {
                assert(result[i] == sorted[i]);
            } else if i > p {
                assert(result[i] == sorted[i - 1]);
            }
        }
        assert forall|i: int, j: int| 0 <= i < j < result.len() implies #[trigger] result[i].0.end
            <= #[trigger] result[j].0.start by {
            if j < p {
                assert(result[i] == sorted[i] && result[j] == sorted[j]);
            } else if j == p {
                assert(result[i] == sorted[i]);
                assert(sorted[i].0.start <= x.0.start);
            } else if i < p {
                assert(result[i] == sorted[i] && result[j] == sorted[j - 1]);
            } else if i == p {
                assert(result[j] == sorted[j - 1]);
                assert(sorted[j - 1].0.start > x.0.start);
            } else {
                assert(result[i] == sorted[i - 1] && result[j] == sorted[j - 1]);
            }
        }
    }
}

/// Desugaring the literals splices the source text: when the literals' spans are non-empty,
/// do not overlap and lie on character boundaries, and no desugared text starts in the
/// middle of a character, sorting them and replacing from the last to the first succeeds
/// and replaces each literal where it stands in the source text.
pub proof fn lemma_desugaring_splices(src: Seq<u8>, literals: Seq<(ByteSpan, Vec<u8>)>)
    requires
        spans_disjoint(literals),
        spans_on_boundaries(src, literals),
        texts_start_characters(literals),
    ensures
        fits_from_last(src, sorted_by_start(literals)),
        replaced_from_last(src, sorted_by_start(literals)) == spliced(
            src,
            sorted_by_start(literals),
        ),
{
    let sorted = sorted_by_start(literals);
    lemma_sorting_disjoint_spans_orders_them(literals);
    assert forall|k: int| 0 <= k < sorted.len() implies is_char_boundary(
        src,
        #[trigger] sorted[k].0.start as int,
    ) && is_char_boundary(src, sorted[k].0.end as int) && starts_a_character(sorted[k].1@) by {
        lemma_sorted_item_is_given(literals, k);
        let i = choose|i: int| 0 <= i < literals.len() && literals[i] == sorted[k];
        assert(is_char_boundary(src, literals[i].0.start as int));
        assert(starts_a_character(literals[i].1@));
    }
    assert forall|k: int| 0 <= k < sorted.len() implies starts_a_character(
        #[trigger] sorted[k].1@,
    ) by {
        lemma_sorted_item_is_given(literals, k);
        let i = choose|i: int| 0 <= i < literals.len() && literals[i] == sorted[k];
        assert(starts_a_character(literals[i].1@));
    }
    lemma_replacing_from_last_splices(src, sorted);
}

} // verus!
