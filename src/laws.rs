//! Properties that hold across operations.
use vstd::prelude::*;
use crate::codes::{escape_code, full_reset, reset_code, styled, Hue, Style};
use crate::rainbow::{rainbow_cell, rainbow_of, rainbow_style};

verus! {

/// `needle` appears in `hay` as a contiguous run.
pub open spec fn occurs_in(needle: Seq<char>, hay: Seq<char>) -> bool {
    exists|i: int|
        0 <= i && i + needle.len() <= hay.len() && #[trigger] hay.subrange(i, i + needle.len())
            == needle
}

/// `s` carries both the escape and the reset sequence of `f`.
pub open spec fn has_markers(f: Style, s: Seq<char>) -> bool {
    occurs_in(escape_code(f), s) && occurs_in(reset_code(f), s)
}

/// The number of positions of `s` at which `p` starts (0 for an empty `p`).
pub open spec fn count_occurrences(s: Seq<char>, p: Seq<char>) -> nat
    decreases s.len(),
{
    if p.len() == 0 || s.len() < p.len() {
        0
    } else {
        (if s.take(p.len() as int) == p {
            1nat
        } else {
            0nat
        }) + count_occurrences(s.drop_first(), p)
    }
}

proof fn lemma_occurs_in_middle(a: Seq<char>, b: Seq<char>, c: Seq<char>)
    ensures
        occurs_in(b, a + b + c),
{
    let s = a + b + c;
    assert(s.subrange(a.len() as int, a.len() + b.len() as int) =~= b);
}

/// Styling a text twice with the same style nests one pair inside the
/// other: the result is the outer pair around the once-styled text, which
/// therefore still occurs in it whole.
pub proof fn lemma_restyle_nests(f: Style, t: Seq<char>)
    ensures
        styled(f, styled(f, t)) == escape_code(f) + styled(f, t) + reset_code(f),
        occurs_in(styled(f, t), styled(f, styled(f, t))),
{
    lemma_occurs_in_middle(escape_code(f), styled(f, t), reset_code(f));
}

proof fn lemma_markers_of_nesting(f: Style, g: Style, t: Seq<char>)
    ensures
        has_markers(f, styled(f, styled(g, t))),
        has_markers(g, styled(f, styled(g, t))),
{
    let (ef, rf, eg, rg) = (escape_code(f), reset_code(f), escape_code(g), reset_code(g));
    let s = styled(f, styled(g, t));
    assert(s =~= Seq::<char>::empty() + ef + (eg + t + rg + rf));
    lemma_occurs_in_middle(Seq::<char>::empty(), ef, eg + t + rg + rf);
    assert(s =~= ef + eg + (t + rg + rf));
    lemma_occurs_in_middle(ef, eg, t + rg + rf);
    assert(s =~= (ef + eg + t) + rg + rf);
    lemma_occurs_in_middle(ef + eg + t, rg, rf);
    assert(s =~= (ef + eg + t + rg) + rf + Seq::<char>::empty());
    lemma_occurs_in_middle(ef + eg + t + rg, rf, Seq::<char>::empty());
}

/// Chaining two styles in either order keeps all four sequences: both
/// escape sequences and both reset sequences occur in the result.
pub proof fn lemma_chain_keeps_markers(f: Style, g: Style, t: Seq<char>)
    ensures
        has_markers(f, styled(f, styled(g, t))),
        has_markers(g, styled(f, styled(g, t))),
        has_markers(f, styled(g, styled(f, t))),
        has_markers(g, styled(g, styled(f, t))),
{
    lemma_markers_of_nesting(f, g, t);
    lemma_markers_of_nesting(g, f, t);
}

/// No occurrence of `p` can start in the last `p.len() - 1` positions of `a`.
pub open spec fn no_start_in_tail(a: Seq<char>, p: Seq<char>) -> bool {
    forall|k: int| 0 <= k < a.len() && a.len() - k < p.len() ==> a[k] != p[0]
}

proof fn lemma_count_without_first(s: Seq<char>, p: Seq<char>)
    requires
        p.len() > 0,
        forall|k: int| 0 <= k < s.len() ==> s[k] != p[0],
    ensures
        count_occurrences(s, p) == 0,
    decreases s.len(),
{
    if s.len() >= p.len() {
        assert(s.take(p.len() as int)[0] != p[0]);
        lemma_count_without_first(s.drop_first(), p);
    }
}

/// Occurrences in `a + b` are those of `a` and those of `b` when none can
/// straddle the join.
proof fn lemma_count_concat(a: Seq<char>, b: Seq<char>, p: Seq<char>)
    requires
        p.len() > 0,
        no_start_in_tail(a, p),
    ensures
        count_occurrences(a + b, p) == count_occurrences(a, p) + count_occurrences(b, p),
    decreases a.len(),
{
    if a.len() == 0 {
        assert(a + b =~= b);
    } else {
        let ab = a + b;
        assert(ab.drop_first() =~= a.drop_first() + b);
        assert(no_start_in_tail(a.drop_first(), p)) by {
            assert forall|k: int|
                0 <= k < a.drop_first().len() && a.drop_first().len() - k < p.len() implies
                a.drop_first()[k] != p[0] by {
                assert(a.drop_first()[k] == a[k + 1]);
            }
        }
        lemma_count_concat(a.drop_first(), b, p);
        if a.len() >= p.len() {
            assert(ab.take(p.len() as int) =~= a.take(p.len() as int));
        } else {
            assert(a[0] != p[0]);
            if ab.len() >= p.len() {
                assert(ab.take(p.len() as int)[0] != p[0]);
            }
        }
    }
}

proof fn lemma_rainbow_ends_with_reset(t: Seq<char>)
    requires
        t.len() > 0,
    ensures
        rainbow_of(t).len() >= 4,
        rainbow_of(t).subrange(rainbow_of(t).len() - 4, rainbow_of(t).len() as int) == full_reset(),
{
    let r = rainbow_of(t);
    let cell = rainbow_cell((t.len() - 1) as nat, t.last());
    assert(r == rainbow_of(t.drop_last()) + cell);
    assert(r.subrange(r.len() - 4, r.len() as int) =~= full_reset());
}

/// The shape of every escape sequence of the cycle: `ESC`, then a
/// parameter list that does not start with `0` and holds no `ESC`.
proof fn lemma_cycle_code_shape(i: nat)
    ensures
        escape_code(rainbow_style(i)).len() >= 4,
        escape_code(rainbow_style(i))[0] == '\x1b',
        escape_code(rainbow_style(i))[2] != '0',
        forall|k: int|
            1 <= k < escape_code(rainbow_style(i)).len() ==> escape_code(rainbow_style(i))[k]
                != '\x1b',
{
    reveal_with_fuel(crate::codes::decimal, 3);
    let e = escape_code(rainbow_style(i));
    let k = i % 7;
    if k == 0 {
        assert(e =~= seq!['\x1b', '[', '9', '1', 'm']);
    } else if k == 1 {
        assert(e =~= seq!['\x1b', '[', '3', '8', ';', '5', ';', '2', '0', '8', 'm']);
    } else if k == 2 {
        assert(e =~= seq!['\x1b', '[', '9', '3', 'm']);
    } else if k == 3 {
        assert(e =~= seq!['\x1b', '[', '9', '2', 'm']);
    } else if k == 4 {
        assert(e =~= seq!['\x1b', '[', '9', '4', 'm']);
    } else if k == 5 {
        assert(e =~= seq!['\x1b', '[', '3', '8', ';', '5', ';', '6', '3', 'm']);
    } else {
        assert(e =~= seq!['\x1b', '[', '3', '8', ';', '5', ';', '1', '2', '9', 'm']);
    }
}

proof fn lemma_cell_has_one_reset(i: nat, c: char)
    ensures
        count_occurrences(rainbow_cell(i, c), full_reset()) == 1,
{
    let p = full_reset();
    let e = escape_code(rainbow_style(i));
    lemma_cycle_code_shape(i);
    let tail = seq![c] + p;
    assert(p =~= seq!['\x1b', '[', '0', 'm']);
    assert(rainbow_cell(i, c) =~= e + tail);
    lemma_count_concat(e, tail, p);
    assert(e.take(4)[2] != p[2]);
    lemma_count_without_first(e.drop_first(), p);
    assert(count_occurrences(e, p) == 0);
    assert(p.take(4) =~= p);
    assert(count_occurrences(p.drop_first(), p) == 0);
    assert(count_occurrences(p, p) == 1);
    assert(tail.take(4)[1] != p[1]);
    assert(tail.drop_first() =~= p);
    assert(count_occurrences(tail, p) == 1);
}

/// The rainbow of a text of `n` characters holds the full reset exactly `n`
/// times, one per character.
pub proof fn lemma_rainbow_reset_count(t: Seq<char>)
    ensures
        count_occurrences(rainbow_of(t), full_reset()) == t.len(),
    decreases t.len(),
{
    if t.len() > 0 {
        let front = rainbow_of(t.drop_last());
        let p = full_reset();
        lemma_rainbow_reset_count(t.drop_last());
        lemma_cell_has_one_reset((t.len() - 1) as nat, t.last());
        if t.drop_last().len() > 0 {
            lemma_rainbow_ends_with_reset(t.drop_last());
            assert(no_start_in_tail(front, p)) by {
                assert forall|k: int| 0 <= k < front.len() && front.len() - k < p.len() implies front[k]
                    != p[0] by {
                    let j = k - (front.len() - 4);
                    assert(front[k] == front.subrange(front.len() - 4, front.len() as int)[j]);
                }
            }
        }
        lemma_count_concat(front, rainbow_cell((t.len() - 1) as nat, t.last()), p);
    }
}

proof fn lemma_rainbow_prefix(t: Seq<char>, j: int)
    requires
        0 <= j <= t.len(),
    ensures
        rainbow_of(t.take(j)).is_prefix_of(rainbow_of(t)),
    decreases t.len(),
{
    if j == t.len() {
        assert(t.take(j) =~= t);
    } else {
        lemma_rainbow_prefix(t.drop_last(), j);
        assert(t.drop_last().take(j) =~= t.take(j));
    }
}

/// In the rainbow of `t`, the characters keep their order, and the one at
/// position `i` stands right after the output of the characters before it,
/// preceded by cycle colour `i mod 7` and followed by the full reset.
pub proof fn lemma_rainbow_cell_at(t: Seq<char>, i: int)
    requires
        0 <= i < t.len(),
    ensures
        rainbow_of(t.take(i + 1)) == rainbow_of(t.take(i)) + rainbow_cell(i as nat, t[i]),
        rainbow_of(t).subrange(
            rainbow_of(t.take(i)).len() as int,
            rainbow_of(t.take(i + 1)).len() as int,
        ) == escape_code(rainbow_style(i as nat)) + seq![t[i]] + full_reset(),
{
    assert(t.take(i + 1).drop_last() =~= t.take(i));
    lemma_rainbow_prefix(t, i + 1);
    let r = rainbow_of(t);
    let lo = rainbow_of(t.take(i)).len() as int;
    let hi = rainbow_of(t.take(i + 1)).len() as int;
    assert(r.subrange(lo, hi) =~= rainbow_of(t.take(i + 1)).subrange(lo, hi));
}

/// The rainbow of the empty text is empty; that of one character is that
/// character in bright red, followed by the full reset.
pub proof fn lemma_rainbow_short(c: char)
    ensures
        rainbow_of(Seq::empty()) == Seq::<char>::empty(),
        rainbow_of(seq![c]) == escape_code(Style::BrightFg(Hue::Red)) + seq![c] + full_reset(),
{
    assert(rainbow_of(Seq::<char>::empty()) == Seq::<char>::empty());
    assert(seq![c].drop_last() =~= Seq::<char>::empty());
    assert(rainbow_of(seq![c]) == rainbow_cell(0, c));
    assert(rainbow_of(seq![c]) =~= escape_code(Style::BrightFg(Hue::Red)) + seq![c] + full_reset());
}

} // verus!
