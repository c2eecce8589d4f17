//! Tab stops: how a line of text maps to screen columns.
//!
//! A line is a sequence of characters; on screen every character takes one
//! column except the tab, which is shown as spaces up to the next tab stop.

use vstd::arithmetic::div_mod::{
    lemma_fundamental_div_mod,
    lemma_mod_bound,
    lemma_mod_multiples_basic,
};
use vstd::arithmetic::mul::{lemma_mul_is_commutative, lemma_mul_inequality};
use vstd::prelude::*;

verus! {

/// Distance between two tab stops, in columns.
pub const TAB_STOP: usize = 8;

/// The column at which text continues after a tab typed at column `col`,
/// with a tab stop every `stop` columns.
pub open spec fn tab_target(col: nat, stop: nat) -> nat {
    (col + stop - col % stop) as nat
}

/// Column `col` is a tab stop.
pub open spec fn is_tab_stop(col: nat, stop: nat) -> bool {
    col % stop == 0
}

/// `n` spaces.
pub open spec fn spaces(n: nat) -> Seq<char> {
    Seq::new(n, |i: int| ' ')
}

/// The column that follows the text `s` when it starts at column 0.
pub open spec fn render_width(s: Seq<char>, stop: nat) -> nat
    decreases s.len(),
{
    if s.len() == 0 {
        0
    } else {
        let before = render_width(s.drop_last(), stop);
        if s.last() == '\t' {
            tab_target(before, stop)
        } else {
            before + 1
        }
    }
}

/// The text `s` as it is shown: every tab replaced by the spaces that lead
/// to the next tab stop, every other character kept.
pub open spec fn expand_tabs(s: Seq<char>, stop: nat) -> Seq<char>
    decreases s.len(),
{
    if s.len() == 0 {
        Seq::empty()
    } else {
        let before = expand_tabs(s.drop_last(), stop);
        if s.last() == '\t' {
            before + spaces((tab_target(before.len(), stop) - before.len()) as nat)
        } else {
            before.push(s.last())
        }
    }
}

/// No character of `s` is a tab.
pub open spec fn tab_free(s: Seq<char>) -> bool {
    forall|i: int| 0 <= i < s.len() ==> s[i] != '\t'
}

/// A tab moves to the smallest multiple of the tab stop that lies beyond the
/// column it was typed at, which is at most one tab stop away.
pub proof fn lemma_tab_target_is_next_stop(col: nat, stop: nat)
    requires
        stop > 0,
    ensures
        col < tab_target(col, stop) <= col + stop,
        is_tab_stop(tab_target(col, stop), stop),
        forall|m: nat| m > col && #[trigger] is_tab_stop(m, stop) ==> m >= tab_target(col, stop),
{
    let c = col as int;
    let d = stop as int;
    let q = c / d;
    lemma_fundamental_div_mod(c, d);
    lemma_mod_bound(c, d);
    assert(d * (q + 1) == d * q + d) by (nonlinear_arith);
    assert(tab_target(col, stop) == d * (q + 1));
    lemma_mod_multiples_basic(q + 1, d);
    lemma_mul_is_commutative(q + 1, d);
    assert forall|m: nat| m > col && #[trigger] is_tab_stop(m, stop) implies m >= tab_target(
        col,
        stop,
    ) by {
        let mi = m as int;
        let k = mi / d;
        lemma_fundamental_div_mod(mi, d);
        assert(mi == d * k);
        if k <= q {
            lemma_mul_inequality(k, q, d);
            lemma_mul_is_commutative(k, d);
            lemma_mul_is_commutative(q, d);
            assert(mi <= d * q);
            assert(false);
        }
        lemma_mul_inequality(q + 1, k, d);
        lemma_mul_is_commutative(k, d);
    }
}

/// The shown text is as long as the column count says.
pub proof fn lemma_expand_tabs_len(s: Seq<char>, stop: nat)
    requires
        stop > 0,
    ensures
        expand_tabs(s, stop).len() == render_width(s, stop),
    decreases s.len(),
{
    if s.len() > 0 {
        lemma_expand_tabs_len(s.drop_last(), stop);
        lemma_tab_target_is_next_stop(render_width(s.drop_last(), stop), stop);
    }
}

/// Text without tabs is shown as it is: after `n` such characters the
/// column is `n`.
pub proof fn lemma_tab_free_text_is_unchanged(s: Seq<char>, stop: nat)
    requires
        tab_free(s),
    ensures
        render_width(s, stop) == s.len(),
        expand_tabs(s, stop) == s,
    decreases s.len(),
{
    if s.len() > 0 {
        lemma_tab_free_text_is_unchanged(s.drop_last(), stop);
        assert(s.drop_last().push(s.last()) =~= s);
    }
}

/// One more character moves the column as the character says: a tab to the
/// next tab stop, any other character by one.
pub proof fn lemma_render_width_push(s: Seq<char>, c: char, stop: nat)
    ensures
        render_width(s.push(c), stop) == if c == '\t' {
            tab_target(render_width(s, stop), stop)
        } else {
            render_width(s, stop) + 1
        },
{
    assert(s.push(c).drop_last() =~= s);
}

/// After a tab that follows the text `s`, the column is the smallest
/// multiple of the tab stop that is greater than the column after `s`.
pub proof fn lemma_column_after_tab(s: Seq<char>, stop: nat)
    requires
        stop > 0,
    ensures
        render_width(s, stop) < render_width(s.push('\t'), stop),
        is_tab_stop(render_width(s.push('\t'), stop), stop),
        forall|m: nat|
            m > render_width(s, stop) && #[trigger] is_tab_stop(m, stop) ==> m >= render_width(
                s.push('\t'),
                stop,
            ),
{
    lemma_render_width_push(s, '\t', stop);
    lemma_tab_target_is_next_stop(render_width(s, stop), stop);
}

/// Every character takes at least one column, so a prefix of a line never
/// ends to the right of the whole line, nor to the left of its own length.
pub proof fn lemma_render_width_prefix(s: Seq<char>, k: int, stop: nat)
    requires
        stop > 0,
        0 <= k <= s.len(),
    ensures
        k <= render_width(s.take(k), stop) <= render_width(s, stop),
    decreases s.len() - k,
{
    if k == s.len() {
        assert(s.take(k) =~= s);
        lemma_render_width_at_least_len(s, stop);
    } else {
        lemma_render_width_prefix(s, k + 1, stop);
        assert(s.take(k + 1).drop_last() =~= s.take(k));
        lemma_tab_target_is_next_stop(render_width(s.take(k), stop), stop);
        lemma_render_width_at_least_len(s.take(k), stop);
    }
}

/// A line is never shown shorter than it is.
pub proof fn lemma_render_width_at_least_len(s: Seq<char>, stop: nat)
    requires
        stop > 0,
    ensures
        s.len() <= render_width(s, stop),
    decreases s.len(),
{
    if s.len() > 0 {
        lemma_render_width_at_least_len(s.drop_last(), stop);
        lemma_tab_target_is_next_stop(render_width(s.drop_last(), stop), stop);
    }
}

} // verus!
