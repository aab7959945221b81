//! What the comparison of signatures tolerates, and what it does not.
//!
//! The terms of a signature spell it, so signatures with the same terms are the same
//! text; a struct that wraps the terms of a signature is that signature between round
//! brackets; and every signature made of complete terms has the shape of its wrapper.

use vstd::prelude::*;
use crate::equivalence::{
    closes, group_end, opens, same_shape, stripped, term_end, terms_from, top_level, wraps,
};

verus! {

/// A signature put between round brackets: the struct whose members it lists.
pub open spec fn wrapped(s: Seq<char>) -> Seq<char> {
    seq!['('] + s + seq![')']
}

/// A group ends behind the place where the scan for its end starts.
proof fn lemma_group_end_bounds(s: Seq<char>, at: int, depth: int)
    requires
        group_end(s, at, depth) is Some,
    ensures
        0 <= at < group_end(s, at, depth)->0 <= s.len(),
        depth >= 1,
    decreases s.len() - at,
{
    if opens(s[at]) {
        lemma_group_end_bounds(s, at + 1, depth + 1);
    } else if closes(s[at]) {
        if depth != 1 {
            lemma_group_end_bounds(s, at + 1, depth - 1);
        }
    } else {
        lemma_group_end_bounds(s, at + 1, depth);
    }
}

/// A term ends behind the place where it starts.
proof fn lemma_term_end_bounds(s: Seq<char>, at: int)
    requires
        term_end(s, at) is Some,
    ensures
        0 <= at < term_end(s, at)->0 <= s.len(),
    decreases s.len() - at,
{
    if s[at] == 'a' {
        lemma_term_end_bounds(s, at + 1);
    } else if opens(s[at]) {
        lemma_group_end_bounds(s, at + 1, 1);
    }
}

/// The terms of a signature, put one after another, spell the signature.
proof fn lemma_terms_spell_the_rest(s: Seq<char>, at: int)
    requires
        0 <= at <= s.len(),
        terms_from(s, at) is Some,
    ensures
        terms_from(s, at)->0.flatten() == s.subrange(at, s.len() as int),
    decreases s.len() - at,
{
    if at < s.len() {
        let end = term_end(s, at)->0;
        lemma_terms_spell_the_rest(s, end);
        assert(terms_from(s, at)->0.drop_first() =~= terms_from(s, end)->0);
    }
}

/// The top-level terms of a signature, put one after another, spell the signature.
pub proof fn lemma_terms_spell_the_signature(s: Seq<char>)
    requires
        top_level(s) is Some,
    ensures
        top_level(s)->0.flatten() == s,
{
    lemma_terms_spell_the_rest(s, 0);
}

/// Two signatures with the same top-level terms are the same text.
pub proof fn lemma_same_terms_same_text(a: Seq<char>, b: Seq<char>)
    requires
        top_level(a) is Some,
        top_level(a) == top_level(b),
    ensures
        a == b,
{
    lemma_terms_spell_the_signature(a);
    lemma_terms_spell_the_signature(b);
}

/// A signature that is a single top-level term is that term, and where the term is a
/// struct, the signature starts and ends with its round brackets.
proof fn lemma_single_term(s: Seq<char>)
    requires
        top_level(s) is Some,
        top_level(s)->0.len() == 1,
    ensures
        top_level(s)->0[0] == s,
        s.len() >= 1,
        s[0] == '(' ==> s.len() >= 2 && s.last() == ')',
{
    let terms = top_level(s)->0;
    let end = term_end(s, 0)->0;
    lemma_terms_spell_the_signature(s);
    assert(terms =~= seq![s.subrange(0, end)] + terms_from(s, end)->0);
    assert(terms.drop_first() =~= Seq::<Seq<char>>::empty());
    assert(terms.flatten() =~= terms[0]);
    assert(end == s.len());
    if s[0] == '(' {
        lemma_group_end_bounds(s, 1, 1);
    }
}

/// Signatures of the same shape differ by one pair of round brackets at most: they are
/// the same text, or one is the other put between round brackets. Nothing else is
/// tolerated: not another order, not a member more or less, not another type code.
pub proof fn lemma_same_shape_is_one_wrapper_apart(a: Seq<char>, b: Seq<char>)
    requires
        same_shape(a, b),
    ensures
        a == b || a == wrapped(b) || b == wrapped(a),
{
    if a == b {
    } else if wraps(a, b) {
        lemma_wraps_is_wrapped(a, b);
    } else if wraps(b, a) {
        lemma_wraps_is_wrapped(b, a);
    } else {
        lemma_same_terms_same_text(a, b);
    }
}

/// A struct whose members are the terms of `b` is `b` between round brackets.
proof fn lemma_wraps_is_wrapped(a: Seq<char>, b: Seq<char>)
    requires
        wraps(a, b),
    ensures
        a == wrapped(b),
{
    lemma_single_term(a);
    lemma_same_terms_same_text(stripped(a), b);
}

/// Inside more groups, the scan for the end of a group goes on behind that group's end
/// with one group less.
proof fn lemma_group_is_passed(s: Seq<char>, at: int, depth: int, more: int)
    requires
        group_end(s, at, depth) is Some,
        more >= 1,
    ensures
        group_end(s, at, depth + more) == group_end(s, group_end(s, at, depth)->0, more),
    decreases s.len() - at,
{
    lemma_group_end_bounds(s, at, depth);
    if opens(s[at]) {
        lemma_group_is_passed(s, at + 1, depth + 1, more);
    } else if closes(s[at]) {
        if depth != 1 {
            lemma_group_is_passed(s, at + 1, depth - 1, more);
        }
    } else {
        lemma_group_is_passed(s, at + 1, depth, more);
    }
}

/// The scan for the end of a group passes over a complete term and goes on behind it at
/// the same depth.
proof fn lemma_term_is_passed(s: Seq<char>, at: int, depth: int)
    requires
        term_end(s, at) is Some,
        depth >= 1,
    ensures
        group_end(s, at, depth) == group_end(s, term_end(s, at)->0, depth),
    decreases s.len() - at,
{
    if s[at] == 'a' {
        lemma_term_is_passed(s, at + 1, depth);
    } else if opens(s[at]) {
        lemma_group_is_passed(s, at + 1, 1, depth);
    }
}

/// Where a group ends depends on the characters up to its end alone: the same characters
/// at another place in another text end the group at the corresponding place.
proof fn lemma_group_end_moves(s: Seq<char>, at: int, depth: int, t: Seq<char>, by: int)
    requires
        group_end(s, at, depth) is Some,
        0 <= by,
        group_end(s, at, depth)->0 + by <= t.len(),
        forall|j: int| at <= j < group_end(s, at, depth)->0 ==> t[j + by] == s[j],
    ensures
        group_end(t, at + by, depth) == Some(group_end(s, at, depth)->0 + by),
    decreases s.len() - at,
{
    lemma_group_end_bounds(s, at, depth);
    if opens(s[at]) {
        lemma_group_end_moves(s, at + 1, depth + 1, t, by);
    } else if closes(s[at]) {
        if depth != 1 {
            lemma_group_end_moves(s, at + 1, depth - 1, t, by);
        }
    } else {
        lemma_group_end_moves(s, at + 1, depth, t, by);
    }
}

/// Where a term ends depends on the characters of the term alone.
proof fn lemma_term_end_moves(s: Seq<char>, at: int, t: Seq<char>, by: int)
    requires
        term_end(s, at) is Some,
        0 <= by,
        term_end(s, at)->0 + by <= t.len(),
        forall|j: int| at <= j < term_end(s, at)->0 ==> t[j + by] == s[j],
    ensures
        term_end(t, at + by) == Some(term_end(s, at)->0 + by),
    decreases s.len() - at,
{
    lemma_term_end_bounds(s, at);
    if s[at] == 'a' {
        lemma_term_end_moves(s, at + 1, t, by);
    } else if opens(s[at]) {
        lemma_group_end_bounds(s, at + 1, 1);
        lemma_group_end_moves(s, at + 1, 1, t, by);
    }
}

/// Inside a struct that holds the terms of `b` and nothing else, the scan for the
/// struct's end passes over all that is left of `b`.
proof fn lemma_members_are_passed(b: Seq<char>, at: int)
    requires
        0 <= at <= b.len(),
        terms_from(b, at) is Some,
    ensures
        group_end(wrapped(b), at + 1, 1) == Some(b.len() as int + 2),
    decreases b.len() - at,
{
    let w = wrapped(b);
    if at >= b.len() {
        assert(w[b.len() as int + 1] == ')');
    } else {
        let end = term_end(b, at)->0;
        lemma_term_end_moves(b, at, w, 1);
        lemma_term_is_passed(w, at + 1, 1);
        lemma_members_are_passed(b, end);
    }
}

/// A signature between round brackets is a single struct, and its members are the terms
/// of the signature.
proof fn lemma_wrapped_wraps(b: Seq<char>)
    requires
        top_level(b) is Some,
    ensures
        wraps(wrapped(b), b),
{
    let w = wrapped(b);
    lemma_members_are_passed(b, 0);
    assert(terms_from(w, w.len() as int) == Some(Seq::<Seq<char>>::empty()));
    assert(w.subrange(0, w.len() as int) =~= w);
    assert(stripped(w) =~= b);
}

/// Every signature that is a sequence of complete terms has the shape of the struct that
/// wraps it, whichever of the two is named first.
pub proof fn lemma_wrapper_is_tolerated(s: Seq<char>)
    requires
        top_level(s) is Some,
    ensures
        same_shape(s, wrapped(s)),
        same_shape(wrapped(s), s),
{
    lemma_wrapped_wraps(s);
}

/// Among signatures that are sequences of complete terms, two have the same shape exactly
/// if they are the same text or one is the other between round brackets.
pub proof fn lemma_same_shape_of_complete_signatures(a: Seq<char>, b: Seq<char>)
    requires
        top_level(a) is Some,
        top_level(b) is Some,
    ensures
        same_shape(a, b) <==> (a == b || a == wrapped(b) || b == wrapped(a)),
{
    if same_shape(a, b) {
        lemma_same_shape_is_one_wrapper_apart(a, b);
    }
    if a == wrapped(b) {
        lemma_wrapper_is_tolerated(b);
    }
    if b == wrapped(a) {
        lemma_wrapper_is_tolerated(a);
    }
}

} // verus!
