//! Whether two signatures denote the same shape.
//!
//! A signature is split into its top-level terms in one scan that counts brackets; what a
//! container holds stays whole. Two signatures have the same shape if they are the same
//! text, if their terms are the same, or if one of them is a single struct whose members
//! are the terms of the other.

use vstd::prelude::*;
use crate::text::{chars_of, same_chars};

verus! {

/// `(` and `{` open a group.
pub open spec fn opens(c: char) -> bool {
    c == '(' || c == '{'
}

/// `)` and `}` close a group.
pub open spec fn closes(c: char) -> bool {
    c == ')' || c == '}'
}

/// The bracket that closes a group opened by `c`.
pub open spec fn partner(c: char) -> char {
    if c == '(' {
        ')'
    } else {
        '}'
    }
}

/// The position just behind the bracket that closes the innermost group open at `at`,
/// when `depth` groups are open there. What stands between the brackets is not looked
/// into beyond counting brackets. `None` where the text ends before the group does.
pub open spec fn group_end(s: Seq<char>, at: int, depth: int) -> Option<int>
    decreases s.len() - at,
{
    if at < 0 || at >= s.len() || depth < 1 {
        None
    } else if opens(s[at]) {
        group_end(s, at + 1, depth + 1)
    } else if closes(s[at]) {
        if depth == 1 {
            Some(at + 1)
        } else {
            group_end(s, at + 1, depth - 1)
        }
    } else {
        group_end(s, at + 1, depth)
    }
}

/// The position just behind the one complete term that starts at `at`.
///
/// A term is a single type code; or `a` followed by a complete term, which is an array of
/// it; or a group from an opening bracket to the bracket that closes it, which must be its
/// partner. `None` where no complete term starts at `at`.
pub open spec fn term_end(s: Seq<char>, at: int) -> Option<int>
    decreases s.len() - at,
{
    if at < 0 || at >= s.len() {
        None
    } else if s[at] == 'a' {
        term_end(s, at + 1)
    } else if opens(s[at]) {
        match group_end(s, at + 1, 1) {
            Some(end) => if s[end - 1] == partner(s[at]) {
                Some(end)
            } else {
                None
            },
            None => None,
        }
    } else if closes(s[at]) {
        None
    } else {
        Some(at + 1)
    }
}

/// The complete terms that `s` is made of from `at` on, in order, each as the text that
/// spells it. `None` where the rest of `s` is not a sequence of complete terms.
pub open spec fn terms_from(s: Seq<char>, at: int) -> Option<Seq<Seq<char>>>
    decreases s.len() - at,
{
    if at >= s.len() {
        Some(Seq::empty())
    } else {
        match term_end(s, at) {
            Some(end) => if at < end <= s.len() {
                match terms_from(s, end) {
                    Some(rest) => Some(seq![s.subrange(at, end)] + rest),
                    None => None,
                }
            } else {
                None
            },
            None => None,
        }
    }
}

/// The top-level terms of a signature: containers are kept whole.
pub open spec fn top_level(s: Seq<char>) -> Option<Seq<Seq<char>>> {
    terms_from(s, 0)
}

/// A text without its first and last character.
pub open spec fn stripped(s: Seq<char>) -> Seq<char> {
    if s.len() >= 2 {
        s.subrange(1, s.len() - 1)
    } else {
        s
    }
}

/// `a` is a single struct whose members are, term for term, the top-level terms of `b`.
pub open spec fn wraps(a: Seq<char>, b: Seq<char>) -> bool {
    match (top_level(a), top_level(b)) {
        (Some(outer), Some(terms)) => {
            &&& outer.len() == 1
            &&& outer[0].len() >= 2
            &&& outer[0][0] == '('
            &&& top_level(stripped(outer[0])) == Some(terms)
        },
        _ => false,
    }
}

/// Two signatures denote the same shape: they are the same text; or one is the other
/// wrapped into a single struct; or they have the same top-level terms.
pub open spec fn same_shape(a: Seq<char>, b: Seq<char>) -> bool {
    ||| a == b
    ||| wraps(a, b)
    ||| wraps(b, a)
    ||| (top_level(a) is Some && top_level(a) == top_level(b))
}

/// Every signature has the shape that it has.
pub proof fn lemma_same_shape_reflexive(s: Seq<char>)
    ensures
        same_shape(s, s),
{
}

/// Which of two signatures is named first makes no difference.
pub proof fn lemma_same_shape_symmetric(a: Seq<char>, b: Seq<char>)
    ensures
        same_shape(a, b) == same_shape(b, a),
{
}

/// The kinds of term that a signature is made of.
#[derive(Clone, Copy, Debug, PartialEq, Eq, Structural)]
pub enum TermKind {
    /// A single type code other than the variant's.
    Basic,
    /// The variant marker `v`.
    Variant,
    /// `a` and the element type behind it.
    Array,
    /// A group in round brackets.
    Struct,
    /// A group in curly brackets.
    DictEntry,
}

/// One top-level term of a signature: what kind of term it is, and the text that spells
/// it, with whatever it contains kept whole.
#[derive(Debug, PartialEq, Eq)]
pub struct Term {
    pub kind: TermKind,
    pub text: String,
}

/// The kind of a term, which its first character decides.
pub open spec fn kind_of(text: Seq<char>) -> TermKind {
    if text.len() == 0 {
        TermKind::Basic
    } else if text[0] == 'a' {
        TermKind::Array
    } else if text[0] == '(' {
        TermKind::Struct
    } else if text[0] == '{' {
        TermKind::DictEntry
    } else if text[0] == 'v' {
        TermKind::Variant
    } else {
        TermKind::Basic
    }
}

/// The texts of a list of terms, in order.
pub open spec fn term_texts(terms: Seq<Term>) -> Seq<Seq<char>> {
    terms.map_values(|t: Term| t.text@)
}

/// The pieces of `s` that a list of spans cuts out, in order. A span is the position of
/// a piece's first character and the position just behind its last.
pub open spec fn span_texts(s: Seq<char>, spans: Seq<(usize, usize)>) -> Seq<Seq<char>> {
    spans.map_values(|p: (usize, usize)| s.subrange(p.0 as int, p.1 as int))
}

/// Every span is a non-empty piece of a text of length `len`.
pub open spec fn spans_within(spans: Seq<(usize, usize)>, len: int) -> bool {
    forall|k: int| 0 <= k < spans.len() ==> (#[trigger] spans[k]).0 < spans[k].1 <= len
}

/// Scans for the bracket that closes a group whose opening bracket stands just before
/// `from`.
fn find_group_end(s: &Vec<char>, from: usize) -> (end: Option<usize>)
    requires
        0 < from <= s@.len(),
    ensures
        match end {
            Some(e) => from < e <= s@.len() && group_end(s@, from as int, 1) == Some(e as int),
            None => group_end(s@, from as int, 1) is None,
        },
{
    let mut at: usize = from;
    let mut depth: usize = 1;
    while at < s.len()
        invariant
            0 < from <= at <= s@.len(),
            1 <= depth <= at - from + 1,
            group_end(s@, from as int, 1) == group_end(s@, at as int, depth as int),
        decreases s@.len() - at,
    {
        let c = s[at];
        if c == '(' || c == '{' {
            depth += 1;
        } else if c == ')' || c == '}' {
            if depth == 1 {
                return Some(at + 1);
            }
            depth -= 1;
        }
        at += 1;
    }
    None
}

/// Finds where the complete term that starts at `from` ends.
fn find_term_end(s: &Vec<char>, from: usize) -> (end: Option<usize>)
    requires
        from < s@.len(),
    ensures
        match end {
            Some(e) => from < e <= s@.len() && term_end(s@, from as int) == Some(e as int),
            None => term_end(s@, from as int) is None,
        },
{
    let mut at: usize = from;
    while at < s.len() && s[at] == 'a'
        invariant
            from <= at <= s@.len(),
            term_end(s@, from as int) == term_end(s@, at as int),
        decreases s@.len() - at,
    {
        at += 1;
    }
    if at >= s.len() {
        return None;
    }
    let c = s[at];
    if c == '(' || c == '{' {
        match find_group_end(s, at + 1) {
            Some(end) => {
                let closing = s[end - 1];
                if (c == '(' && closing == ')') || (c == '{' && closing == '}') {
                    Some(end)
                } else {
                    None
                }
            },
            None => None,
        }
    } else if c == ')' || c == '}' {
        None
    } else {
        Some(at + 1)
    }
}

/// A copy of the characters of `s` from `from` up to `to`.
fn copy_range(s: &Vec<char>, from: usize, to: usize) -> (out: Vec<char>)
    requires
        from <= to <= s@.len(),
    ensures
        out@ == s@.subrange(from as int, to as int),
{
    let mut out: Vec<char> = Vec::new();
    let mut at: usize = from;
    while at < to
        invariant
            from <= at <= to <= s@.len(),
            out@ == s@.subrange(from as int, at as int),
        decreases to - at,
    {
        out.push(s[at]);
        at += 1;
    }
    out
}

/// Splits a signature into its top-level terms in one scan from left to right, and gives
/// the span of each.
fn split_terms(s: &Vec<char>) -> (spans: Option<Vec<(usize, usize)>>)
    ensures
        match spans {
            Some(list) => top_level(s@) == Some(span_texts(s@, list@)) && spans_within(
                list@,
                s@.len() as int,
            ),
            None => top_level(s@) is None,
        },
{
    let mut spans: Vec<(usize, usize)> = Vec::new();
    let mut at: usize = 0;
    while at < s.len()
        invariant
            at <= s@.len(),
            spans_within(spans@, s@.len() as int),
            top_level(s@) == match terms_from(s@, at as int) {
                Some(rest) => Some(span_texts(s@, spans@) + rest),
                None => None,
            },
        decreases s@.len() - at,
    {
        match find_term_end(s, at) {
            Some(end) => {
                spans.push((at, end));
                at = end;
            },
            None => {
                return None;
            },
        }
    }
    Some(spans)
}

/// Whether two pieces, each cut from its own text, are the same.
fn same_piece(
    a: &Vec<char>,
    a_span: (usize, usize),
    b: &Vec<char>,
    b_span: (usize, usize),
) -> (same: bool)
    requires
        a_span.0 <= a_span.1 <= a@.len(),
        b_span.0 <= b_span.1 <= b@.len(),
    ensures
        same == (a@.subrange(a_span.0 as int, a_span.1 as int) == b@.subrange(
            b_span.0 as int,
            b_span.1 as int,
        )),
{
    let ghost left = a@.subrange(a_span.0 as int, a_span.1 as int);
    let ghost right = b@.subrange(b_span.0 as int, b_span.1 as int);
    let len: usize = a_span.1 - a_span.0;
    if b_span.1 - b_span.0 != len {
        assert(left.len() != right.len());
        return false;
    }
    let mut k: usize = 0;
    while k < len
        invariant
            a_span.0 + len == a_span.1 <= a@.len(),
            b_span.0 + len == b_span.1 <= b@.len(),
            k <= len,
            left == a@.subrange(a_span.0 as int, a_span.1 as int),
            right == b@.subrange(b_span.0 as int, b_span.1 as int),
            forall|j: int| 0 <= j < k ==> left[j] == right[j],
        decreases len - k,
    {
        if a[a_span.0 + k] != b[b_span.0 + k] {
            assert(left[k as int] != right[k as int]);
            return false;
        }
        k += 1;
    }
    assert(left =~= right);
    true
}

/// Whether two lists of pieces are the same, piece for piece.
fn same_pieces(
    a: &Vec<char>,
    a_spans: &Vec<(usize, usize)>,
    b: &Vec<char>,
    b_spans: &Vec<(usize, usize)>,
) -> (same: bool)
    requires
        spans_within(a_spans@, a@.len() as int),
        spans_within(b_spans@, b@.len() as int),
    ensures
        same == (span_texts(a@, a_spans@) == span_texts(b@, b_spans@)),
{
    let ghost left = span_texts(a@, a_spans@);
    let ghost right = span_texts(b@, b_spans@);
    if a_spans.len() != b_spans.len() {
        assert(left.len() != right.len());
        return false;
    }
    let mut k: usize = 0;
    while k < a_spans.len()
        invariant
            spans_within(a_spans@, a@.len() as int),
            spans_within(b_spans@, b@.len() as int),
            left == span_texts(a@, a_spans@),
            right == span_texts(b@, b_spans@),
            a_spans@.len() == b_spans@.len(),
            k <= a_spans@.len(),
            forall|j: int| 0 <= j < k ==> left[j] == right[j],
        decreases a_spans@.len() - k,
    {
        if !same_piece(a, a_spans[k], b, b_spans[k]) {
            assert(left[k as int] != right[k as int]);
            return false;
        }
        k += 1;
    }
    assert(left =~= right);
    true
}

/// Whether `outer` is a single struct whose members are the given pieces of `b`.
fn wraps_pieces(
    outer: &Vec<char>,
    outer_spans: &Vec<(usize, usize)>,
    b: &Vec<char>,
    b_spans: &Vec<(usize, usize)>,
) -> (wrapped: bool)
    requires
        spans_within(outer_spans@, outer@.len() as int),
        spans_within(b_spans@, b@.len() as int),
    ensures
        wrapped == ({
            let terms = span_texts(outer@, outer_spans@);
            &&& terms.len() == 1
            &&& terms[0].len() >= 2
            &&& terms[0][0] == '('
            &&& top_level(stripped(terms[0])) == Some(span_texts(b@, b_spans@))
        }),
{
    if outer_spans.len() != 1 {
        return false;
    }
    let (start, end) = outer_spans[0];
    let ghost term = outer@.subrange(start as int, end as int);
    if end - start < 2 || outer[start] != '(' {
        return false;
    }
    let inner = copy_range(outer, start + 1, end - 1);
    assert(inner@ =~= stripped(term));
    match split_terms(&inner) {
        Some(inner_spans) => same_pieces(&inner, &inner_spans, b, b_spans),
        None => false,
    }
}

/// Whether two signatures, given by their characters, denote the same shape.
pub fn equivalent_chars(a: &Vec<char>, b: &Vec<char>) -> (same: bool)
    ensures
        same == same_shape(a@, b@),
{
    if same_chars(a, b) {
        return true;
    }
    let a_spans = match split_terms(a) {
        Some(spans) => spans,
        None => {
            return false;
        },
    };
    let b_spans = match split_terms(b) {
        Some(spans) => spans,
        None => {
            return false;
        },
    };
    wraps_pieces(a, &a_spans, b, &b_spans) || wraps_pieces(b, &b_spans, a, &a_spans)
        || same_pieces(a, &a_spans, b, &b_spans)
}

/// Decides whether two signatures denote the same shape.
///
/// A message body is the bare run of its arguments' signatures, while a record that
/// models the body is a struct and wraps the same run in round brackets: `ii` and `(ii)`
/// are the same shape. Order, grouping and type codes must agree otherwise.
pub fn equivalent(a: &str, b: &str) -> (same: bool)
    ensures
        same == same_shape(a@, b@),
{
    let a_chars = chars_of(a);
    let b_chars = chars_of(b);
    equivalent_chars(&a_chars, &b_chars)
}

/// Two signatures that do not denote the same shape, both as they were given.
#[derive(Debug, PartialEq, Eq)]
pub struct SignatureMismatch {
    pub expected: String,
    pub found: String,
}

/// The report of a mismatch: a heading, then the expected signature behind `- ` and the
/// found one behind `+ `, each on a line of its own and neither of them altered.
pub open spec fn mismatch_message(expected: Seq<char>, found: Seq<char>) -> Seq<char> {
    "signatures are not equivalent\n- "@ + expected + "\n+ "@ + found
}

impl SignatureMismatch {
    /// The report of this mismatch.
    pub fn message(&self) -> (report: String)
        ensures
            report@ == mismatch_message(self.expected@, self.found@),
    {
        let mut report = "signatures are not equivalent\n- ".to_owned();
        report.append(self.expected.as_str());
        report.append("\n+ ");
        report.append(self.found.as_str());
        report
    }
}

/// Demands that two signatures denote the same shape, and reports both where they do not.
pub fn check_equivalent(expected: &str, found: &str) -> (outcome: Result<(), SignatureMismatch>)
    ensures
        outcome is Ok <==> same_shape(expected@, found@),
        outcome is Err ==> outcome->Err_0.expected@ == expected@ && outcome->Err_0.found@
            == found@,
{
    if equivalent(expected, found) {
        Ok(())
    } else {
        Err(SignatureMismatch { expected: expected.to_owned(), found: found.to_owned() })
    }
}

/// Which kind of term a piece of text is.
fn kind_at(s: &Vec<char>, span: (usize, usize)) -> (kind: TermKind)
    requires
        span.0 < span.1 <= s@.len(),
    ensures
        kind == kind_of(s@.subrange(span.0 as int, span.1 as int)),
{
    let c = s[span.0];
    if c == 'a' {
        TermKind::Array
    } else if c == '(' {
        TermKind::Struct
    } else if c == '{' {
        TermKind::DictEntry
    } else if c == 'v' {
        TermKind::Variant
    } else {
        TermKind::Basic
    }
}

/// Splits a signature into its top-level terms. `None` where the signature is not a
/// sequence of complete terms: a bracket without its partner, or an `a` with no element
/// type behind it.
pub fn top_level_terms(signature: &str) -> (terms: Option<Vec<Term>>)
    ensures
        match terms {
            Some(list) => {
                &&& top_level(signature@) == Some(term_texts(list@))
                &&& forall|k: int|
                    0 <= k < list@.len() ==> (#[trigger] list@[k]).kind == kind_of(list@[k].text@)
            },
            None => top_level(signature@) is None,
        },
{
    let chars = chars_of(signature);
    let spans = match split_terms(&chars) {
        Some(spans) => spans,
        None => {
            return None;
        },
    };
    let mut terms: Vec<Term> = Vec::new();
    let mut k: usize = 0;
    while k < spans.len()
        invariant
            chars@ == signature@,
            spans_within(spans@, chars@.len() as int),
            k <= spans@.len(),
            terms@.len() == k,
            forall|j: int|
                0 <= j < k ==> (#[trigger] terms@[j]).text@ == span_texts(chars@, spans@)[j],
            forall|j: int| 0 <= j < k ==> (#[trigger] terms@[j]).kind == kind_of(terms@[j].text@),
        decreases spans@.len() - k,
    {
        let span = spans[k];
        let text = signature.substring_char(span.0, span.1).to_owned();
        terms.push(Term { kind: kind_at(&chars, span), text });
        k += 1;
    }
    Some(terms)
}

} // verus!
