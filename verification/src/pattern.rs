//! Patterns that are looked for in a byte buffer: an exact byte string or a
//! regular expression. Both come with "occurs exactly once" and "replace the
//! sole occurrence" operations, which refuse to act on an ambiguous buffer.

use crate::search::{
    find_pattern_iter, first_occurrence, is_first_occurrence, lemma_first_occurrence_unique,
    no_occurrence_from, occurs_at, occurs_once, splice,
};
use regex::Regex;
use vstd::prelude::*;
use vstd::string::StringSliceAdditionalSpecFns;
use vstd::utf8::{decode_utf8, valid_utf8};

verus! {

/// A compiled regular expression of the `regex` crate. Nothing inside it is
/// visible to the proofs.
#[verifier::external_type_specification]
#[verifier::external_body]
pub struct ExRegex(Regex);

/// `Regex::clone` copies a compiled regular expression. Nothing is said of
/// the copy.
pub assume_specification[ <regex::Regex as Clone>::clone ](re: &regex::Regex) -> (copy:
    regex::Regex);

/// A regular expression: the text it was written as, and what the `regex`
/// crate compiled from that text. It is made by compiling only, so the two
/// always belong together.
#[derive(Clone)]
pub struct RegexPattern {
    source: String,
    compiled: Regex,
}

impl View for RegexPattern {
    type V = Seq<char>;

    /// The text of the regular expression.
    closed spec fn view(&self) -> Seq<char> {
        self.source@
    }
}

impl RegexPattern {
    /// The text of the regular expression.
    pub fn source(&self) -> (s: &str)
        ensures
            s@ == self@,
    {
        self.source.as_str()
    }
}

/// Whether `Regex::new` accepts `source`.
pub uninterp spec fn regex_compiles(source: Seq<char>) -> bool;

/// The matches that `Regex::find_iter` yields in `haystack` for the regular
/// expression written as `source`, in order, each as the byte offsets of
/// its start and of its end.
pub uninterp spec fn regex_spans(source: Seq<char>, haystack: Seq<char>) -> Seq<(int, int)>;

/// Offsets held in machine integers, read as mathematical ones.
pub open spec fn spans_view(spans: Seq<(usize, usize)>) -> Seq<(int, int)> {
    Seq::new(spans.len(), |i: int| (spans[i].0 as int, spans[i].1 as int))
}

/// Every span lies inside a text of `size` bytes, start before end.
pub open spec fn spans_within(spans: Seq<(usize, usize)>, size: int) -> bool {
    forall|i: int| 0 <= i < spans.len() ==> (#[trigger] spans[i]).0 <= spans[i].1 <= size
}

/// Calls `Regex::new`. The result is there exactly for the texts that the
/// crate accepts, and it keeps the text beside what was compiled from it.
#[verifier::external_body]
fn compile(source: &str) -> (r: Option<RegexPattern>)
    ensures
        r.is_some() == regex_compiles(source@),
        r matches Some(re) ==> re@ == source@,
{
    match Regex::new(source) {
        Ok(compiled) => Some(RegexPattern { source: source.to_owned(), compiled }),
        Err(_) => None,
    }
}

/// Calls `Regex::find_iter` and collects the offsets of every match. The
/// crate documents the matches as successive and non-overlapping, and each
/// offset pair as `start <= end`, safe for slicing the haystack.
#[verifier::external_body]
fn find_spans(re: &RegexPattern, haystack: &str) -> (spans: Vec<(usize, usize)>)
    ensures
        spans_view(spans@) == regex_spans(re@, haystack@),
        spans_within(spans@, haystack.spec_bytes().len() as int),
{
    re.compiled.find_iter(haystack).map(|m| (m.start(), m.end())).collect()
}

/// Calls `Regex::is_match`, which the crate documents as true if and only
/// if there is a match anywhere in the haystack.
#[verifier::external_body]
fn has_match(re: &RegexPattern, haystack: &str) -> (b: bool)
    ensures
        b == (regex_spans(re@, haystack@).len() > 0),
{
    re.compiled.is_match(haystack)
}

/// Calls `core::str::from_utf8`: the text is there exactly for valid UTF-8,
/// and it is the same bytes read as characters.
#[verifier::external_body]
pub(crate) fn utf8_text(bytes: &[u8]) -> (r: Option<&str>)
    ensures
        r.is_some() == valid_utf8(bytes@),
        r matches Some(s) ==> s.spec_bytes() == bytes@ && s@ == decode_utf8(bytes@),
{
    core::str::from_utf8(bytes).ok()
}

/// Copies `data` with the bytes from `at` up to `end` replaced by
/// `replacement`.
pub fn splice_bytes(data: &[u8], at: usize, end: usize, replacement: &[u8]) -> (out: Vec<u8>)
    requires
        at <= end <= data@.len(),
    ensures
        out@ == splice(data@, at as int, end - at, replacement@),
{
    let mut out: Vec<u8> = Vec::new();
    let size: usize = data.len();
    let width: usize = replacement.len();
    let mut i: usize = 0;
    while i < at
        invariant
            i <= at <= end <= size,
            size == data@.len(),
            out@ == data@.subrange(0, i as int),
        decreases at - i,
    {
        out.push(data[i]);
        i = i + 1;
        assert(out@ =~= data@.subrange(0, i as int));
    }
    let mut k: usize = 0;
    while k < width
        invariant
            k <= width,
            width == replacement@.len(),
            out@ == data@.subrange(0, at as int) + replacement@.subrange(0, k as int),
        decreases width - k,
    {
        out.push(replacement[k]);
        k = k + 1;
        assert(out@ =~= data@.subrange(0, at as int) + replacement@.subrange(0, k as int));
    }
    assert(replacement@.subrange(0, width as int) =~= replacement@);
    let mut j: usize = end;
    while j < size
        invariant
            end <= j <= size,
            size == data@.len(),
            out@ == data@.subrange(0, at as int) + replacement@ + data@.subrange(
                end as int,
                j as int,
            ),
        decreases size - j,
    {
        out.push(data[j]);
        j = j + 1;
        assert(out@ =~= data@.subrange(0, at as int) + replacement@ + data@.subrange(
            end as int,
            j as int,
        ));
    }
    out
}

/// What is looked for in a buffer.
#[derive(Clone)]
pub enum Pattern {
    /// An exact byte string.
    Bin(Vec<u8>),
    /// A regular expression, matched against the buffer read as UTF-8 text.
    Regex(RegexPattern),
}

/// Whether exactly one match was found.
pub open spec fn sole_span(spans: Seq<(int, int)>) -> bool {
    spans.len() == 1
}

/// The outcome of replacing the sole match among `spans` in `data`: the
/// bytes before the match, the replacement, the bytes after the match; or
/// nothing where the match is missing or not the only one.
pub open spec fn replace_sole_span(
    data: Seq<u8>,
    spans: Seq<(int, int)>,
    replacement: Seq<u8>,
) -> Option<Seq<u8>> {
    if sole_span(spans) {
        Some(splice(data, spans[0].0, spans[0].1 - spans[0].0, replacement))
    } else {
        None
    }
}

/// Replaces the sole match among `spans` in `data` by `replacement`, and
/// refuses when there is no match or more than one.
pub fn replace_span_once(data: &[u8], spans: &Vec<(usize, usize)>, replacement: &[u8]) -> (r:
    Option<Vec<u8>>)
    requires
        spans_within(spans@, data@.len() as int),
    ensures
        r.is_some() == replace_sole_span(data@, spans_view(spans@), replacement@).is_some(),
        r matches Some(out) ==> Some(out@) == replace_sole_span(
            data@,
            spans_view(spans@),
            replacement@,
        ),
{
    if spans.len() == 1 {
        let span = spans[0];
        Some(splice_bytes(data, span.0, span.1, replacement))
    } else {
        None
    }
}

impl Pattern {
    /// What `contains_once` answers for `data`.
    pub open spec fn spec_contains_once(&self, data: Seq<u8>) -> Option<bool> {
        match self {
            Pattern::Bin(b) => Some(occurs_once(data, b@)),
            Pattern::Regex(r) => if valid_utf8(data) {
                Some(sole_span(regex_spans(r@, decode_utf8(data))))
            } else {
                None
            },
        }
    }

    /// What `contains` answers for `data`.
    pub open spec fn spec_contains(&self, data: Seq<u8>) -> Option<bool> {
        match self {
            Pattern::Bin(b) => Some(exists|at: int| occurs_at(data, b@, at)),
            Pattern::Regex(r) => if valid_utf8(data) {
                Some(regex_spans(r@, decode_utf8(data)).len() > 0)
            } else {
                None
            },
        }
    }

    /// What `replace_once` hands out for `data`.
    pub open spec fn spec_replace_once(&self, data: Seq<u8>, replacement: Seq<u8>) -> Option<
        Seq<u8>,
    > {
        match self {
            Pattern::Bin(b) => if occurs_once(data, b@) {
                Some(splice(data, first_occurrence(data, b@), b@.len() as int, replacement))
            } else {
                None
            },
            Pattern::Regex(r) => if valid_utf8(data) {
                replace_sole_span(data, regex_spans(r@, decode_utf8(data)), replacement)
            } else {
                None
            },
        }
    }

    /// Whether the pattern occurs in `data` exactly once, without overlap.
    ///
    /// A regular expression is matched against `data` read as UTF-8; for
    /// bytes that are no valid UTF-8 there is no answer.
    pub fn contains_once(&self, data: &[u8]) -> (r: Option<bool>)
        ensures
            r == self.spec_contains_once(data@),
    {
        match self {
            Pattern::Bin(b) => Some(crate::search::contains_once(data, b.as_slice())),
            Pattern::Regex(re) => {
                match utf8_text(data) {
                    Some(text) => {
                        let spans = find_spans(re, text);
                        assert(spans_view(spans@).len() == spans@.len());
                        Some(spans.len() == 1)
                    },
                    None => None,
                }
            },
        }
    }

    /// Whether the pattern occurs anywhere in `data`.
    ///
    /// A regular expression is matched against `data` read as UTF-8; for
    /// bytes that are no valid UTF-8 there is no answer.
    pub fn contains(&self, data: &[u8]) -> (r: Option<bool>)
        ensures
            r == self.spec_contains(data@),
    {
        match self {
            Pattern::Bin(b) => Some(crate::search::contains(data, b.as_slice())),
            Pattern::Regex(re) => {
                match utf8_text(data) {
                    Some(text) => Some(has_match(re, text)),
                    None => None,
                }
            },
        }
    }

    /// Replaces the sole occurrence of the pattern in `data` by
    /// `replacement`.
    ///
    /// Where the pattern is absent, or present more than once, nothing is
    /// handed out: an ambiguous replacement is never attempted. `data`
    /// itself is never changed.
    pub fn replace_once(&self, data: &[u8], replacement: &[u8]) -> (r: Option<Vec<u8>>)
        ensures
            r.is_some() == self.spec_replace_once(data@, replacement@).is_some(),
            r matches Some(out) ==> Some(out@) == self.spec_replace_once(data@, replacement@),
    {
        match self {
            Pattern::Bin(p) => {
                let mut it = find_pattern_iter(data, p.as_slice());
                let first = it.next();
                let second = it.next();
                match (first, second) {
                    (Some(start), None) => {
                        proof {
                            lemma_sole_occurrence(data@, p@, start as int);
                        }
                        let size: usize = data.len();
                        assert(start + p@.len() <= size);
                        Some(splice_bytes(data, start, start + p.len(), replacement))
                    },
                    (Some(start), Some(_)) => {
                        proof {
                            lemma_second_occurrence(data@, p@, start as int);
                        }
                        None
                    },
                    (None, _) => None,
                }
            },
            Pattern::Regex(re) => {
                match utf8_text(data) {
                    Some(text) => {
                        let spans = find_spans(re, text);
                        replace_span_once(data, &spans, replacement)
                    },
                    None => None,
                }
            },
        }
    }
}

/// A leftmost occurrence with nothing behind it is the sole occurrence, and
/// it is the one that `first_occurrence` names.
pub proof fn lemma_sole_occurrence(data: Seq<u8>, pattern: Seq<u8>, at: int)
    requires
        is_first_occurrence(data, pattern, 0, at),
        no_occurrence_from(data, pattern, at + pattern.len()),
    ensures
        occurs_once(data, pattern),
        first_occurrence(data, pattern) == at,
{
    let chosen = first_occurrence(data, pattern);
    lemma_first_occurrence_unique(data, pattern, 0, at, chosen);
}

/// Where an occurrence starts at or behind the end of the leftmost one, the
/// pattern does not occur exactly once.
pub proof fn lemma_second_occurrence(data: Seq<u8>, pattern: Seq<u8>, at: int)
    requires
        is_first_occurrence(data, pattern, 0, at),
        !no_occurrence_from(data, pattern, at + pattern.len()),
    ensures
        !occurs_once(data, pattern),
{
    assert forall|other: int| is_first_occurrence(data, pattern, 0, other) implies
        !no_occurrence_from(data, pattern, other + pattern.len()) by {
        lemma_first_occurrence_unique(data, pattern, 0, at, other);
    }
}

/// A pattern that stands twice in the data, the second time behind the end
/// of the first, is not replaced: nothing is handed out, whatever the
/// replacement.
pub proof fn lemma_twice_is_refused(
    pattern: Pattern,
    data: Seq<u8>,
    replacement: Seq<u8>,
    a: int,
    b: int,
)
    requires
        pattern is Bin,
        occurs_at(data, pattern->Bin_0@, a),
        occurs_at(data, pattern->Bin_0@, b),
        a + pattern->Bin_0@.len() <= b,
    ensures
        pattern.spec_replace_once(data, replacement) is None,
        pattern.spec_contains_once(data) == Some(false),
{
    let bytes = pattern->Bin_0@;
    let first = lemma_leftmost_exists(data, bytes, a);
    assert(first + bytes.len() <= b);
    lemma_second_occurrence(data, bytes, first);
}

/// Several matches of a regular expression, or none, are not replaced:
/// nothing is handed out, whatever the replacement.
pub proof fn lemma_ambiguous_match_is_refused(
    pattern: Pattern,
    data: Seq<u8>,
    replacement: Seq<u8>,
)
    requires
        pattern matches Pattern::Regex(re) && regex_spans(re@, decode_utf8(data)).len() != 1,
    ensures
        pattern.spec_replace_once(data, replacement) is None,
{
}

/// The sole occurrence is replaced exactly where the pattern is known to
/// occur once.
pub proof fn lemma_replaced_iff_once(pattern: Pattern, data: Seq<u8>, replacement: Seq<u8>)
    ensures
        pattern.spec_replace_once(data, replacement).is_some() == (pattern.spec_contains_once(
            data,
        ) == Some(true)),
{
}

/// Where a pattern stands at `at`, it has a leftmost occurrence, at `at`
/// or before it.
pub proof fn lemma_leftmost_exists(data: Seq<u8>, pattern: Seq<u8>, at: int) -> (first: int)
    requires
        occurs_at(data, pattern, at),
    ensures
        is_first_occurrence(data, pattern, 0, first),
        first <= at,
    decreases at,
{
    if exists|j: int| 0 <= j < at && occurs_at(data, pattern, j) {
        let j = choose|j: int| 0 <= j < at && occurs_at(data, pattern, j);
        lemma_leftmost_exists(data, pattern, j)
    } else {
        at
    }
}

/// Whether `source` is a regular expression that can be compiled.
pub fn is_regex(source: &str) -> (b: bool)
    ensures
        b == regex_compiles(source@),
{
    compile(source).is_some()
}

/// Compiles `source` into a regular-expression pattern.
pub fn re(source: &str) -> (p: Pattern)
    requires
        regex_compiles(source@),
    ensures
        p matches Pattern::Regex(compiled) && compiled@ == source@,
{
    match compile(source) {
        Some(compiled) => Pattern::Regex(compiled),
        None => vstd::pervasive::unreached(),
    }
}

/// Compiles `source` into a regular-expression pattern, or hands out
/// nothing where `source` is no regular expression.
pub fn try_re(source: &str) -> (p: Option<Pattern>)
    ensures
        p.is_some() == regex_compiles(source@),
        p matches Some(pattern) ==> pattern matches Pattern::Regex(compiled) && compiled@
            == source@,
{
    if is_regex(source) {
        Some(re(source))
    } else {
        None
    }
}

/// An exact byte pattern.
pub fn bin(bytes: &[u8]) -> (p: Pattern)
    ensures
        p == Pattern::Bin(p->Bin_0),
        p->Bin_0@ == bytes@,
        p is Bin,
{
    Pattern::Bin(vstd::slice::slice_to_vec(bytes))
}

} // verus!
