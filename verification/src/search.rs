//! Exact byte-pattern search with "occurs exactly once" semantics.
//!
//! Occurrences are counted without overlap: after an occurrence is found the
//! search resumes right behind its last byte. An empty pattern occurs at
//! every position, so it never occurs exactly once.

use vstd::prelude::*;

verus! {

/// `pattern` stands in `data` at position `at`.
pub open spec fn occurs_at(data: Seq<u8>, pattern: Seq<u8>, at: int) -> bool {
    &&& 0 <= at
    &&& at + pattern.len() <= data.len()
    &&& data.subrange(at, at + pattern.len()) == pattern
}

/// `pattern` does not stand in `data` at any position from `from` on.
pub open spec fn no_occurrence_from(data: Seq<u8>, pattern: Seq<u8>, from: int) -> bool {
    forall|j: int| from <= j ==> !occurs_at(data, pattern, j)
}

/// `at` is the leftmost position, not before `from`, at which `pattern`
/// stands in `data`.
pub open spec fn is_first_occurrence(data: Seq<u8>, pattern: Seq<u8>, from: int, at: int) -> bool {
    &&& from <= at
    &&& occurs_at(data, pattern, at)
    &&& forall|j: int| from <= j < at ==> !occurs_at(data, pattern, j)
}

/// `pattern` occurs in `data` exactly once when occurrences are consumed
/// left to right without overlap: there is a leftmost occurrence, and no
/// occurrence starts at or behind its end.
pub open spec fn occurs_once(data: Seq<u8>, pattern: Seq<u8>) -> bool {
    exists|at: int|
        is_first_occurrence(data, pattern, 0, at) && no_occurrence_from(
            data,
            pattern,
            at + pattern.len(),
        )
}

/// The position of the leftmost occurrence of `pattern` in `data`; only
/// meaningful where there is one.
pub open spec fn first_occurrence(data: Seq<u8>, pattern: Seq<u8>) -> int {
    choose|at: int| is_first_occurrence(data, pattern, 0, at)
}

/// `data` with the `len` bytes at `at` replaced by `replacement`.
pub open spec fn splice(data: Seq<u8>, at: int, len: int, replacement: Seq<u8>) -> Seq<u8> {
    data.subrange(0, at) + replacement + data.subrange(at + len, data.len() as int)
}

/// Two leftmost occurrences counted from the same position coincide.
pub proof fn lemma_first_occurrence_unique(
    data: Seq<u8>,
    pattern: Seq<u8>,
    from: int,
    a: int,
    b: int,
)
    requires
        is_first_occurrence(data, pattern, from, a),
        is_first_occurrence(data, pattern, from, b),
    ensures
        a == b,
{
    if a < b {
        assert(!occurs_at(data, pattern, a));
    } else if b < a {
        assert(!occurs_at(data, pattern, b));
    }
}

/// A pattern that occurs exactly once occurs.
pub proof fn lemma_once_occurs(data: Seq<u8>, pattern: Seq<u8>)
    requires
        occurs_once(data, pattern),
    ensures
        exists|at: int| occurs_at(data, pattern, at),
        occurs_at(data, pattern, first_occurrence(data, pattern)),
        pattern.len() > 0,
{
    let at = choose|at: int|
        is_first_occurrence(data, pattern, 0, at) && no_occurrence_from(
            data,
            pattern,
            at + pattern.len(),
        );
    assert(occurs_at(data, pattern, at));
    if pattern.len() == 0 {
        lemma_empty_pattern_never_once(data, pattern);
    }
}

/// Replacing an occurrence changes the length of the data by the
/// difference between the lengths of replacement and pattern, keeps what
/// stands before the occurrence, and puts the replacement in its place.
pub proof fn lemma_splice_shape(data: Seq<u8>, pattern: Seq<u8>, at: int, replacement: Seq<u8>)
    requires
        occurs_at(data, pattern, at),
    ensures
        splice(data, at, pattern.len() as int, replacement).len() == data.len() - pattern.len()
            + replacement.len(),
        splice(data, at, pattern.len() as int, replacement).subrange(0, at) == data.subrange(
            0,
            at,
        ),
        occurs_at(splice(data, at, pattern.len() as int, replacement), replacement, at),
        splice(data, at, pattern.len() as int, pattern) == data,
{
    let out = splice(data, at, pattern.len() as int, replacement);
    assert(out.subrange(0, at) =~= data.subrange(0, at));
    assert(out.subrange(at, at + replacement.len()) =~= replacement);
    assert(splice(data, at, pattern.len() as int, pattern) =~= data) by {
        let same = splice(data, at, pattern.len() as int, pattern);
        assert(same.len() == data.len());
        assert forall|i: int| 0 <= i < data.len() implies same[i] == data[i] by {
            if at <= i < at + pattern.len() {
                assert(data.subrange(at, at + pattern.len())[i - at] == pattern[i - at]);
            }
        }
    }
}

/// An empty pattern stands at every position of every buffer, so it never
/// occurs exactly once.
pub proof fn lemma_empty_pattern_never_once(data: Seq<u8>, pattern: Seq<u8>)
    requires
        pattern.len() == 0,
    ensures
        occurs_at(data, pattern, 0),
        !occurs_once(data, pattern),
{
    assert(data.subrange(0, 0) =~= pattern);
    assert forall|at: int| is_first_occurrence(data, pattern, 0, at) implies !no_occurrence_from(
        data,
        pattern,
        at + pattern.len(),
    ) by {
        assert(occurs_at(data, pattern, at));
    }
}

/// Whether `pattern` stands in `data` at `at`.
fn matches_at(data: &[u8], pattern: &[u8], at: usize) -> (b: bool)
    requires
        at + pattern@.len() <= data@.len(),
    ensures
        b == occurs_at(data@, pattern@, at as int),
{
    let size: usize = data.len();
    let width: usize = pattern.len();
    let mut k: usize = 0;
    while k < width
        invariant
            k <= width,
            width == pattern@.len(),
            size == data@.len(),
            at + width <= size,
            forall|j: int| 0 <= j < k ==> data@[at + j] == pattern@[j],
        decreases width - k,
    {
        if data[at + k] != pattern[k] {
            proof {
                let window = data@.subrange(at as int, at + pattern@.len());
                assert(window[k as int] == data@[at + k]);
            }
            return false;
        }
        k = k + 1;
    }
    assert(data@.subrange(at as int, at + pattern@.len()) =~= pattern@);
    true
}

/// The leftmost occurrence of `pattern` in `data` that starts at `from` or
/// later.
fn find_pattern_from(data: &[u8], pattern: &[u8], from: usize) -> (r: Option<usize>)
    requires
        from <= data@.len(),
    ensures
        match r {
            Some(at) => is_first_occurrence(data@, pattern@, from as int, at as int),
            None => no_occurrence_from(data@, pattern@, from as int),
        },
{
    if pattern.len() > data.len() || from > data.len() - pattern.len() {
        return None;
    }
    let last: usize = data.len() - pattern.len();
    let mut at: usize = from;
    while at < last
        invariant
            from <= at <= last,
            last == data@.len() - pattern@.len(),
            forall|j: int| from <= j < at ==> !occurs_at(data@, pattern@, j),
        decreases last - at,
    {
        if matches_at(data, pattern, at) {
            return Some(at);
        }
        at = at + 1;
    }
    if matches_at(data, pattern, last) {
        Some(last)
    } else {
        None
    }
}

/// Finds the leftmost occurrence of `pattern` in `data`.
///
/// An empty pattern is found at position 0 of any buffer, the empty one
/// included.
pub fn find_pattern(data: &[u8], pattern: &[u8]) -> (r: Option<usize>)
    ensures
        match r {
            Some(at) => is_first_occurrence(data@, pattern@, 0, at as int),
            None => no_occurrence_from(data@, pattern@, 0),
        },
        pattern@.len() == 0 ==> r == Some(0usize),
{
    let r = find_pattern_from(data, pattern, 0);
    proof {
        if pattern@.len() == 0 {
            lemma_empty_pattern_never_once(data@, pattern@);
        }
    }
    r
}

/// Whether `pattern` occurs anywhere in `data`.
pub fn contains(data: &[u8], pattern: &[u8]) -> (b: bool)
    ensures
        b == exists|at: int| occurs_at(data@, pattern@, at),
{
    let r = find_pattern(data, pattern);
    proof {
        if let Some(at) = r {
            assert(occurs_at(data@, pattern@, at as int));
        }
    }
    r.is_some()
}

/// Whether `pattern` occurs in `data` exactly once, without overlap: `aa`
/// occurs once in `aaa`. An empty pattern never occurs exactly once.
pub fn contains_once(data: &[u8], pattern: &[u8]) -> (b: bool)
    ensures
        b == occurs_once(data@, pattern@),
{
    let mut it = find_pattern_iter(data, pattern);
    let first = it.next();
    let second = it.next();
    match (first, second) {
        (Some(at), None) => {
            assert(is_first_occurrence(data@, pattern@, 0, at as int));
            true
        },
        (Some(at), Some(_)) => {
            proof {
                assert forall|other: int|
                    is_first_occurrence(
                        data@,
                        pattern@,
                        0,
                        other,
                    ) implies !no_occurrence_from(data@, pattern@, other + pattern@.len()) by {
                    lemma_first_occurrence_unique(data@, pattern@, 0, at as int, other);
                }
            }
            false
        },
        (None, _) => false,
    }
}

/// Walks the occurrences of a pattern in a buffer from left to right,
/// without overlap.
pub struct FindPatternIter<'a> {
    data: &'a [u8],
    pattern: &'a [u8],
    cursor: usize,
}

impl<'a> FindPatternIter<'a> {
    /// The buffer that is searched.
    pub closed spec fn data(&self) -> Seq<u8> {
        self.data@
    }

    /// The pattern that is searched for.
    pub closed spec fn pattern(&self) -> Seq<u8> {
        self.pattern@
    }

    /// The position at which the next search starts.
    pub closed spec fn cursor(&self) -> int {
        self.cursor as int
    }

    /// The cursor never leaves the buffer.
    pub closed spec fn wf(&self) -> bool {
        self.cursor <= self.data@.len()
    }

    /// Starts a walk at the beginning of `data`.
    pub fn new(data: &'a [u8], pattern: &'a [u8]) -> (it: Self)
        ensures
            it.wf(),
            it.data() == data@,
            it.pattern() == pattern@,
            it.cursor() == 0,
    {
        Self { data, pattern, cursor: 0 }
    }

    /// Hands out the next occurrence: the leftmost one that starts at the
    /// cursor or later. The cursor then moves right behind it. Without such
    /// an occurrence nothing changes.
    pub fn next(&mut self) -> (r: Option<usize>)
        requires
            old(self).wf(),
        ensures
            final(self).wf(),
            final(self).data() == old(self).data(),
            final(self).pattern() == old(self).pattern(),
            match r {
                Some(at) => {
                    &&& is_first_occurrence(
                        old(self).data(),
                        old(self).pattern(),
                        old(self).cursor(),
                        at as int,
                    )
                    &&& final(self).cursor() == at + old(self).pattern().len()
                },
                None => {
                    &&& no_occurrence_from(
                        old(self).data(),
                        old(self).pattern(),
                        old(self).cursor(),
                    )
                    &&& final(self).cursor() == old(self).cursor()
                },
            },
    {
        let size: usize = self.data.len();
        match find_pattern_from(self.data, self.pattern, self.cursor) {
            Some(at) => {
                assert(at + self.pattern@.len() <= size);
                self.cursor = at + self.pattern.len();
                Some(at)
            },
            None => None,
        }
    }
}

/// Starts a walk over the occurrences of `pattern` in `data`.
pub fn find_pattern_iter<'a>(data: &'a [u8], pattern: &'a [u8]) -> (it: FindPatternIter<'a>)
    ensures
        it.wf(),
        it.data() == data@,
        it.pattern() == pattern@,
        it.cursor() == 0,
{
    FindPatternIter::new(data, pattern)
}

} // verus!
