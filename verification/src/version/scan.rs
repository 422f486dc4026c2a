//! Finding a version in a text: the first place where three runs of decimal
//! digits stand, a dot between each two of them.

use vstd::prelude::*;

verus! {

/// Whether `c` is one of the decimal digits `0` to `9`.
pub open spec fn is_digit(c: char) -> bool {
    '0' <= c <= '9'
}

/// Where the longest run of digits that begins at `from` ends. The run is
/// empty, and the result `from`, where no digit stands at `from`.
pub open spec fn digits_end(text: Seq<char>, from: int) -> int
    decreases text.len() - from,
{
    if 0 <= from < text.len() && is_digit(text[from]) {
        digits_end(text, from + 1)
    } else {
        from
    }
}

/// Where a run of digits followed by a dot ends, the dot included, if such
/// a run begins at `from`.
pub open spec fn dotted_run_end(text: Seq<char>, from: int) -> Option<int> {
    let end = digits_end(text, from);
    if from < end < text.len() && text[end] == '.' {
        Some(end + 1)
    } else {
        None
    }
}

/// Where the version that begins at `start` ends: a run of digits, a dot, a
/// run of digits, a dot, and a run of digits, each run as long as it can be
/// and none empty. `None` where no version begins at `start`.
pub open spec fn version_end(text: Seq<char>, start: int) -> Option<int> {
    match dotted_run_end(text, start) {
        None => None,
        Some(minor) => match dotted_run_end(text, minor) {
            None => None,
            Some(patch) => {
                let end = digits_end(text, patch);
                if patch < end {
                    Some(end)
                } else {
                    None
                }
            },
        },
    }
}

/// Where the first version that begins at `from` or behind it begins and
/// ends.
pub open spec fn first_version_from(text: Seq<char>, from: int) -> Option<(int, int)>
    decreases text.len() - from,
{
    if from >= text.len() {
        None
    } else {
        match version_end(text, from) {
            Some(end) => Some((from, end)),
            None => first_version_from(text, from + 1),
        }
    }
}

/// Where the first version in `text` begins and ends.
pub open spec fn first_version(text: Seq<char>) -> Option<(int, int)> {
    first_version_from(text, 0)
}

/// The text of the first version in `text`.
pub open spec fn first_version_text(text: Seq<char>) -> Option<Seq<char>> {
    match first_version(text) {
        Some((start, end)) => Some(text.subrange(start, end)),
        None => None,
    }
}

/// What it is to be the place of the first version in `text`: `span` is
/// where a version begins and where it ends, and no version begins before
/// it; `None` says that no version begins anywhere.
pub open spec fn is_first_version(text: Seq<char>, span: Option<(int, int)>) -> bool {
    match span {
        Some((start, end)) => {
            &&& 0 <= start < end <= text.len()
            &&& version_end(text, start) == Some(end)
            &&& forall|s: int| 0 <= s < start ==> version_end(text, s) is None
        },
        None => forall|s: int| 0 <= s ==> version_end(text, s) is None,
    }
}

/// The run of digits that begins at `from` ends within the text, and holds
/// digits only.
pub proof fn lemma_digits_end(text: Seq<char>, from: int)
    requires
        0 <= from <= text.len(),
    ensures
        from <= digits_end(text, from) <= text.len(),
        forall|k: int| from <= k < digits_end(text, from) ==> is_digit(#[trigger] text[k]),
        digits_end(text, from) < text.len() ==> !is_digit(text[digits_end(text, from)]),
    decreases text.len() - from,
{
    if from < text.len() && is_digit(text[from]) {
        lemma_digits_end(text, from + 1);
    }
}

/// The first version that begins at `from` or behind it is a version, and no
/// version begins between `from` and it.
pub proof fn lemma_first_version_from(text: Seq<char>, from: int)
    requires
        0 <= from,
    ensures
        match first_version_from(text, from) {
            Some((start, end)) => {
                &&& from <= start < end <= text.len()
                &&& version_end(text, start) == Some(end)
                &&& forall|s: int| from <= s < start ==> version_end(text, s) is None
            },
            None => forall|s: int| from <= s ==> version_end(text, s) is None,
        },
    decreases text.len() - from,
{
    if from < text.len() {
        lemma_digits_end(text, from);
        match dotted_run_end(text, from) {
            Some(minor) => {
                lemma_digits_end(text, minor);
                match dotted_run_end(text, minor) {
                    Some(patch) => {
                        lemma_digits_end(text, patch);
                    },
                    None => {},
                }
            },
            None => {},
        }
        if version_end(text, from) is None {
            lemma_first_version_from(text, from + 1);
        }
    }
}

/// The first version in a text is the leftmost place where a version
/// begins.
pub proof fn lemma_first_version(text: Seq<char>)
    ensures
        is_first_version(text, first_version(text)),
{
    lemma_first_version_from(text, 0);
}

/// The text of a version is three runs of digits with a dot between each
/// two of them, and none of the runs is empty.
pub proof fn lemma_version_shape(text: Seq<char>, start: int)
    requires
        0 <= start,
        version_end(text, start) is Some,
    ensures
        ({
            let dot1 = digits_end(text, start);
            let dot2 = digits_end(text, dot1 + 1);
            let end = version_end(text, start).unwrap();
            &&& start < dot1 < dot1 + 1 < dot2 < dot2 + 1 < end <= text.len()
            &&& text[dot1] == '.'
            &&& text[dot2] == '.'
            &&& forall|k: int| start <= k < dot1 ==> is_digit(#[trigger] text[k])
            &&& forall|k: int| dot1 < k < dot2 ==> is_digit(#[trigger] text[k])
            &&& forall|k: int| dot2 < k < end ==> is_digit(#[trigger] text[k])
            &&& end < text.len() ==> !is_digit(text[end])
        }),
{
    let dot1 = digits_end(text, start);
    lemma_digits_end(text, start);
    let dot2 = digits_end(text, dot1 + 1);
    lemma_digits_end(text, dot1 + 1);
    lemma_digits_end(text, dot2 + 1);
}

/// Whether `c` is one of the decimal digits `0` to `9`.
pub fn digit(c: char) -> (r: bool)
    ensures
        r == is_digit(c),
{
    '0' <= c && c <= '9'
}

/// Where the longest run of digits that begins at `from` ends.
fn scan_digits(text: &[char], from: usize) -> (end: usize)
    requires
        from <= text@.len(),
    ensures
        end == digits_end(text@, from as int),
        from <= end <= text@.len(),
{
    let mut i: usize = from;
    while i < text.len() && digit(text[i])
        invariant
            from <= i <= text@.len(),
            digits_end(text@, from as int) == digits_end(text@, i as int),
        decreases text.len() - i,
    {
        i = i + 1;
    }
    i
}

/// Where a run of digits followed by a dot ends, if one begins at `from`.
fn scan_dotted_run(text: &[char], from: usize) -> (r: Option<usize>)
    requires
        from <= text@.len(),
    ensures
        match r {
            Some(end) => dotted_run_end(text@, from as int) == Some(end as int) && from < end
                <= text@.len(),
            None => dotted_run_end(text@, from as int) is None,
        },
{
    let end = scan_digits(text, from);
    if from < end && end < text.len() && text[end] == '.' {
        Some(end + 1)
    } else {
        None
    }
}

/// Where the version that begins at `start` ends, if one begins there.
fn scan_version(text: &[char], start: usize) -> (r: Option<usize>)
    requires
        start <= text@.len(),
    ensures
        match r {
            Some(end) => version_end(text@, start as int) == Some(end as int) && start < end
                <= text@.len(),
            None => version_end(text@, start as int) is None,
        },
{
    match scan_dotted_run(text, start) {
        None => None,
        Some(minor) => match scan_dotted_run(text, minor) {
            None => None,
            Some(patch) => {
                let end = scan_digits(text, patch);
                if patch < end {
                    Some(end)
                } else {
                    None
                }
            },
        },
    }
}

/// Where the first version in `text` begins and ends.
pub fn find_version(text: &[char]) -> (r: Option<(usize, usize)>)
    ensures
        first_version(text@) == match r {
            Some((start, end)) => Some((start as int, end as int)),
            None => None::<(int, int)>,
        },
        r matches Some((start, end)) ==> start < end <= text@.len(),
{
    let mut start: usize = 0;
    while start < text.len()
        invariant
            start <= text@.len(),
            first_version(text@) == first_version_from(text@, start as int),
        decreases text.len() - start,
    {
        match scan_version(text, start) {
            Some(end) => {
                return Some((start, end));
            },
            None => {},
        }
        start = start + 1;
    }
    None
}

} // verus!
