//! Assembly of the device program's source text: a user-supplied iteration
//! function is spliced into a fixed template between two marker tokens.
use vstd::prelude::*;

verus! {

/// The token that opens the replaceable span of the function template.
pub const OPEN_MARKER: &'static str = "//>>";

/// The token that closes the replaceable span of the function template.
pub const CLOSE_MARKER: &'static str = "//<<";

pub open spec fn open_marker() -> Seq<char> {
    seq!['/', '/', '>', '>']
}

pub open spec fn close_marker() -> Seq<char> {
    seq!['/', '/', '<', '<']
}

/// `m` occurs in `s` starting at `i`.
pub open spec fn occurs_at(s: Seq<char>, m: Seq<char>, i: int) -> bool {
    0 <= i && i + m.len() <= s.len() && s.subrange(i, i + m.len()) == m
}

/// The first index at or after `from` where `m` occurs in `s`, if any.
pub open spec fn find_from(s: Seq<char>, m: Seq<char>, from: int) -> Option<int>
    decreases s.len() - from,
{
    if from < 0 || from >= s.len() || from + m.len() > s.len() {
        None
    } else if occurs_at(s, m, from) {
        Some(from)
    } else {
        find_from(s, m, from + 1)
    }
}

/// The text of `s` from `from` up to the next occurrence of `m`, or up to
/// the end where none follows.
pub open spec fn piece_from(s: Seq<char>, m: Seq<char>, from: int) -> Seq<char> {
    match find_from(s, m, from) {
        Some(k) => s.subrange(from, k),
        None => s.subrange(from, s.len() as int),
    }
}

/// What precedes the first occurrence of `m` in `s` (all of `s` where `m`
/// does not occur): the first piece of `s` split at `m`.
pub open spec fn first_piece(s: Seq<char>, m: Seq<char>) -> Seq<char> {
    piece_from(s, m, 0)
}

/// The second piece of `s` split at `m`: what lies between its first and
/// its second occurrence (or the end). `None` where `m` does not occur.
pub open spec fn second_piece(s: Seq<char>, m: Seq<char>) -> Option<Seq<char>> {
    match find_from(s, m, 0) {
        Some(k) => Some(piece_from(s, m, k + m.len())),
        None => None,
    }
}

/// The template with the span between its opening and closing marker
/// replaced by `custom`: the text before the opening marker, then `custom`,
/// then the text after the closing marker that follows it. A further
/// marker ends the kept text. `None` where the markers are missing.
pub open spec fn spliced(template: Seq<char>, custom: Seq<char>) -> Option<Seq<char>> {
    match second_piece(template, open_marker()) {
        Some(rest) => match second_piece(rest, close_marker()) {
            Some(tail) => Some(first_piece(template, open_marker()) + custom + tail),
            None => None,
        },
        None => None,
    }
}

proof fn lemma_find_from_bounds(s: Seq<char>, m: Seq<char>, from: int)
    requires
        m.len() > 0,
        from >= 0,
    ensures
        find_from(s, m, from) matches Some(k) ==> from <= k && occurs_at(s, m, k),
        find_from(s, m, from) is None ==> forall|j: int| from <= j ==> !occurs_at(s, m, j),
    decreases s.len() - from,
{
    if from < 0 || from >= s.len() || from + m.len() > s.len() {
    } else if occurs_at(s, m, from) {
    } else {
        lemma_find_from_bounds(s, m, from + 1);
    }
}

/// `m` occurs in `s` at `i`, compared character by character.
fn matches_at(s: &str, s_len: usize, m: &str, m_len: usize, i: usize) -> (r: bool)
    requires
        s_len == s@.len(),
        m_len == m@.len(),
        i + m_len <= s_len,
    ensures
        r == occurs_at(s@, m@, i as int),
{
    let mut k: usize = 0;
    while k < m_len
        invariant
            s_len == s@.len(),
            m_len == m@.len(),
            i + m_len <= s_len,
            k <= m_len,
            forall|j: int| 0 <= j < k ==> s@[i + j] == m@[j],
        decreases m_len - k,
    {
        if s.get_char(i + k) != m.get_char(k) {
            assert(s@.subrange(i as int, i + m_len)[k as int] != m@[k as int]);
            return false;
        }
        k = k + 1;
    }
    assert(s@.subrange(i as int, i + m_len) =~= m@);
    true
}

/// The first index at or after `from` where `m` occurs in `s`.
fn find_marker(s: &str, m: &str, from: usize) -> (r: Option<usize>)
    requires
        m@.len() > 0,
    ensures
        r matches Some(k) ==> find_from(s@, m@, from as int) == Some(k as int),
        r is None ==> find_from(s@, m@, from as int) is None,
{
    let s_len = s.unicode_len();
    let m_len = m.unicode_len();
    let mut i = from;
    if i > s_len || m_len > s_len - i {
        return None;
    }
    while m_len <= s_len - i
        invariant
            s_len == s@.len(),
            m_len == m@.len(),
            m_len > 0,
            from <= i <= s_len,
            find_from(s@, m@, from as int) == find_from(s@, m@, i as int),
        decreases s_len - i,
    {
        if matches_at(s, s_len, m, m_len, i) {
            return Some(i);
        }
        i = i + 1;
    }
    None
}

/// The text of `s` from `from` up to the next occurrence of `m`, or to the
/// end.
fn piece_at(s: &str, m: &str, from: usize) -> (r: String)
    requires
        m@.len() > 0,
        from <= s@.len(),
    ensures
        r@ == piece_from(s@, m@, from as int),
{
    proof {
        lemma_find_from_bounds(s@, m@, from as int);
    }
    let end = match find_marker(s, m, from) {
        Some(k) => k,
        None => s.unicode_len(),
    };
    String::from_str(s.substring_char(from, end))
}

/// The second piece of `s` split at `m`.
fn after_first(s: &str, m: &str) -> (r: Option<String>)
    requires
        m@.len() > 0,
    ensures
        r matches Some(p) ==> second_piece(s@, m@) == Some(p@),
        r is None ==> second_piece(s@, m@) is None,
{
    proof {
        lemma_find_from_bounds(s@, m@, 0);
    }
    let s_len = s.unicode_len();
    let m_len = m.unicode_len();
    match find_marker(s, m, 0) {
        Some(k) => {
            assert(k + m_len <= s_len);
            Some(piece_at(s, m, k + m_len))
        },
        None => None,
    }
}

/// Splices `custom_func` into `template` in place of the span that the
/// opening and closing markers delimit. `None` where `template` lacks the
/// opening marker, or lacks a closing marker after it. `custom_func` is
/// copied verbatim: markers inside it are not looked for.
pub fn insert_custom_func(template: &str, custom_func: &str) -> (r: Option<String>)
    ensures
        r matches Some(s) ==> spliced(template@, custom_func@) == Some(s@),
        r is None ==> spliced(template@, custom_func@) is None,
{
    proof {
        reveal_strlit("//>>");
        reveal_strlit("//<<");
    }
    assert(OPEN_MARKER@ =~= open_marker());
    assert(CLOSE_MARKER@ =~= close_marker());
    let rest = match after_first(template, OPEN_MARKER) {
        Some(rest) => rest,
        None => return None,
    };
    let tail = match after_first(rest.as_str(), CLOSE_MARKER) {
        Some(tail) => tail,
        None => return None,
    };
    proof {
        lemma_find_from_bounds(template@, open_marker(), 0);
    }
    let before_end = match find_marker(template, OPEN_MARKER, 0) {
        Some(k) => k,
        None => template.unicode_len(),
    };
    let mut out = String::from_str(template.substring_char(0, before_end));
    out.append(custom_func);
    out.append(tail.as_str());
    Some(out)
}

/// The full device program source: the struct declarations, then the
/// function template (with `custom` spliced in, where given), then the
/// kernels. `None` where a splice is asked of a template that lacks its
/// markers.
pub open spec fn program_source(
    structs: Seq<char>,
    funcs: Seq<char>,
    kernels: Seq<char>,
    custom: Option<Seq<char>>,
) -> Option<Seq<char>> {
    match custom {
        None => Some(structs + funcs + kernels),
        Some(c) => match spliced(funcs, c) {
            Some(f) => Some(structs + f + kernels),
            None => None,
        },
    }
}

/// The characters of an optional text.
pub open spec fn text_of(t: Option<&str>) -> Option<Seq<char>> {
    match t {
        Some(c) => Some(c@),
        None => None,
    }
}

pub fn compose_program_source(
    structs: &str,
    funcs: &str,
    kernels: &str,
    custom_iter_func: Option<&str>,
) -> (r: Option<String>)
    ensures
        r matches Some(s) ==> program_source(structs@, funcs@, kernels@, text_of(custom_iter_func))
            == Some(s@),
        r is None ==> program_source(structs@, funcs@, kernels@, text_of(custom_iter_func)) is None,
{
    let mut out = String::from_str(structs);
    match custom_iter_func {
        Some(c) => match insert_custom_func(funcs, c) {
            Some(f) => out.append(f.as_str()),
            None => return None,
        },
        None => out.append(funcs),
    }
    out.append(kernels);
    Some(out)
}

} // verus!
