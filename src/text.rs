//! Plain text helpers over character sequences: trimming, lines and fields,
//! and the parent of a path.
use vstd::prelude::*;
use vstd::string::*;

verus! {

/// The characters that `char::is_whitespace` accepts (Unicode White_Space).
pub open spec fn is_space(c: char) -> bool {
    ('\u{9}' <= c && c <= '\u{d}') || c == ' ' || c == '\u{85}' || c == '\u{a0}'
        || c == '\u{1680}' || ('\u{2000}' <= c && c <= '\u{200a}') || c == '\u{2028}'
        || c == '\u{2029}' || c == '\u{202f}' || c == '\u{205f}' || c == '\u{3000}'
}

/// `s` without its leading whitespace.
pub open spec fn trim_start(s: Seq<char>) -> Seq<char>
    decreases s.len(),
{
    if s.len() > 0 && is_space(s[0]) {
        trim_start(s.drop_first())
    } else {
        s
    }
}

/// `s` without its trailing whitespace.
pub open spec fn trim_end(s: Seq<char>) -> Seq<char>
    decreases s.len(),
{
    if s.len() > 0 && is_space(s.last()) {
        trim_end(s.drop_last())
    } else {
        s
    }
}

/// `s` without leading and trailing whitespace.
pub open spec fn trimmed(s: Seq<char>) -> Seq<char> {
    trim_end(trim_start(s))
}

/// `i` is where the first `c` of `s` stands, or the length of `s` when it
/// holds none.
pub open spec fn is_first_of(s: Seq<char>, c: char, i: int) -> bool {
    0 <= i <= s.len() && (forall|k: int| 0 <= k < i ==> s[k] != c) && (i == s.len() || s[i] == c)
}

/// The position of the first `c` in `s`, or its length when it holds none.
pub open spec fn first_index_of(s: Seq<char>, c: char) -> int {
    choose|i: int| is_first_of(s, c, i)
}

/// The text before the first `c`: the first item of `s` split at `c`.
pub open spec fn first_field(s: Seq<char>, c: char) -> Seq<char> {
    s.subrange(0, first_index_of(s, c))
}

/// The first line of `s`: the text before its first line feed.
pub open spec fn first_line(s: Seq<char>) -> Seq<char> {
    first_field(s, '\n')
}

pub proof fn lemma_first_index_of(s: Seq<char>, c: char, i: int)
    requires
        is_first_of(s, c, i),
    ensures
        first_index_of(s, c) == i,
{
    let j = first_index_of(s, c);
    assert(is_first_of(s, c, j));
    if j < i {
        assert(s[j] != c);
    }
    if i < j {
        assert(s[i] != c);
    }
}

proof fn lemma_trim_start_step(s: Seq<char>, i: int)
    requires
        0 <= i < s.len(),
        is_space(s[i]),
    ensures
        trim_start(s.subrange(i, s.len() as int)) == trim_start(s.subrange(i + 1, s.len() as int)),
{
    assert(s.subrange(i, s.len() as int).drop_first() =~= s.subrange(i + 1, s.len() as int));
}

proof fn lemma_trim_end_step(s: Seq<char>, j: int)
    requires
        0 < j <= s.len(),
        is_space(s[j - 1]),
    ensures
        trim_end(s.subrange(0, j)) == trim_end(s.subrange(0, j - 1)),
{
    assert(s.subrange(0, j).drop_last() =~= s.subrange(0, j - 1));
}

/// Where the first `c` of `s` stands, or the length of `s` when it holds none.
pub fn find_char(s: &str, c: char) -> (r: usize)
    ensures
        r == first_index_of(s@, c),
        is_first_of(s@, c, r as int),
{
    let n = s.unicode_len();
    let mut i: usize = 0;
    while i < n && s.get_char(i) != c
        invariant
            n == s@.len(),
            i <= n,
            forall|k: int| 0 <= k < i ==> s@[k] != c,
        decreases n - i,
    {
        i = i + 1;
    }
    proof {
        lemma_first_index_of(s@, c, i as int);
    }
    i
}

/// `s` without leading and trailing whitespace, as `str::trim` gives it.
pub fn trim(s: &str) -> (r: &str)
    ensures
        r@ == trimmed(s@),
{
    let n = s.unicode_len();
    let mut i: usize = 0;
    assert(s@.subrange(0, n as int) =~= s@);
    while i < n && is_space_char(s.get_char(i))
        invariant
            n == s@.len(),
            i <= n,
            trim_start(s@) == trim_start(s@.subrange(i as int, n as int)),
        decreases n - i,
    {
        proof {
            lemma_trim_start_step(s@, i as int);
        }
        i = i + 1;
    }
    let rest = s.substring_char(i, n);
    assert(trim_start(s@) == rest@) by {
        assert(rest@ =~= s@.subrange(i as int, n as int));
    }
    let m = rest.unicode_len();
    let mut j: usize = m;
    assert(rest@.subrange(0, m as int) =~= rest@);
    while j > 0 && is_space_char(rest.get_char(j - 1))
        invariant
            m == rest@.len(),
            j <= m,
            trim_end(rest@) == trim_end(rest@.subrange(0, j as int)),
        decreases j,
    {
        proof {
            lemma_trim_end_step(rest@, j as int);
        }
        j = j - 1;
    }
    assert(rest@.subrange(0, m as int) =~= rest@);
    rest.substring_char(0, j)
}

/// Whether `c` is whitespace in the sense of `char::is_whitespace`.
pub fn is_space_char(c: char) -> (r: bool)
    ensures
        r == is_space(c),
{
    ('\u{9}' <= c && c <= '\u{d}') || c == ' ' || c == '\u{85}' || c == '\u{a0}'
        || c == '\u{1680}' || ('\u{2000}' <= c && c <= '\u{200a}') || c == '\u{2028}'
        || c == '\u{2029}' || c == '\u{202f}' || c == '\u{205f}' || c == '\u{3000}'
}

/// The first line of `s`, without its line feed.
pub fn line_one(s: &str) -> (r: &str)
    ensures
        r@ == first_line(s@),
{
    let i = find_char(s, '\n');
    s.substring_char(0, i)
}


/// Whether `c` separates the parts of a path: `/`, and `\` too where
/// `backslash` holds.
pub open spec fn is_sep(c: char, backslash: bool) -> bool {
    c == '/' || (backslash && c == '\\')
}

/// `s` without its trailing separators.
pub open spec fn strip_seps(s: Seq<char>, backslash: bool) -> Seq<char>
    decreases s.len(),
{
    if s.len() > 0 && is_sep(s.last(), backslash) {
        strip_seps(s.drop_last(), backslash)
    } else {
        s
    }
}

/// Where the last separator of `s` stands, or -1 when it holds none.
pub open spec fn last_sep(s: Seq<char>, backslash: bool) -> int
    decreases s.len(),
{
    if s.len() == 0 {
        -1
    } else if is_sep(s.last(), backslash) {
        s.len() - 1
    } else {
        last_sep(s.drop_last(), backslash)
    }
}

/// The directory that holds the path `s`, as `Path::parent` reads it: the
/// path without its last part and the separators before it. A path of one
/// relative part has the empty path as parent; the empty path and a root
/// have none.
pub open spec fn parent_of(s: Seq<char>, backslash: bool) -> Option<Seq<char>> {
    let t = strip_seps(s, backslash);
    if t.len() == 0 {
        None
    } else {
        let k = last_sep(t, backslash);
        if k < 0 {
            Some(Seq::empty())
        } else {
            let h = strip_seps(t.subrange(0, k), backslash);
            if h.len() == 0 {
                Some(t.subrange(0, 1))
            } else {
                Some(h)
            }
        }
    }
}

/// Whether `c` is a separator of paths.
pub fn is_sep_char(c: char, backslash: bool) -> (r: bool)
    ensures
        r == is_sep(c, backslash),
{
    c == '/' || (backslash && c == '\\')
}

/// `s` without its trailing separators.
pub fn without_trailing_seps(s: &str, backslash: bool) -> (r: &str)
    ensures
        r@ == strip_seps(s@, backslash),
{
    let n = s.unicode_len();
    let mut j: usize = n;
    assert(s@.subrange(0, n as int) =~= s@);
    while j > 0 && is_sep_char(s.get_char(j - 1), backslash)
        invariant
            n == s@.len(),
            j <= n,
            strip_seps(s@, backslash) == strip_seps(s@.subrange(0, j as int), backslash),
        decreases j,
    {
        assert(s@.subrange(0, j as int).drop_last() =~= s@.subrange(0, j as int - 1));
        j = j - 1;
    }
    s.substring_char(0, j)
}

/// Where the last separator of `s` stands, if it holds one.
pub fn find_last_sep(s: &str, backslash: bool) -> (r: Option<usize>)
    ensures
        match r {
            Some(k) => last_sep(s@, backslash) == k as int && k < s@.len(),
            None => last_sep(s@, backslash) == -1,
        },
{
    let n = s.unicode_len();
    let mut j: usize = n;
    assert(s@.subrange(0, n as int) =~= s@);
    while j > 0 && !is_sep_char(s.get_char(j - 1), backslash)
        invariant
            n == s@.len(),
            j <= n,
            last_sep(s@, backslash) == last_sep(s@.subrange(0, j as int), backslash),
        decreases j,
    {
        assert(s@.subrange(0, j as int).drop_last() =~= s@.subrange(0, j as int - 1));
        j = j - 1;
    }
    if j == 0 {
        None
    } else {
        Some(j - 1)
    }
}

/// The directory that holds the path `s`, if there is one.
pub fn parent_dir(s: &str, backslash: bool) -> (r: Option<&str>)
    ensures
        match r {
            Some(p) => parent_of(s@, backslash) == Some(p@),
            None => parent_of(s@, backslash).is_none(),
        },
{
    let t = without_trailing_seps(s, backslash);
    if t.unicode_len() == 0 {
        return None;
    }
    match find_last_sep(t, backslash) {
        None => Some(t.substring_char(0, 0)),
        Some(k) => {
            let h = without_trailing_seps(t.substring_char(0, k), backslash);
            if h.unicode_len() == 0 {
                Some(t.substring_char(0, 1))
            } else {
                Some(h)
            }
        },
    }
}

/// Whether `a` and `b` hold the same characters.
pub fn same_text(a: &str, b: &str) -> (r: bool)
    ensures
        r == (a@ == b@),
{
    let n = a.unicode_len();
    if n != b.unicode_len() {
        return false;
    }
    let mut i: usize = 0;
    while i < n
        invariant
            n == a@.len(),
            n == b@.len(),
            i <= n,
            forall|k: int| 0 <= k < i ==> a@[k] == b@[k],
        decreases n - i,
    {
        if a.get_char(i) != b.get_char(i) {
            return false;
        }
        i = i + 1;
    }
    assert(a@ =~= b@);
    true
}

/// `j` ends the run that starts at `i` of characters that are whitespace
/// (`space`) or are not (`!space`): the first position from `i` on whose
/// character is not of that kind, or the length of `s`.
pub open spec fn is_run_end(s: Seq<char>, i: int, space: bool, j: int) -> bool {
    i <= j <= s.len() && (forall|k: int| i <= k < j ==> is_space(s[k]) == space) && (j == s.len()
        || is_space(s[j]) != space)
}

/// Where the run from `i` of characters of the kind `space` ends.
pub open spec fn run_end(s: Seq<char>, i: int, space: bool) -> int {
    choose|j: int| is_run_end(s, i, space, j)
}

/// The second whitespace-separated word of `s`, as
/// `s.split_whitespace().nth(1)` gives it, if there is one.
pub open spec fn second_word(s: Seq<char>) -> Option<Seq<char>> {
    let a = run_end(s, 0, true);
    let b = run_end(s, a, false);
    let c = run_end(s, b, true);
    if c < s.len() {
        Some(s.subrange(c, run_end(s, c, false)))
    } else {
        None
    }
}

proof fn lemma_run_end(s: Seq<char>, i: int, space: bool, j: int)
    requires
        is_run_end(s, i, space, j),
    ensures
        run_end(s, i, space) == j,
{
    let m = run_end(s, i, space);
    assert(is_run_end(s, i, space, m));
    if m < j {
        assert(is_space(s[m]) == space);
    }
    if j < m {
        assert(is_space(s[j]) == space);
    }
}

/// Where the run from `i` of characters of the kind `space` ends.
pub fn skip_run(s: &str, i: usize, space: bool) -> (r: usize)
    requires
        i <= s@.len(),
    ensures
        r == run_end(s@, i as int, space),
        is_run_end(s@, i as int, space, r as int),
{
    let n = s.unicode_len();
    let mut j: usize = i;
    while j < n && is_space_char(s.get_char(j)) == space
        invariant
            n == s@.len(),
            i <= j <= n,
            forall|k: int| i <= k < j ==> is_space(s@[k]) == space,
        decreases n - j,
    {
        j = j + 1;
    }
    proof {
        lemma_run_end(s@, i as int, space, j as int);
    }
    j
}

/// The second whitespace-separated word of `s`, if there is one.
pub fn word_two(s: &str) -> (r: Option<&str>)
    ensures
        match r {
            Some(t) => second_word(s@) == Some(t@),
            None => second_word(s@).is_none(),
        },
{
    let n = s.unicode_len();
    let a = skip_run(s, 0, true);
    let b = skip_run(s, a, false);
    let c = skip_run(s, b, true);
    if c < n {
        let d = skip_run(s, c, false);
        Some(s.substring_char(c, d))
    } else {
        None
    }
}

} // verus!
