//! Character-level string utilities: conversions between `String`/`&str` and
//! `Vec<char>`, and scanning primitives (prefix, suffix, substring search)
//! with exact contracts over `Seq<char>`.
use vstd::prelude::*;
use vstd::string::StrSliceExecFns;
use vstd::string::StringExecFns;

verus! {

/// Relies on `String::push`: appends exactly one character.
#[verifier::external_body]
pub fn push_char(s: &mut String, c: char)
    ensures
        final(s)@ == old(s)@.push(c),
{
    s.push(c)
}

/// The characters of `s`, as a vector.
pub fn chars_of(s: &str) -> (v: Vec<char>)
    ensures
        v@ == s@,
{
    let n = s.unicode_len();
    let mut v: Vec<char> = Vec::new();
    let mut i: usize = 0;
    while i < n
        invariant
            n == s@.len(),
            i <= n,
            v@ == s@.subrange(0, i as int),
        decreases n - i,
    {
        v.push(s.get_char(i));
        proof {
            assert(v@ =~= s@.subrange(0, i + 1));
        }
        i = i + 1;
    }
    proof {
        assert(v@ =~= s@);
    }
    v
}

/// A `String` holding exactly the characters of `v`.
pub fn string_of(v: &Vec<char>) -> (s: String)
    ensures
        s@ == v@,
{
    let mut s = String::new();
    let mut i: usize = 0;
    while i < v.len()
        invariant
            i <= v@.len(),
            s@ == v@.subrange(0, i as int),
        decreases v@.len() - i,
    {
        push_char(&mut s, v[i]);
        proof {
            assert(s@ =~= v@.subrange(0, i + 1));
        }
        i = i + 1;
    }
    proof {
        assert(s@ =~= v@);
    }
    s
}

/// Whether `p` occurs in `s` starting at position `i`.
pub open spec fn matches_at(s: Seq<char>, p: Seq<char>, i: int) -> bool {
    0 <= i && i + p.len() <= s.len() && s.subrange(i, i + p.len() as int) =~= p
}

/// Whether `p` is a contiguous substring of `s`.
pub open spec fn is_substring(s: Seq<char>, p: Seq<char>) -> bool {
    exists|i: int| matches_at(s, p, i)
}

/// Whether `p` is a prefix of `s`.
pub open spec fn is_prefix(s: Seq<char>, p: Seq<char>) -> bool {
    p.len() <= s.len() && s.subrange(0, p.len() as int) =~= p
}

/// Whether `p` is a suffix of `s`.
pub open spec fn is_suffix(s: Seq<char>, p: Seq<char>) -> bool {
    p.len() <= s.len() && s.subrange(s.len() - p.len(), s.len() as int) =~= p
}

/// A suffix of a suffix is a suffix.
pub proof fn lemma_suffix_trans(a: Seq<char>, b: Seq<char>, c: Seq<char>)
    requires
        is_suffix(a, b),
        is_suffix(b, c),
    ensures
        is_suffix(a, c),
{
    assert forall|k: int| 0 <= k < c.len() implies a.subrange(a.len() - c.len(), a.len() as int)[k]
        == c[k] by {
        assert(c[k] == b.subrange(b.len() - c.len(), b.len() as int)[k]);
        assert(b[b.len() - c.len() + k] == a.subrange(a.len() - b.len(), a.len() as int)[b.len()
            - c.len() + k]);
    }
    assert(a.subrange(a.len() - c.len(), a.len() as int) =~= c);
}

/// Whether `p` occurs in `s` at position `i`, decided by comparing characters.
fn check_match_at(s: &Vec<char>, p: &Vec<char>, i: usize) -> (r: bool)
    requires
        i + p@.len() <= s@.len(),
    ensures
        r == matches_at(s@, p@, i as int),
{
    let n = s.len();
    let mut j: usize = 0;
    while j < p.len()
        invariant
            n == s@.len(),
            i + p@.len() <= s@.len(),
            j <= p@.len(),
            forall|k: int| 0 <= k < j ==> s@[i + k] == p@[k],
        decreases p@.len() - j,
    {
        proof {
            assert(i + j < n);
        }
        if s[i + j] != p[j] {
            proof {
                assert(s@.subrange(i as int, i + p@.len() as int)[j as int] == s@[i + j]);
                assert(!matches_at(s@, p@, i as int));
            }
            return false;
        }
        j = j + 1;
    }
    proof {
        assert(s@.subrange(i as int, i + p@.len() as int) =~= p@);
    }
    true
}

/// Whether `p` is a prefix of `s`.
pub fn starts_with(s: &Vec<char>, p: &Vec<char>) -> (r: bool)
    ensures
        r == is_prefix(s@, p@),
{
    if p.len() > s.len() {
        return false;
    }
    check_match_at(s, p, 0)
}

/// Whether `p` is a suffix of `s`.
pub fn ends_with(s: &Vec<char>, p: &Vec<char>) -> (r: bool)
    ensures
        r == is_suffix(s@, p@),
{
    if p.len() > s.len() {
        return false;
    }
    check_match_at(s, p, s.len() - p.len())
}

/// Whether `p` occurs anywhere in `s`.
pub fn contains_sub(s: &Vec<char>, p: &Vec<char>) -> (r: bool)
    ensures
        r == is_substring(s@, p@),
{
    if p.len() > s.len() {
        proof {
            assert(forall|i: int| !matches_at(s@, p@, i));
        }
        return false;
    }
    if p.len() == 0 {
        proof {
            assert(s@.subrange(0, 0) =~= p@);
            assert(matches_at(s@, p@, 0));
        }
        return true;
    }
    let end = s.len() - p.len();
    let mut i: usize = 0;
    while i <= end
        invariant
            0 < p@.len() <= s@.len(),
            s@.len() <= usize::MAX,
            end == s@.len() - p@.len(),
            i <= end + 1,
            forall|k: int| 0 <= k < i ==> !matches_at(s@, p@, k),
        decreases end + 1 - i,
    {
        if check_match_at(s, p, i) {
            return true;
        }
        i = i + 1;
    }
    proof {
        assert(forall|k: int| matches_at(s@, p@, k) ==> 0 <= k <= end);
    }
    false
}

/// Index of the first character of `s` satisfying `p`, or `s.len()` when none does.
pub open spec fn find_first(s: Seq<char>, p: spec_fn(char) -> bool) -> int
    decreases s.len(),
{
    if s.len() == 0 {
        0
    } else if p(s[0]) {
        0
    } else {
        1 + find_first(s.drop_first(), p)
    }
}

/// An index within bounds, with nothing before it satisfying `p` and the
/// character at it (when in range) satisfying it, is `find_first`.
pub proof fn lemma_find_first_unique(s: Seq<char>, p: spec_fn(char) -> bool, i: int)
    requires
        0 <= i <= s.len(),
        forall|k: int| 0 <= k < i ==> !p(s[k]),
        i < s.len() ==> p(s[i]),
    ensures
        i == find_first(s, p),
    decreases s.len(),
{
    if s.len() > 0 && !p(s[0]) {
        assert(i >= 1);
        assert(forall|k: int| 0 <= k < i - 1 ==> s.drop_first()[k] == s[k + 1] && !p(
            s.drop_first()[k],
        ));
        lemma_find_first_unique(s.drop_first(), p, i - 1);
    }
}

/// Index of the first newline in `s`, or `s.len()` when there is none.
pub open spec fn newline_at(s: Seq<char>) -> int {
    find_first(s, |c: char| c == '\n')
}

/// First newline position, as `find_first` gives it.
pub fn find_newline(s: &Vec<char>) -> (i: usize)
    ensures
        i == newline_at(s@),
        i <= s@.len(),
        forall|k: int| 0 <= k < i ==> s@[k] != '\n',
        i < s@.len() ==> s@[i as int] == '\n',
{
    let n = s.len();
    let mut i: usize = 0;
    while i < n
        invariant
            n == s@.len(),
            i <= n,
            forall|k: int| 0 <= k < i ==> s@[k] != '\n',
        decreases n - i,
    {
        if s[i] == '\n' {
            proof {
                lemma_find_first_unique(s@, |c: char| c == '\n', i as int);
            }
            return i;
        }
        i = i + 1;
    }
    proof {
        lemma_find_first_unique(s@, |c: char| c == '\n', n as int);
    }
    n
}

/// The whitespace characters stripped by trimming: the four ASCII ones,
/// which is all the line framing here ever meets.
pub open spec fn is_space(c: char) -> bool {
    c == ' ' || c == '\t' || c == '\r' || c == '\n'
}

/// Index of the first non-space character, or `s.len()` for all-space `s`.
pub open spec fn trim_start_at(s: Seq<char>) -> int {
    find_first(s, |c: char| !is_space(c))
}

/// One past the last non-space character, or `0` for all-space `s`.
pub open spec fn trim_end_at(s: Seq<char>) -> int {
    s.len() - find_first(s.reverse(), |c: char| !is_space(c))
}

/// `s` with leading and trailing whitespace removed.
pub open spec fn trim_spec(s: Seq<char>) -> Seq<char> {
    if trim_start_at(s) >= trim_end_at(s) {
        Seq::empty()
    } else {
        s.subrange(trim_start_at(s), trim_end_at(s))
    }
}

/// Copy of `s[from..to]`.
pub fn subvec(s: &Vec<char>, from: usize, to: usize) -> (v: Vec<char>)
    requires
        from <= to <= s@.len(),
    ensures
        v@ == s@.subrange(from as int, to as int),
{
    let mut v: Vec<char> = Vec::new();
    let mut i: usize = from;
    while i < to
        invariant
            from <= i <= to <= s@.len(),
            v@ == s@.subrange(from as int, i as int),
        decreases to - i,
    {
        v.push(s[i]);
        proof {
            assert(v@ =~= s@.subrange(from as int, i + 1));
        }
        i = i + 1;
    }
    v
}

/// `s` with surrounding whitespace removed, as `trim_spec` describes.
pub fn trim_vec(s: &Vec<char>) -> (v: Vec<char>)
    ensures
        v@ == trim_spec(s@),
{
    let n = s.len();
    let mut a: usize = 0;
    while a < n && (s[a] == ' ' || s[a] == '\t' || s[a] == '\r' || s[a] == '\n')
        invariant
            n == s@.len(),
            a <= n,
            forall|k: int| 0 <= k < a ==> is_space(s@[k]),
        decreases n - a,
    {
        a = a + 1;
    }
    proof {
        let p = |c: char| !is_space(c);
        assert(forall|k: int| 0 <= k < a ==> !p(s@[k]));
        lemma_find_first_unique(s@, p, a as int);
        assert(a == trim_start_at(s@));
    }
    let mut b: usize = n;
    while b > a && (s[b - 1] == ' ' || s[b - 1] == '\t' || s[b - 1] == '\r' || s[b - 1] == '\n')
        invariant
            n == s@.len(),
            a <= b <= n,
            forall|k: int| b <= k < n ==> is_space(s@[k]),
        decreases b,
    {
        b = b - 1;
    }
    proof {
        let p = |c: char| !is_space(c);
        let r = s@.reverse();
        if b == a {
            // everything from `a` on is space, and everything before `a` is too
            assert(forall|k: int| 0 <= k < n ==> is_space(s@[k]));
            assert(forall|k: int| 0 <= k < n ==> !p(r[k]) && r[k] == s@[n - 1 - k]);
            lemma_find_first_unique(r, p, n as int);
            assert(trim_end_at(s@) == 0 || trim_end_at(s@) <= a);
        } else {
            // s[b-1] is not a space and s[b..] is all space
            assert(forall|k: int| 0 <= k < n - b ==> r[k] == s@[n - 1 - k] && !p(r[k]));
            assert(r[n - b] == s@[b - 1]);
            lemma_find_first_unique(r, p, n - b);
            assert(trim_end_at(s@) == b);
        }
    }
    if b <= a {
        let v: Vec<char> = Vec::new();
        proof {
            assert(v@ =~= trim_spec(s@));
        }
        v
    } else {
        let v = subvec(s, a, b);
        v
    }
}

/// ASCII lowercase of one character; anything outside `A..Z` is unchanged.
pub open spec fn lower_char(c: char) -> char {
    match c {
        'A' => 'a',
        'B' => 'b',
        'C' => 'c',
        'D' => 'd',
        'E' => 'e',
        'F' => 'f',
        'G' => 'g',
        'H' => 'h',
        'I' => 'i',
        'J' => 'j',
        'K' => 'k',
        'L' => 'l',
        'M' => 'm',
        'N' => 'n',
        'O' => 'o',
        'P' => 'p',
        'Q' => 'q',
        'R' => 'r',
        'S' => 's',
        'T' => 't',
        'U' => 'u',
        'V' => 'v',
        'W' => 'w',
        'X' => 'x',
        'Y' => 'y',
        'Z' => 'z',
        _ => c,
    }
}

/// `s` with every character lowered by `lower_char`.
pub open spec fn lower_seq(s: Seq<char>) -> Seq<char> {
    s.map_values(|c: char| lower_char(c))
}

/// ASCII-lowercased copy of `s`.
pub fn to_lower(s: &Vec<char>) -> (v: Vec<char>)
    ensures
        v@ == lower_seq(s@),
{
    let mut v: Vec<char> = Vec::new();
    let mut i: usize = 0;
    while i < s.len()
        invariant
            i <= s@.len(),
            v@ == lower_seq(s@.subrange(0, i as int)),
        decreases s@.len() - i,
    {
        let c = s[i];
        let l = match c {
            'A' => 'a',
            'B' => 'b',
            'C' => 'c',
            'D' => 'd',
            'E' => 'e',
            'F' => 'f',
            'G' => 'g',
            'H' => 'h',
            'I' => 'i',
            'J' => 'j',
            'K' => 'k',
            'L' => 'l',
            'M' => 'm',
            'N' => 'n',
            'O' => 'o',
            'P' => 'p',
            'Q' => 'q',
            'R' => 'r',
            'S' => 's',
            'T' => 't',
            'U' => 'u',
            'V' => 'v',
            'W' => 'w',
            'X' => 'x',
            'Y' => 'y',
            'Z' => 'z',
            _ => c,
        };
        assert(l == lower_char(c));
        v.push(l);
        proof {
            assert(v@ =~= lower_seq(s@.subrange(0, i + 1)));
        }
        i = i + 1;
    }
    proof {
        assert(s@.subrange(0, s@.len() as int) =~= s@);
    }
    v
}

/// A path joined with one more component: a separator is added unless the
/// directory is empty or already ends with one.
pub open spec fn join_path_spec(dir: Seq<char>, name: Seq<char>) -> Seq<char> {
    if dir.len() == 0 {
        name
    } else if dir.last() == '/' {
        dir + name
    } else {
        dir + "/"@ + name
    }
}

/// Joins a directory and a file name, as `join_path_spec` describes.
pub fn join_path(dir: &str, name: &str) -> (r: String)
    ensures
        r@ == join_path_spec(dir@, name@),
{
    let chars = chars_of(dir);
    if chars.len() == 0 {
        let mut s = String::new();
        s.append(name);
        proof {
            assert(s@ =~= name@);
        }
        return s;
    }
    let mut s = String::from_str(dir);
    if chars[chars.len() - 1] != '/' {
        s.append("/");
    }
    s.append(name);
    proof {
        assert(chars@.last() == dir@.last());
        assert(s@ =~= join_path_spec(dir@, name@));
    }
    s
}

/// Whether two character vectors hold the same characters.
pub fn vec_eq(a: &Vec<char>, b: &Vec<char>) -> (r: bool)
    ensures
        r == (a@ == b@),
{
    if a.len() != b.len() {
        proof {
            assert(a@ !~= b@);
        }
        return false;
    }
    let mut i: usize = 0;
    while i < a.len()
        invariant
            a@.len() == b@.len(),
            i <= a@.len(),
            forall|k: int| 0 <= k < i ==> a@[k] == b@[k],
        decreases a@.len() - i,
    {
        if a[i] != b[i] {
            proof {
                assert(a@ !~= b@);
            }
            return false;
        }
        i = i + 1;
    }
    proof {
        assert(a@ =~= b@);
    }
    true
}

} // verus!
