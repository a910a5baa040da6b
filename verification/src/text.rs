//! Character-sequence utilities shared by the parsing modules: substring
//! search, prefix tests, whitespace trimming and case-insensitive matching.

use vstd::prelude::*;

verus! {

/// Horizontal whitespace stripped from header values: blanks, tabs and the
/// carriage return that precedes a line feed in network line endings.
pub open spec fn is_hspace(c: char) -> bool {
    c == ' ' || c == '\t' || c == '\r'
}

/// The pattern `pat` occurs in `s` starting exactly at index `i`.
pub open spec fn match_at(s: Seq<char>, pat: Seq<char>, i: int) -> bool {
    &&& 0 <= i
    &&& i + pat.len() <= s.len()
    &&& s.subrange(i, i + pat.len() as int) == pat
}

/// The smallest index `j >= i` at which the non-empty pattern `pat` occurs in
/// `s`, if any.  An empty pattern never occurs.
pub open spec fn find_from(s: Seq<char>, pat: Seq<char>, i: int) -> Option<int>
    decreases s.len() - i,
{
    if pat.len() == 0 || i < 0 || i + pat.len() > s.len() {
        None
    } else if match_at(s, pat, i) {
        Some(i)
    } else {
        find_from(s, pat, i + 1)
    }
}

/// `pat` occurs somewhere in `s` at or after index `i`.
pub open spec fn contains_from(s: Seq<char>, pat: Seq<char>, i: int) -> bool {
    find_from(s, pat, i) is Some
}

/// What a successful or failed search means, index by index.
pub proof fn lemma_find_from(s: Seq<char>, pat: Seq<char>, i: int)
    ensures
        find_from(s, pat, i) matches Some(j) ==> i <= j && match_at(s, pat, j)
            && (forall|t: int| i <= t < j ==> !match_at(s, pat, t)),
        (find_from(s, pat, i) is None && pat.len() > 0 && i >= 0) ==> (forall|t: int|
            i <= t ==> !match_at(s, pat, t)),
    decreases s.len() - i,
{
    if pat.len() == 0 || i < 0 || i + pat.len() > s.len() {
        if pat.len() > 0 && i >= 0 {
            assert forall|t: int| i <= t implies !match_at(s, pat, t) by {
                if match_at(s, pat, t) {
                    assert(t + pat.len() <= s.len());
                }
            }
        }
    } else if match_at(s, pat, i) {
    } else {
        lemma_find_from(s, pat, i + 1);
    }
}

/// Compares the characters of `s` and `pat` starting at `s`'s index `i`.
pub fn match_at_exec(s: &str, pat: &str, i: usize) -> (r: bool)
    requires
        i + pat@.len() <= s@.len(),
    ensures
        r == match_at(s@, pat@, i as int),
{
    let n = s.unicode_len();
    let m = pat.unicode_len();
    let mut k: usize = 0;
    while k < m
        invariant
            k <= m,
            i + m <= n,
            n == s@.len(),
            m == pat@.len(),
            forall|t: int| 0 <= t < k ==> s@[i + t] == pat@[t],
        decreases m - k,
    {
        if s.get_char(i + k) != pat.get_char(k) {
            proof {
                if match_at(s@, pat@, i as int) {
                    assert(s@.subrange(i as int, i + pat@.len() as int)[k as int] == pat@[k as int]);
                }
            }
            return false;
        }
        k += 1;
    }
    proof {
        assert(s@.subrange(i as int, i + pat@.len() as int) =~= pat@);
    }
    true
}

/// Finds the first occurrence of `pat` in `s` at or after index `from`.
pub fn find_in_str(s: &str, pat: &str, from: usize) -> (r: Option<usize>)
    ensures
        r matches Some(j) ==> find_from(s@, pat@, from as int) == Some(j as int),
        r is None ==> find_from(s@, pat@, from as int) is None,
{
    let n = s.unicode_len();
    let m = pat.unicode_len();
    if m == 0 || from > n || m > n - from {
        return None;
    }
    let mut i: usize = from;
    while i <= n - m
        invariant
            from <= i,
            i <= n,
            m <= n,
            m > 0,
            n == s@.len(),
            m == pat@.len(),
            find_from(s@, pat@, from as int) == find_from(s@, pat@, i as int),
        decreases n - i,
    {
        if match_at_exec(s, pat, i) {
            return Some(i);
        }
        i += 1;
    }
    None
}

/// `s` begins with `pat`.
pub open spec fn starts_with_spec(s: Seq<char>, pat: Seq<char>) -> bool {
    match_at(s, pat, 0)
}

/// Tests whether `s` begins with `pat`.
pub fn starts_with(s: &str, pat: &str) -> (r: bool)
    ensures
        r == starts_with_spec(s@, pat@),
{
    let n = s.unicode_len();
    let m = pat.unicode_len();
    if m > n {
        return false;
    }
    match_at_exec(s, pat, 0)
}

/// `s` with leading horizontal whitespace removed.
pub open spec fn trim_start_spec(s: Seq<char>) -> Seq<char>
    decreases s.len(),
{
    if s.len() > 0 && is_hspace(s[0]) {
        trim_start_spec(s.drop_first())
    } else {
        s
    }
}

/// `s` with trailing horizontal whitespace removed.
pub open spec fn trim_end_spec(s: Seq<char>) -> Seq<char>
    decreases s.len(),
{
    if s.len() > 0 && is_hspace(s[s.len() - 1]) {
        trim_end_spec(s.drop_last())
    } else {
        s
    }
}

/// `s` with horizontal whitespace removed from both ends.
pub open spec fn trimmed(s: Seq<char>) -> Seq<char> {
    trim_end_spec(trim_start_spec(s))
}

proof fn lemma_trim_start_at(s: Seq<char>, a: int)
    requires
        0 <= a <= s.len(),
        forall|t: int| 0 <= t < a ==> is_hspace(s[t]),
        a == s.len() || !is_hspace(s[a]),
    ensures
        trim_start_spec(s) == s.subrange(a, s.len() as int),
    decreases a,
{
    if a == 0 {
        assert(s.subrange(0, s.len() as int) =~= s);
    } else {
        lemma_trim_start_at(s.drop_first(), a - 1);
        assert(s.drop_first().subrange(a - 1, s.drop_first().len() as int) =~= s.subrange(
            a,
            s.len() as int,
        ));
    }
}

proof fn lemma_trim_end_at(s: Seq<char>, b: int)
    requires
        0 <= b <= s.len(),
        forall|t: int| b <= t < s.len() ==> is_hspace(s[t]),
        b == 0 || !is_hspace(s[b - 1]),
    ensures
        trim_end_spec(s) == s.subrange(0, b),
    decreases s.len() - b,
{
    if b == s.len() {
        assert(s.subrange(0, b) =~= s);
    } else {
        lemma_trim_end_at(s.drop_last(), b);
        assert(s.drop_last().subrange(0, b) =~= s.subrange(0, b));
    }
}

fn is_hspace_exec(c: char) -> (r: bool)
    ensures
        r == is_hspace(c),
{
    c == ' ' || c == '\t' || c == '\r'
}

/// Removes horizontal whitespace from both ends of `s`.
pub fn trim_str(s: &str) -> (r: String)
    ensures
        r@ == trimmed(s@),
{
    let n = s.unicode_len();
    let mut a: usize = 0;
    loop
        invariant
            a <= n,
            n == s@.len(),
            forall|t: int| 0 <= t < a ==> is_hspace(s@[t]),
        ensures
            a <= n,
            n == s@.len(),
            forall|t: int| 0 <= t < a ==> is_hspace(s@[t]),
            a == n || !is_hspace(s@[a as int]),
        decreases n - a,
    {
        if a == n {
            break ;
        }
        if !is_hspace_exec(s.get_char(a)) {
            break ;
        }
        a += 1;
    }
    let mut b: usize = n;
    loop
        invariant
            a <= b <= n,
            n == s@.len(),
            forall|t: int| b <= t < n ==> is_hspace(s@[t]),
        ensures
            a <= b <= n,
            forall|t: int| b <= t < n ==> is_hspace(s@[t]),
            b == a || !is_hspace(s@[b - 1]),
        decreases b,
    {
        if b == a {
            break ;
        }
        if !is_hspace_exec(s.get_char(b - 1)) {
            break ;
        }
        b -= 1;
    }
    let mid = s.substring_char(a, b);
    let r = String::from_str(mid);
    proof {
        lemma_trim_start_at(s@, a as int);
        let u = s@.subrange(a as int, n as int);
        lemma_trim_end_at(u, b - a);
        assert(u.subrange(0, b - a) =~= s@.subrange(a as int, b as int));
    }
    r
}

/// Index `i` begins a line of `s`: it is the start of the text or follows a
/// line feed.
pub open spec fn line_start(s: Seq<char>, i: int) -> bool {
    i == 0 || s[i - 1] == '\n'
}

/// The smallest index `j >= i` at which the non-empty header prefix `name`
/// occurs at a line start, if any.
pub open spec fn find_header_from(s: Seq<char>, name: Seq<char>, i: int) -> Option<int>
    decreases s.len() - i,
{
    if name.len() == 0 || i < 0 || i + name.len() > s.len() {
        None
    } else if line_start(s, i) && match_at(s, name, i) {
        Some(i)
    } else {
        find_header_from(s, name, i + 1)
    }
}

/// The index of the line feed that ends the line running from index `i`, or
/// the length of `s` when the line is the last one.
pub open spec fn line_end_from(s: Seq<char>, i: int) -> int
    decreases s.len() - i,
{
    if i < 0 || i >= s.len() {
        s.len() as int
    } else if s[i] == '\n' {
        i
    } else {
        line_end_from(s, i + 1)
    }
}

proof fn lemma_line_end_at(s: Seq<char>, i: int, e: int)
    requires
        0 <= i <= e <= s.len(),
        forall|t: int| i <= t < e ==> s[t] != '\n',
        e == s.len() || s[e] == '\n',
    ensures
        line_end_from(s, i) == e,
    decreases e - i,
{
    if i < e {
        lemma_line_end_at(s, i + 1, e);
    }
}

/// The trimmed text that follows the first occurrence of the header prefix
/// `name` at a line start, up to the end of that line; empty when no line of
/// `s` begins with `name`.
pub open spec fn header_value_spec(s: Seq<char>, name: Seq<char>) -> Seq<char> {
    match find_header_from(s, name, 0) {
        None => Seq::empty(),
        Some(i) => {
            let v0 = i + name.len() as int;
            trimmed(s.subrange(v0, line_end_from(s, v0)))
        },
    }
}

/// Extracts the value of the first header line of `s` that begins with the
/// prefix `name`, trimmed of surrounding whitespace; empty when absent.
pub fn header_value(s: &str, name: &str) -> (r: String)
    ensures
        r@ == header_value_spec(s@, name@),
{
    let n = s.unicode_len();
    let m = name.unicode_len();
    if m == 0 || m > n {
        return String::new();
    }
    let mut i: usize = 0;
    let mut found: Option<usize> = None;
    loop
        invariant_except_break
            found is None,
        invariant
            0 <= i <= n,
            m > 0,
            m <= n,
            n == s@.len(),
            m == name@.len(),
            find_header_from(s@, name@, 0) == find_header_from(s@, name@, i as int),
        ensures
            n == s@.len(),
            m == name@.len(),
            found matches Some(j) ==> find_header_from(s@, name@, 0) == Some(j as int) && j + m
                <= n,
            found is None ==> find_header_from(s@, name@, 0) is None,
        decreases n - i,
    {
        if i > n - m {
            break ;
        }
        let at_line_start = if i == 0 {
            true
        } else {
            s.get_char(i - 1) == '\n'
        };
        if at_line_start && match_at_exec(s, name, i) {
            found = Some(i);
            break ;
        }
        i += 1;
    }
    match found {
        None => String::new(),
        Some(j) => {
            let v0 = j + m;
            let mut e: usize = v0;
            loop
                invariant
                    v0 <= e <= n,
                    n == s@.len(),
                    forall|t: int| v0 <= t < e ==> s@[t] != '\n',
                ensures
                    v0 <= e <= n,
                    forall|t: int| v0 <= t < e ==> s@[t] != '\n',
                    e == n || s@[e as int] == '\n',
                decreases n - e,
            {
                if e == n {
                    break ;
                }
                if s.get_char(e) == '\n' {
                    break ;
                }
                e += 1;
            }
            proof {
                lemma_line_end_at(s@, v0 as int, e as int);
            }
            let line = s.substring_char(v0, e);
            trim_str(line)
        },
    }
}

/// `c` equals `p`, or `c` is the ASCII upper-case form of `p`.
pub open spec fn ci_char(c: char, p: char) -> bool {
    c == p || (65 <= c as u32 <= 90 && c as u32 + 32 == p as u32)
}

/// `s` matches `pat` character by character, where an ASCII letter of `s` may
/// appear in upper case; `pat` is expected in lower case.
pub open spec fn ci_matches(s: Seq<char>, pat: Seq<char>) -> bool {
    s.len() == pat.len() && (forall|i: int|
        0 <= i < s.len() ==> #[trigger] ci_char(s[i], pat[i]))
}

fn ci_char_exec(c: char, p: char) -> (r: bool)
    ensures
        r == ci_char(c, p),
{
    if c == p {
        true
    } else {
        let cu = c as u32;
        if 65 <= cu && cu <= 90 {
            cu + 32 == p as u32
        } else {
            false
        }
    }
}

/// Tests whether `s` matches the lower-case pattern `pat` up to ASCII case.
pub fn str_eq_ci(s: &str, pat: &str) -> (r: bool)
    ensures
        r == ci_matches(s@, pat@),
{
    let n = s.unicode_len();
    let m = pat.unicode_len();
    if n != m {
        return false;
    }
    let mut k: usize = 0;
    while k < n
        invariant
            k <= n,
            n == s@.len(),
            n == pat@.len(),
            forall|i: int| 0 <= i < k ==> #[trigger] ci_char(s@[i], pat@[i]),
        decreases n - k,
    {
        if !ci_char_exec(s.get_char(k), pat.get_char(k)) {
            return false;
        }
        k += 1;
    }
    true
}

/// Tests whether two string slices hold the same characters.
pub fn str_eq(s: &str, t: &str) -> (r: bool)
    ensures
        r == (s@ == t@),
{
    let n = s.unicode_len();
    let m = t.unicode_len();
    if n != m {
        return false;
    }
    let mut k: usize = 0;
    while k < n
        invariant
            k <= n,
            n == s@.len(),
            n == t@.len(),
            forall|i: int| 0 <= i < k ==> s@[i] == t@[i],
        decreases n - k,
    {
        if s.get_char(k) != t.get_char(k) {
            return false;
        }
        k += 1;
    }
    proof {
        assert(s@ =~= t@);
    }
    true
}

} // verus!
