//! Character-level text utilities: whitespace scanning, substring search
//! (exact and ASCII-case-insensitive), line splitting and joining.
//!
//! All executable functions here mirror a spec function over `Seq<char>`
//! exactly, so the parsing and formatting rules of the service are stated
//! once, mathematically, and proved of the code.

use vstd::prelude::*;

verus! {

/// Whitespace — the characters with the Unicode `White_Space` property,
/// the separator class of the gateway's line format and of label-line
/// trimming.
pub open spec fn is_space_char(c: char) -> bool {
    let u = c as int;
    u == 0x09 || u == 0x0a || u == 0x0b || u == 0x0c || u == 0x0d || u == 0x20 || u == 0x85 || u
        == 0xa0 || u == 0x1680 || (0x2000 <= u && u <= 0x200a) || u == 0x2028 || u == 0x2029 || u
        == 0x202f || u == 0x205f || u == 0x3000
}

/// Executable form of `is_space_char`.
pub fn is_space(c: char) -> (r: bool)
    ensures
        r == is_space_char(c),
{
    let u = c as u32;
    u == 0x09 || u == 0x0a || u == 0x0b || u == 0x0c || u == 0x0d || u == 0x20 || u == 0x85 || u
        == 0xa0 || u == 0x1680 || (0x2000 <= u && u <= 0x200a) || u == 0x2028 || u == 0x2029 || u
        == 0x202f || u == 0x205f || u == 0x3000
}

/// `s` holds at least one non-whitespace character: it is non-empty after
/// trimming whitespace.
pub open spec fn has_non_space(s: Seq<char>) -> bool {
    exists|i: int| 0 <= i < s.len() && !is_space_char(s[i])
}

/// Executable `has_non_space`.
pub fn contains_non_space(s: &str) -> (r: bool)
    ensures
        r == has_non_space(s@),
{
    let cs = chars_of(s);
    let n = cs.len();
    let mut i: usize = 0;
    while i < n
        invariant
            i <= n,
            n == cs@.len(),
            cs@ == s@,
            forall|k: int| 0 <= k < i ==> is_space_char(s@[k]),
        decreases n - i,
    {
        if !is_space(cs[i]) {
            return true;
        }
        i = i + 1;
    }
    false
}

/// The characters of `s`, as a vector, for O(1) scanning.
pub fn chars_of(s: &str) -> (r: Vec<char>)
    ensures
        r@ == s@,
{
    let n = s.unicode_len();
    let mut r: Vec<char> = Vec::new();
    let mut i: usize = 0;
    while i < n
        invariant
            n == s@.len(),
            i <= n,
            r@ == s@.take(i as int),
        decreases n - i,
    {
        let c = s.get_char(i);
        r.push(c);
        i = i + 1;
        proof {
            assert(r@ =~= s@.take(i as int));
        }
    }
    proof {
        assert(r@ =~= s@);
    }
    r
}

/// First index at or after `i` (bounded by `hi`) holding a non-space character.
pub open spec fn token_start(s: Seq<char>, i: int, hi: int) -> int
    decreases hi - i,
{
    if i < hi && is_space_char(s[i]) {
        token_start(s, i + 1, hi)
    } else {
        i
    }
}

/// First index at or after `i` (bounded by `hi`) holding a space character.
pub open spec fn token_end(s: Seq<char>, i: int, hi: int) -> int
    decreases hi - i,
{
    if i < hi && !is_space_char(s[i]) {
        token_end(s, i + 1, hi)
    } else {
        i
    }
}

/// First index at or after `i` holding a newline, or the length of `s`.
pub open spec fn line_end(s: Seq<char>, i: int) -> int
    decreases s.len() - i,
{
    if i < s.len() && s[i] != '\n' {
        line_end(s, i + 1)
    } else {
        i
    }
}

/// Executable `token_start`: skip spaces within `[lo, hi)`.
pub fn skip_spaces(cs: &Vec<char>, lo: usize, hi: usize) -> (r: usize)
    requires
        lo <= hi <= cs@.len(),
    ensures
        r == token_start(cs@, lo as int, hi as int),
        lo <= r <= hi,
{
    let mut j = lo;
    while j < hi && is_space(cs[j])
        invariant
            lo <= j <= hi <= cs@.len(),
            token_start(cs@, lo as int, hi as int) == token_start(cs@, j as int, hi as int),
        decreases hi - j,
    {
        j = j + 1;
    }
    j
}

/// Executable `token_end`: skip non-spaces within `[lo, hi)`.
pub fn skip_token(cs: &Vec<char>, lo: usize, hi: usize) -> (r: usize)
    requires
        lo <= hi <= cs@.len(),
    ensures
        r == token_end(cs@, lo as int, hi as int),
        lo <= r <= hi,
{
    let mut j = lo;
    while j < hi && !is_space(cs[j])
        invariant
            lo <= j <= hi <= cs@.len(),
            token_end(cs@, lo as int, hi as int) == token_end(cs@, j as int, hi as int),
        decreases hi - j,
    {
        j = j + 1;
    }
    j
}

/// Executable `line_end`: find the next newline at or after `start`.
pub fn find_line_end(cs: &Vec<char>, start: usize) -> (e: usize)
    requires
        start <= cs@.len(),
    ensures
        e == line_end(cs@, start as int),
        start <= e <= cs@.len(),
{
    let n = cs.len();
    let mut j = start;
    while j < n && cs[j] != '\n'
        invariant
            start <= j <= n,
            n == cs@.len(),
            line_end(cs@, start as int) == line_end(cs@, j as int),
        decreases n - j,
    {
        j = j + 1;
    }
    j
}

/// `needle` occurs in `s` exactly at position `k`.
pub open spec fn matches_at(s: Seq<char>, k: int, needle: Seq<char>) -> bool {
    &&& 0 <= k
    &&& k + needle.len() <= s.len()
    &&& forall|j: int| 0 <= j < needle.len() ==> s[k + j] == needle[j]
}

/// The first position in `[lo, hi)` where `needle` occurs wholly within
/// `s[lo..hi]`, or `hi` when it occurs nowhere in that range.
pub open spec fn first_match(s: Seq<char>, lo: int, hi: int, needle: Seq<char>) -> int
    decreases hi - lo,
{
    if lo >= hi {
        hi
    } else if lo + needle.len() <= hi && matches_at(s, lo, needle) {
        lo
    } else {
        first_match(s, lo + 1, hi, needle)
    }
}

/// Where `first_match` lands: between `lo` and `hi`, and on a real
/// occurrence whenever it lies below `hi`.
pub proof fn lemma_first_match_props(s: Seq<char>, lo: int, hi: int, needle: Seq<char>)
    requires
        lo <= hi,
    ensures
        ({
            let k = first_match(s, lo, hi, needle);
            lo <= k <= hi && (k < hi ==> k + needle.len() <= hi && matches_at(s, k, needle))
        }),
    decreases hi - lo,
{
    if lo < hi && !(lo + needle.len() <= hi && matches_at(s, lo, needle)) {
        lemma_first_match_props(s, lo + 1, hi, needle);
    }
}

/// Executable `matches_at`.
pub fn match_at(cs: &Vec<char>, k: usize, needle: &Vec<char>) -> (r: bool)
    requires
        k + needle@.len() <= cs@.len(),
    ensures
        r == matches_at(cs@, k as int, needle@),
{
    let n = cs.len();
    let m = needle.len();
    let mut j: usize = 0;
    while j < m
        invariant
            j <= m,
            n == cs@.len(),
            m == needle@.len(),
            k + m <= n,
            forall|j2: int| 0 <= j2 < j ==> cs@[k + j2] == needle@[j2],
        decreases m - j,
    {
        if cs[k + j] != needle[j] {
            return false;
        }
        j = j + 1;
    }
    true
}

/// Executable `first_match`: search for `needle` inside `cs[lo..hi]`.
pub fn find_first_match(cs: &Vec<char>, lo: usize, hi: usize, needle: &Vec<char>) -> (r: usize)
    requires
        lo <= hi <= cs@.len(),
    ensures
        r == first_match(cs@, lo as int, hi as int, needle@),
{
    let m = needle.len();
    let mut k = lo;
    while k < hi
        invariant
            lo <= k <= hi <= cs@.len(),
            m == needle@.len(),
            first_match(cs@, lo as int, hi as int, needle@) == first_match(
                cs@,
                k as int,
                hi as int,
                needle@,
            ),
        decreases hi - k,
    {
        if hi - k >= m && match_at(cs, k, needle) {
            return k;
        }
        k = k + 1;
    }
    hi
}

/// Characters equal up to ASCII case.
pub open spec fn ci_eq(a: char, b: char) -> bool {
    ||| a == b
    ||| (65 <= a as int && a as int <= 90 && b as int == a as int + 32)
    ||| (65 <= b as int && b as int <= 90 && a as int == b as int + 32)
}

/// `needle` occurs in `s` at position `k`, up to ASCII case.
pub open spec fn ci_matches_at(s: Seq<char>, k: int, needle: Seq<char>) -> bool {
    &&& 0 <= k
    &&& k + needle.len() <= s.len()
    &&& forall|j: int| 0 <= j < needle.len() ==> ci_eq(s[k + j], needle[j])
}

/// `needle` occurs somewhere in `s`, up to ASCII case.
pub open spec fn ci_contains(s: Seq<char>, needle: Seq<char>) -> bool {
    exists|k: int| ci_matches_at(s, k, needle)
}

/// Executable `ci_eq`.
pub fn chars_eq_ci(a: char, b: char) -> (r: bool)
    ensures
        r == ci_eq(a, b),
{
    a == b || (65 <= a as u32 && a as u32 <= 90 && b as u32 == a as u32 + 32) || (65 <= b as u32
        && b as u32 <= 90 && a as u32 == b as u32 + 32)
}

/// Executable `ci_matches_at`.
pub fn ci_match_at(cs: &Vec<char>, k: usize, needle: &Vec<char>) -> (r: bool)
    requires
        k + needle@.len() <= cs@.len(),
    ensures
        r == ci_matches_at(cs@, k as int, needle@),
{
    let n = cs.len();
    let m = needle.len();
    let mut j: usize = 0;
    while j < m
        invariant
            j <= m,
            n == cs@.len(),
            m == needle@.len(),
            k + m <= n,
            forall|j2: int| 0 <= j2 < j ==> ci_eq(cs@[k + j2], needle@[j2]),
        decreases m - j,
    {
        if !chars_eq_ci(cs[k + j], needle[j]) {
            return false;
        }
        j = j + 1;
    }
    true
}

/// Executable `ci_contains`.
pub fn ci_find_needle(cs: &Vec<char>, needle: &Vec<char>) -> (r: bool)
    ensures
        r == ci_contains(cs@, needle@),
{
    let n = cs.len();
    let m = needle.len();
    if n < m {
        return false;
    }
    let mut k: usize = 0;
    while k <= n - m
        invariant
            k <= n - m + 1,
            m <= n,
            n == cs@.len(),
            m == needle@.len(),
            forall|k2: int| 0 <= k2 < k ==> !ci_matches_at(cs@, k2, needle@),
        decreases n + 1 - m - k,
    {
        if ci_match_at(cs, k, needle) {
            return true;
        }
        k = k + 1;
    }
    false
}

/// The parts joined by `sep`: nothing for an empty list, and no leading or
/// trailing separator otherwise.
pub open spec fn join_with(parts: Seq<Seq<char>>, sep: Seq<char>) -> Seq<char>
    decreases parts.len(),
{
    if parts.len() == 0 {
        Seq::empty()
    } else if parts.len() == 1 {
        parts[0]
    } else {
        parts[0] + sep + join_with(parts.drop_first(), sep)
    }
}

/// Appending one part extends the joined text by a separator and the part.
pub proof fn lemma_join_with_push(parts: Seq<Seq<char>>, sep: Seq<char>, x: Seq<char>)
    ensures
        join_with(parts.push(x), sep) == if parts.len() == 0 {
            x
        } else {
            join_with(parts, sep) + sep + x
        },
    decreases parts.len(),
{
    if parts.len() == 0 {
        assert(parts.push(x)[0] == x);
    } else if parts.len() == 1 {
        assert(parts.push(x).drop_first() =~= seq![x]);
        assert(parts.push(x)[0] == parts[0]);
        assert(join_with(seq![x], sep) == seq![x][0]);
        assert(join_with(parts.push(x), sep) == parts[0] + sep + x);
    } else {
        assert(parts.push(x).drop_first() =~= parts.drop_first().push(x));
        lemma_join_with_push(parts.drop_first(), sep, x);
        assert(parts[0] + sep + (join_with(parts.drop_first(), sep) + sep + x) =~= (parts[0] + sep
            + join_with(parts.drop_first(), sep)) + sep + x);
    }
}

/// Joins the parts with `sep`, executable form of `join_with`.
pub fn join_strings(parts: &Vec<String>, sep: &str) -> (r: String)
    ensures
        r@ == join_with(parts.deep_view(), sep@),
{
    let ghost all = parts.deep_view();
    let mut r = String::new();
    let mut i: usize = 0;
    while i < parts.len()
        invariant
            i <= parts@.len(),
            all == parts.deep_view(),
            all.len() == parts@.len(),
            forall|q: int| 0 <= q < all.len() ==> all[q] == parts@[q]@,
            r@ == join_with(all.take(i as int), sep@),
        decreases parts@.len() - i,
    {
        if i > 0 {
            r.append(sep);
        }
        r.append(parts[i].as_str());
        proof {
            lemma_join_with_push(all.take(i as int), sep@, all[i as int]);
            assert(all.take(i + 1) =~= all.take(i as int).push(all[i as int]));
        }
        i = i + 1;
    }
    proof {
        assert(all.take(parts@.len() as int) =~= all);
    }
    r
}

} // verus!
