//! Character-level text utilities used by the rest of the library.
//!
//! Every operation works on the `Seq<char>` view of a string and is stated
//! over the spec functions of this module.

use vstd::prelude::*;
use vstd::string::StringExecFns;

verus! {

broadcast use vstd::string::group_string_axioms;

// ---------------------------------------------------------------------------
// Specifications
// ---------------------------------------------------------------------------

/// `p` occurs in `s` starting at index `i`.
pub open spec fn occurs_at(s: Seq<char>, p: Seq<char>, i: int) -> bool {
    0 <= i && i + p.len() <= s.len() && s.subrange(i, i + p.len()) == p
}

/// `p` occurs somewhere in `s` (the empty pattern occurs everywhere).
pub open spec fn contains(s: Seq<char>, p: Seq<char>) -> bool {
    exists|i: int| occurs_at(s, p, i)
}

/// `s` ends with `p`.
pub open spec fn ends_with(s: Seq<char>, p: Seq<char>) -> bool {
    p.len() <= s.len() && s.subrange(s.len() - p.len(), s.len() as int) == p
}

/// The first index `>= from` where `p` occurs in `s`.
pub open spec fn find_from(s: Seq<char>, p: Seq<char>, from: int) -> Option<int>
    decreases s.len() + 1 - from,
{
    if from < 0 || from + p.len() > s.len() {
        None
    } else if occurs_at(s, p, from) {
        Some(from)
    } else {
        find_from(s, p, from + 1)
    }
}

/// A found index is an occurrence, within bounds.
pub proof fn lemma_find_from_found(s: Seq<char>, p: Seq<char>, from: int)
    ensures
        find_from(s, p, from) matches Some(k) ==> from <= k && occurs_at(s, p, k),
    decreases s.len() + 1 - from,
{
    if !(from < 0 || from + p.len() > s.len()) && !occurs_at(s, p, from) {
        lemma_find_from_found(s, p, from + 1);
    }
}

/// Extending a text does not move an occurrence found in it.
pub proof fn lemma_find_from_extend(s: Seq<char>, t: Seq<char>, p: Seq<char>, from: int)
    ensures
        find_from(s, p, from) matches Some(k) ==> find_from(s + t, p, from) == Some(k),
    decreases s.len() + 1 - from,
{
    if !(from < 0 || from + p.len() > s.len()) {
        assert((s + t).subrange(from, from + p.len()) =~= s.subrange(from, from + p.len()));
        if !occurs_at(s, p, from) {
            lemma_find_from_extend(s, t, p, from + 1);
        }
    }
}

/// A sequence whose first and last characters are not white space is not
/// blank.
pub proof fn lemma_not_blank_when_ends_visible(s: Seq<char>)
    requires
        s.len() > 0,
        !is_ws(s[0]),
        !is_ws(s.last()),
    ensures
        !is_blank(s),
{
    assert(trim_start(s) == s);
    assert(trim_end(s) == s);
}

/// Replacing a pattern that does not occur changes nothing.
pub proof fn lemma_replace_absent(s: Seq<char>, pat: Seq<char>, rep: Seq<char>)
    requires
        pat.len() > 0,
        !contains(s, pat),
    ensures
        replace_all(s, pat, rep) == s,
    decreases s.len(),
{
    if s.len() >= pat.len() {
        assert(!occurs_at(s, pat, 0));
        assert(s.subrange(0, pat.len() as int) =~= s.take(pat.len() as int));
        assert forall|i: int| !occurs_at(s.skip(1), pat, i) by {
            if occurs_at(s.skip(1), pat, i) {
                assert(s.subrange(i + 1, i + 1 + pat.len()) =~= s.skip(1).subrange(i, i + pat.len()));
                assert(occurs_at(s, pat, i + 1));
            }
        }
        lemma_replace_absent(s.skip(1), pat, rep);
        assert(seq![s[0]] + s.skip(1) =~= s);
    }
}

/// Removing every three-backtick fence from a text that does not start with
/// one keeps its first character in front.
pub proof fn lemma_remove_fence_first(s: Seq<char>, f: Seq<char>)
    requires
        f =~= seq!['`', '`', '`'],
        s.len() > 0,
        !(s.len() >= 3 && s.take(3) == f),
    ensures
        replace_all(s, f, Seq::empty()).len() > 0,
        replace_all(s, f, Seq::empty())[0] == s[0],
{
    if s.len() >= 3 {
        assert(replace_all(s, f, Seq::empty()) == seq![s[0]] + replace_all(s.skip(1), f, Seq::empty()));
    }
}

/// No three-backtick fence is left once every fence was removed, scanning
/// from the left.
pub proof fn lemma_no_fence_left(s: Seq<char>, f: Seq<char>)
    requires
        f =~= seq!['`', '`', '`'],
    ensures
        !contains(replace_all(s, f, Seq::empty()), f),
    decreases s.len(),
{
    let e = Seq::<char>::empty();
    let r = replace_all(s, f, e);
    if s.len() < 3 {
        assert forall|i: int| !occurs_at(r, f, i) by {}
    } else if s.take(3) == f {
        lemma_no_fence_left(s.skip(3), f);
        assert(r =~= replace_all(s.skip(3), f, e));
    } else {
        let rec = replace_all(s.skip(1), f, e);
        lemma_no_fence_left(s.skip(1), f);
        assert(r == seq![s[0]] + rec);
        assert forall|i: int| !occurs_at(r, f, i) by {
            if occurs_at(r, f, i) {
                if i > 0 {
                    assert(rec.subrange(i - 1, i + 2) =~= r.subrange(i, i + 3));
                    assert(occurs_at(rec, f, i - 1));
                } else {
                    assert(r.subrange(0, 3)[0] == '`');
                    assert(r.subrange(0, 3)[1] == '`');
                    assert(r.subrange(0, 3)[2] == '`');
                    assert(s[0] == '`');
                    let t = s.skip(1);
                    if t.len() >= 3 && t.take(3) == f {
                        assert(s.take(3) =~= f);
                    }
                    lemma_remove_fence_first(t, f);
                    assert(rec[0] == s[1]);
                    assert(s[1] == '`');
                    if s[2] == '`' {
                        assert(s.take(3) =~= f);
                    }
                    let u = s.skip(2);
                    assert(s[2] != '`');
                    if t.len() < 3 {
                        assert(rec == t);
                        assert(rec[1] == s[2]);
                    } else {
                        assert(t.take(3)[0] == t[0]);
                        assert(t.take(3)[1] == s[2]);
                        assert(t.take(3) != f);
                        assert(t.skip(1) =~= u);
                        assert(rec == seq![t[0]] + replace_all(u, f, e));
                        assert(u[0] == s[2]);
                        if u.len() >= 3 {
                            assert(u.take(3)[0] == s[2]);
                        }
                        lemma_remove_fence_first(u, f);
                        assert(rec[1] == s[2]);
                    }
                }
            }
        }
    }
}

/// Trimming at the start keeps a pattern absent.
pub proof fn lemma_trim_start_absent(s: Seq<char>, p: Seq<char>)
    requires
        !contains(s, p),
    ensures
        !contains(trim_start(s), p),
    decreases s.len(),
{
    if s.len() > 0 && is_ws(s[0]) {
        assert forall|i: int| !occurs_at(s.drop_first(), p, i) by {
            if occurs_at(s.drop_first(), p, i) {
                assert(s.subrange(i + 1, i + 1 + p.len()) =~= s.drop_first().subrange(i, i + p.len()));
                assert(occurs_at(s, p, i + 1));
            }
        }
        lemma_trim_start_absent(s.drop_first(), p);
    }
}

/// Trimming at the end keeps a pattern absent.
pub proof fn lemma_trim_end_absent(s: Seq<char>, p: Seq<char>)
    requires
        !contains(s, p),
    ensures
        !contains(trim_end(s), p),
    decreases s.len(),
{
    if s.len() > 0 && is_ws(s.last()) {
        assert forall|i: int| !occurs_at(s.drop_last(), p, i) by {
            if occurs_at(s.drop_last(), p, i) {
                assert(s.subrange(i, i + p.len()) =~= s.drop_last().subrange(i, i + p.len()));
                assert(occurs_at(s, p, i));
            }
        }
        lemma_trim_end_absent(s.drop_last(), p);
    }
}

/// What `trim_start` keeps starts with a visible character.
pub proof fn lemma_trim_start_visible(s: Seq<char>)
    ensures
        trim_start(s).len() > 0 ==> !is_ws(trim_start(s)[0]),
    decreases s.len(),
{
    if s.len() > 0 && is_ws(s[0]) {
        lemma_trim_start_visible(s.drop_first());
    }
}

/// `trim_end` keeps a visible first character, and what it keeps ends with a
/// visible character.
pub proof fn lemma_trim_end_visible(s: Seq<char>)
    ensures
        trim_end(s).len() > 0 ==> !is_ws(trim_end(s).last()),
        s.len() > 0 && !is_ws(s[0]) ==> trim_end(s).len() > 0 && trim_end(s)[0] == s[0],
    decreases s.len(),
{
    if s.len() > 0 && is_ws(s.last()) {
        lemma_trim_end_visible(s.drop_last());
    }
}

/// A trimmed text is empty or starts and ends with visible characters, and
/// trimming it again changes nothing.
pub proof fn lemma_trim_settles(s: Seq<char>)
    ensures
        trim(s).len() > 0 ==> !is_ws(trim(s)[0]) && !is_ws(trim(s).last()),
        trim(trim(s)) == trim(s),
{
    lemma_trim_start_visible(s);
    lemma_trim_end_visible(trim_start(s));
    let t = trim(s);
    if t.len() > 0 {
        assert(trim_start(t) == t);
        assert(trim_end(t) == t);
    }
}

/// The result of replacing every non-overlapping occurrence of `pat`,
/// scanning from the left, by `rep` (the meaning of std's `str::replace`
/// for a non-empty pattern).
pub open spec fn replace_all(s: Seq<char>, pat: Seq<char>, rep: Seq<char>) -> Seq<char>
    decreases s.len(),
{
    if pat.len() == 0 || s.len() < pat.len() {
        s
    } else if s.take(pat.len() as int) == pat {
        rep + replace_all(s.skip(pat.len() as int), pat, rep)
    } else {
        seq![s[0]] + replace_all(s.skip(1), pat, rep)
    }
}

/// Unicode `White_Space` (the property tested by std's `char::is_whitespace`).
pub open spec fn is_ws(c: char) -> bool {
    let u = c as u32;
    ||| (0x09 <= u && u <= 0x0d)
    ||| u == 0x20
    ||| u == 0x85
    ||| u == 0xa0
    ||| u == 0x1680
    ||| (0x2000 <= u && u <= 0x200a)
    ||| u == 0x2028
    ||| u == 0x2029
    ||| u == 0x202f
    ||| u == 0x205f
    ||| u == 0x3000
}

/// `s` without its leading whitespace.
pub open spec fn trim_start(s: Seq<char>) -> Seq<char>
    decreases s.len(),
{
    if s.len() > 0 && is_ws(s[0]) {
        trim_start(s.drop_first())
    } else {
        s
    }
}

/// `s` without its trailing whitespace.
pub open spec fn trim_end(s: Seq<char>) -> Seq<char>
    decreases s.len(),
{
    if s.len() > 0 && is_ws(s.last()) {
        trim_end(s.drop_last())
    } else {
        s
    }
}

/// `s` without leading and trailing whitespace (std's `str::trim`).
pub open spec fn trim(s: Seq<char>) -> Seq<char> {
    trim_end(trim_start(s))
}

/// `s` is empty once trimmed.
pub open spec fn is_blank(s: Seq<char>) -> bool {
    trim(s).len() == 0
}

/// ASCII lower-casing of one character.
pub open spec fn ascii_lower(c: char) -> char {
    if 'A' <= c && c <= 'Z' {
        ((c as u32) + 32) as char
    } else {
        c
    }
}

/// ASCII lower-casing of a sequence (std's `str::to_ascii_lowercase`).
pub open spec fn ascii_lower_seq(s: Seq<char>) -> Seq<char> {
    s.map_values(|c: char| ascii_lower(c))
}

/// `s` with every trailing `c` removed (std's `trim_end_matches` on a char).
pub open spec fn trim_end_char(s: Seq<char>, c: char) -> Seq<char>
    decreases s.len(),
{
    if s.len() > 0 && s.last() == c {
        trim_end_char(s.drop_last(), c)
    } else {
        s
    }
}

/// The decimal digit for `d < 10`.
pub open spec fn digit_char(d: nat) -> char {
    if d == 0 { '0' }
    else if d == 1 { '1' }
    else if d == 2 { '2' }
    else if d == 3 { '3' }
    else if d == 4 { '4' }
    else if d == 5 { '5' }
    else if d == 6 { '6' }
    else if d == 7 { '7' }
    else if d == 8 { '8' }
    else { '9' }
}

/// The decimal representation of `n`, without leading zeros.
pub open spec fn decimal(n: nat) -> Seq<char>
    decreases n,
{
    if n < 10 {
        seq![digit_char(n)]
    } else {
        decimal(n / 10).push(digit_char(n % 10))
    }
}

/// The sequences of `parts`, joined by `sep`.
pub open spec fn join(parts: Seq<Seq<char>>, sep: Seq<char>) -> Seq<char>
    decreases parts.len(),
{
    if parts.len() == 0 {
        Seq::empty()
    } else if parts.len() == 1 {
        parts[0]
    } else {
        join(parts.drop_last(), sep) + sep + parts.last()
    }
}

// ---------------------------------------------------------------------------
// Executable operations
// ---------------------------------------------------------------------------

/// Appends one character to a `String` (std `String::push`).
/// Claimed: the new contents are the old contents followed by `c`.
#[verifier::external_body]
pub(crate) fn push_char(s: &mut String, c: char)
    ensures
        final(s)@ == old(s)@.push(c),
{
    s.push(c);
}

/// The characters of a string slice, in order.
pub fn chars_of(s: &str) -> (v: Vec<char>)
    ensures
        v@ == s@,
{
    let mut v: Vec<char> = Vec::new();
    for c in it: s.chars()
        invariant
            v@ == it.seq().take(it.index() as int),
            it.seq() == s@,
    {
        v.push(c);
    }
    v
}

/// A `String` holding exactly the given characters.
pub fn string_from_chars(v: &[char]) -> (s: String)
    ensures
        s@ == v@,
{
    let mut s = String::new();
    let n = v.len();
    for i in 0..n
        invariant
            n == v@.len(),
            s@ == v@.take(i as int),
    {
        push_char(&mut s, v[i]);
        assert(v@.take(i + 1) == v@.take(i as int).push(v@[i as int]));
    }
    assert(v@.take(n as int) == v@);
    s
}

/// Owned copy of a string slice.
pub fn owned(s: &str) -> (r: String)
    ensures
        r@ == s@,
{
    String::from_str(s)
}

/// Concatenation of two string slices.
pub fn concat2(a: &str, b: &str) -> (r: String)
    ensures
        r@ == a@ + b@,
{
    let mut r = String::from_str(a);
    r.append(b);
    r
}

/// Concatenation of three string slices.
pub fn concat3(a: &str, b: &str, c: &str) -> (r: String)
    ensures
        r@ == a@ + b@ + c@,
{
    let mut r = String::from_str(a);
    r.append(b);
    r.append(c);
    r
}

/// Equality of two character slices.
pub fn chars_eq(a: &[char], b: &[char]) -> (r: bool)
    ensures
        r == (a@ == b@),
{
    if a.len() != b.len() {
        return false;
    }
    let n = a.len();
    for i in 0..n
        invariant
            n == a@.len(),
            n == b@.len(),
            forall|j: int| 0 <= j < i ==> a@[j] == b@[j],
    {
        if a[i] != b[i] {
            return false;
        }
    }
    assert(a@ =~= b@);
    true
}

/// Equality of two string slices.
pub fn str_eq(a: &str, b: &str) -> (r: bool)
    ensures
        r == (a@ == b@),
{
    let va = chars_of(a);
    let vb = chars_of(b);
    chars_eq(va.as_slice(), vb.as_slice())
}

/// Whether `p` occurs in `s` at index `i`.
pub fn occurs_at_exec(s: &[char], p: &[char], i: usize) -> (r: bool)
    ensures
        r == occurs_at(s@, p@, i as int),
{
    if i > s.len() || p.len() > s.len() - i {
        return false;
    }
    let n = p.len();
    for k in 0..n
        invariant
            n == p@.len(),
            i + n <= s@.len(),
            i + n <= s.len(),
            forall|j: int| 0 <= j < k ==> s@[i + j] == p@[j],
    {
        if s[i + k] != p[k] {
            assert(s@.subrange(i as int, i + n)[k as int] != p@[k as int]);
            return false;
        }
    }
    assert(s@.subrange(i as int, i + n) =~= p@);
    true
}

/// The first index `>= from` at which `p` occurs in `s`.
pub fn find_from_exec(s: &[char], p: &[char], from: usize) -> (r: Option<usize>)
    ensures
        r matches Some(k) ==> find_from(s@, p@, from as int) == Some(k as int),
        r is None ==> find_from(s@, p@, from as int) is None,
{
    let mut i = from;
    while i <= s.len()
        invariant
            from <= i,
            find_from(s@, p@, from as int) == find_from(s@, p@, i as int),
        decreases s.len() + 1 - i,
    {
        if p.len() > s.len() - i {
            return None;
        }
        if occurs_at_exec(s, p, i) {
            return Some(i);
        }
        if i == s.len() {
            assert(s@.subrange(i as int, i as int) =~= p@);
            assert(occurs_at(s@, p@, i as int));
            return None;
        }
        i = i + 1;
    }
    assert(find_from(s@, p@, i as int) is None);
    None
}

/// Whether `p` occurs in `s`.
pub fn contains_exec(s: &[char], p: &[char]) -> (r: bool)
    ensures
        r == contains(s@, p@),
{
    let mut i: usize = 0;
    while i <= s.len()
        invariant_except_break
            forall|j: int| 0 <= j < i ==> !occurs_at(s@, p@, j),
        ensures
            forall|j: int| 0 <= j <= s@.len() ==> !occurs_at(s@, p@, j),
        decreases s.len() + 1 - i,
    {
        if occurs_at_exec(s, p, i) {
            return true;
        }
        if i == s.len() {
            break;
        }
        i = i + 1;
    }
    false
}

/// Whether the string `s` contains the string `p`.
pub fn str_contains(s: &str, p: &str) -> (r: bool)
    ensures
        r == contains(s@, p@),
{
    let vs = chars_of(s);
    let vp = chars_of(p);
    contains_exec(vs.as_slice(), vp.as_slice())
}

/// Whether `c` is Unicode white space.
pub fn is_ws_exec(c: char) -> (r: bool)
    ensures
        r == is_ws(c),
{
    let u = c as u32;
    (0x09 <= u && u <= 0x0d) || u == 0x20 || u == 0x85 || u == 0xa0 || u == 0x1680
        || (0x2000 <= u && u <= 0x200a) || u == 0x2028 || u == 0x2029 || u == 0x202f
        || u == 0x205f || u == 0x3000
}

/// Copy of `s[lo..hi]`.
pub fn slice_copy(s: &[char], lo: usize, hi: usize) -> (r: Vec<char>)
    requires
        lo <= hi <= s@.len(),
    ensures
        r@ == s@.subrange(lo as int, hi as int),
{
    let mut r: Vec<char> = Vec::new();
    let mut i = lo;
    while i < hi
        invariant
            lo <= i <= hi <= s@.len(),
            r@ == s@.subrange(lo as int, i as int),
        decreases hi - i,
    {
        r.push(s[i]);
        assert(s@.subrange(lo as int, i + 1) =~= s@.subrange(lo as int, i as int).push(s@[i as int]));
        i = i + 1;
    }
    r
}

/// Appends all of `b` to `out`.
pub fn extend_chars(out: &mut Vec<char>, b: &[char])
    ensures
        final(out)@ == old(out)@ + b@,
{
    let n = b.len();
    for i in 0..n
        invariant
            n == b@.len(),
            out@ == old(out)@ + b@.take(i as int),
    {
        out.push(b[i]);
        assert(b@.take(i + 1) =~= b@.take(i as int).push(b@[i as int]));
    }
    assert(b@.take(n as int) =~= b@);
}

/// `s` with leading and trailing white space removed.
pub fn trim_exec(s: &[char]) -> (r: Vec<char>)
    ensures
        r@ == trim(s@),
{
    let mut start: usize = 0;
    assert(s@.skip(0) =~= s@);
    while start < s.len() && is_ws_exec(s[start])
        invariant
            start <= s@.len(),
            trim_start(s@) == trim_start(s@.skip(start as int)),
        decreases s@.len() - start,
    {
        assert(s@.skip(start as int).drop_first() =~= s@.skip(start + 1));
        start = start + 1;
    }
    assert(trim_start(s@) == s@.skip(start as int));
    let mut end: usize = s.len();
    assert(s@.skip(start as int) =~= s@.subrange(start as int, end as int));
    while end > start && is_ws_exec(s[end - 1])
        invariant
            start <= end <= s@.len(),
            trim(s@) == trim_end(s@.subrange(start as int, end as int)),
        decreases end,
    {
        assert(s@.subrange(start as int, end as int).drop_last() =~= s@.subrange(start as int, end - 1));
        end = end - 1;
    }
    slice_copy(s, start, end)
}

/// Whether `s` is empty once trimmed.
pub fn is_blank_exec(s: &str) -> (r: bool)
    ensures
        r == is_blank(s@),
{
    let v = chars_of(s);
    let t = trim_exec(v.as_slice());
    t.len() == 0
}

/// `s` with every non-overlapping occurrence of the non-empty `pat` replaced
/// by `rep`.
pub fn replace_all_exec(s: &[char], pat: &[char], rep: &[char]) -> (r: Vec<char>)
    requires
        pat@.len() > 0,
    ensures
        r@ == replace_all(s@, pat@, rep@),
{
    let mut out: Vec<char> = Vec::new();
    let mut i: usize = 0;
    assert(s@.skip(0) =~= s@);
    assert(out@ + replace_all(s@, pat@, rep@) =~= replace_all(s@, pat@, rep@));
    while i < s.len()
        invariant
            i <= s@.len(),
            pat@.len() > 0,
            out@ + replace_all(s@.skip(i as int), pat@, rep@) == replace_all(s@, pat@, rep@),
        decreases s@.len() - i,
    {
        let ghost rest = s@.skip(i as int);
        if pat.len() <= s.len() - i && occurs_at_exec(s, pat, i) {
            assert(rest.take(pat@.len() as int) =~= s@.subrange(i as int, i + pat@.len()));
            assert(rest.skip(pat@.len() as int) =~= s@.skip(i + pat@.len()));
            extend_chars(&mut out, rep);
            i = i + pat.len();
        } else {
            proof {
                if rest.len() >= pat@.len() {
                    assert(rest.take(pat@.len() as int) =~= s@.subrange(i as int, i + pat@.len()));
                }
                assert(rest.skip(1) =~= s@.skip(i + 1));
                assert(rest =~= seq![rest[0]] + rest.skip(1));
                if rest.len() < pat@.len() {
                    assert(replace_all(rest, pat@, rep@) == rest);
                    assert(replace_all(rest.skip(1), pat@, rep@) == rest.skip(1));
                }
            }
            out.push(s[i]);
            i = i + 1;
        }
    }
    assert(s@.skip(i as int) =~= Seq::<char>::empty());
    out
}

/// Whether `s` ends with `p`.
pub fn ends_with_exec(s: &[char], p: &[char]) -> (r: bool)
    ensures
        r == ends_with(s@, p@),
{
    if p.len() > s.len() {
        return false;
    }
    let start = s.len() - p.len();
    let r = occurs_at_exec(s, p, start);
    r
}

/// ASCII lower-casing of one character.
pub fn ascii_lower_exec(c: char) -> (r: char)
    ensures
        r == ascii_lower(c),
{
    match c {
        'A' => 'a',
        'B' => 'b',
        'C' => 'c',
        'D' => 'd',
        'E' => 'e',
        'F' => 'f',
        'G' => 'g',
        'H' => 'h',
        'I' => 'i',
        'J' => 'j',
        'K' => 'k',
        'L' => 'l',
        'M' => 'm',
        'N' => 'n',
        'O' => 'o',
        'P' => 'p',
        'Q' => 'q',
        'R' => 'r',
        'S' => 's',
        'T' => 't',
        'U' => 'u',
        'V' => 'v',
        'W' => 'w',
        'X' => 'x',
        'Y' => 'y',
        'Z' => 'z',
        _ => c,
    }
}

/// ASCII lower-casing of a character slice.
pub fn ascii_lower_chars(s: &[char]) -> (r: Vec<char>)
    ensures
        r@ == ascii_lower_seq(s@),
{
    let mut r: Vec<char> = Vec::new();
    let n = s.len();
    for i in 0..n
        invariant
            n == s@.len(),
            r@ == ascii_lower_seq(s@.take(i as int)),
    {
        r.push(ascii_lower_exec(s[i]));
        assert(ascii_lower_seq(s@.take(i + 1)) =~= ascii_lower_seq(s@.take(i as int)).push(
            ascii_lower(s@[i as int]),
        ));
    }
    assert(s@.take(n as int) =~= s@);
    r
}

/// `s` without trailing occurrences of `c`.
pub fn trim_end_char_exec(s: &[char], c: char) -> (r: Vec<char>)
    ensures
        r@ == trim_end_char(s@, c),
{
    let mut end = s.len();
    assert(s@.take(end as int) =~= s@);
    while end > 0 && s[end - 1] == c
        invariant
            end <= s@.len(),
            trim_end_char(s@, c) == trim_end_char(s@.take(end as int), c),
        decreases end,
    {
        assert(s@.take(end as int).drop_last() =~= s@.take(end - 1));
        end = end - 1;
    }
    slice_copy(s, 0, end)
}

/// The decimal digit character for `d < 10`.
pub fn digit_char_exec(d: usize) -> (c: char)
    requires
        d < 10,
    ensures
        c == digit_char(d as nat),
{
    match d {
        0 => '0',
        1 => '1',
        2 => '2',
        3 => '3',
        4 => '4',
        5 => '5',
        6 => '6',
        7 => '7',
        8 => '8',
        _ => '9',
    }
}

/// Appends the decimal representation of `n` to `s`.
pub fn push_decimal(s: &mut String, n: usize)
    ensures
        final(s)@ == old(s)@ + decimal(n as nat),
    decreases n,
{
    if n >= 10 {
        push_decimal(s, n / 10);
    }
    push_char(s, digit_char_exec(n % 10));
    assert(old(s)@ + decimal(n as nat) =~= if n >= 10 {
        old(s)@ + decimal((n / 10) as nat) + seq![digit_char((n % 10) as nat)]
    } else {
        old(s)@.push(digit_char(n as nat))
    });
}

/// The strings of `parts`, joined by `sep`.
pub fn join_exec(parts: &Vec<String>, sep: &str) -> (r: String)
    ensures
        r@ == join(parts@.map_values(|p: String| p@), sep@),
{
    let mut r = String::new();
    let ghost views = parts@.map_values(|p: String| p@);
    let n = parts.len();
    for i in 0..n
        invariant
            n == parts@.len(),
            views == parts@.map_values(|p: String| p@),
            r@ == join(views.take(i as int), sep@),
    {
        assert(views.take(i + 1).drop_last() =~= views.take(i as int));
        if i != 0 {
            r.append(sep);
        } else {
            assert(join(views.take(i as int), sep@) =~= Seq::<char>::empty());
        }
        r.append(parts[i].as_str());
    }
    assert(views.take(n as int) =~= views);
    r
}

} // verus!
