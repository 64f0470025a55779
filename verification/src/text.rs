//! Character-level helpers on strings, stated over `Seq<char>`.

use vstd::prelude::*;

verus! {

/// `String::push` appends one character to the end of the string.
pub assume_specification[ String::push ](s: &mut String, ch: char)
    ensures
        final(s)@ == old(s)@.push(ch),
;

/// The characters of a string slice, collected into a vector.
pub fn chars_of(s: &str) -> (v: Vec<char>)
    ensures
        v@ == s@,
{
    broadcast use vstd::string::group_string_axioms;
    let mut v: Vec<char> = Vec::new();
    for c in it: s.chars()
        invariant
            it.seq() == s@,
            v@ == it.seq().take(it.index() as int),
    {
        v.push(c);
    }
    v
}

/// A string holding exactly the given characters.
pub fn string_from_chars(v: &[char]) -> (s: String)
    ensures
        s@ == v@,
{
    let mut s = String::new();
    let mut i: usize = 0;
    while i < v.len()
        invariant
            i <= v@.len(),
            s@ == v@.take(i as int),
        decreases v@.len() - i,
    {
        s.push(v[i]);
        i = i + 1;
        assert(v@.take(i as int) =~= v@.take(i - 1 as int).push(v@[i - 1 as int]));
    }
    assert(v@.take(v@.len() as int) =~= v@);
    s
}

/// Appends the characters of `t` to `s`.
pub fn push_all(s: &mut String, t: &str)
    ensures
        final(s)@ == old(s)@ + t@,
{
    let cs = chars_of(t);
    let mut i: usize = 0;
    while i < cs.len()
        invariant
            i <= cs@.len(),
            cs@ == t@,
            s@ == old(s)@ + cs@.take(i as int),
        decreases cs@.len() - i,
    {
        s.push(cs[i]);
        i = i + 1;
        assert(cs@.take(i as int) =~= cs@.take(i - 1 as int).push(cs@[i - 1 as int]));
    }
    assert(cs@.take(cs@.len() as int) =~= cs@);
}

/// Whether two character sequences are equal.
pub fn chars_eq(a: &[char], b: &[char]) -> (r: bool)
    ensures
        r == (a@ == b@),
{
    if a.len() != b.len() {
        return false;
    }
    let mut i: usize = 0;
    while i < a.len()
        invariant
            i <= a@.len(),
            a@.len() == b@.len(),
            forall|j: int| 0 <= j < i ==> a@[j] == b@[j],
        decreases a@.len() - i,
    {
        if a[i] != b[i] {
            return false;
        }
        i = i + 1;
    }
    assert(a@ =~= b@);
    true
}

/// Whether two string slices hold the same characters.
pub fn str_eq(a: &str, b: &str) -> (r: bool)
    ensures
        r == (a@ == b@),
{
    let x = chars_of(a);
    let y = chars_of(b);
    chars_eq(x.as_slice(), y.as_slice())
}

/// The ASCII lowercase of a byte, as `u8::to_ascii_lowercase` computes it.
pub open spec fn ascii_lower_byte(b: u8) -> u8 {
    if 65 <= b <= 90 {
        (b + 32) as u8
    } else {
        b
    }
}

/// The ASCII case-insensitive equality of two byte sequences, as
/// `str::eq_ignore_ascii_case` defines it on the strings' UTF-8 bytes.
pub open spec fn eq_ignore_ascii_case_bytes(a: Seq<u8>, b: Seq<u8>) -> bool {
    &&& a.len() == b.len()
    &&& forall|i: int| 0 <= i < a.len() ==> ascii_lower_byte(a[i]) == ascii_lower_byte(b[i])
}

/// ASCII case-insensitive comparison of two string slices.
pub fn eq_ignore_ascii_case(a: &str, b: &str) -> (r: bool)
    ensures
        r == eq_ignore_ascii_case_bytes(vstd::utf8::encode_utf8(a@), vstd::utf8::encode_utf8(b@)),
{
    let x = a.as_bytes();
    let y = b.as_bytes();
    if x.len() != y.len() {
        return false;
    }
    let mut i: usize = 0;
    while i < x.len()
        invariant
            i <= x@.len(),
            x@ == vstd::utf8::encode_utf8(a@),
            y@ == vstd::utf8::encode_utf8(b@),
            x@.len() == y@.len(),
            forall|j: int| 0 <= j < i ==> ascii_lower_byte(x@[j]) == ascii_lower_byte(y@[j]),
        decreases x@.len() - i,
    {
        let p = x[i];
        let q = y[i];
        let lp: u8 = if 65 <= p && p <= 90 { p + 32 } else { p };
        let lq: u8 = if 65 <= q && q <= 90 { q + 32 } else { q };
        if lp != lq {
            return false;
        }
        i = i + 1;
    }
    true
}

} // verus!

verus! {

/// The characters that phone-number comparison ignores: space, dash and parentheses.
pub open spec fn is_separator(c: char) -> bool {
    c == ' ' || c == '-' || c == '(' || c == ')'
}

/// `s` with every separator character removed, as `str::replace([' ', '-', '(', ')'], "")`
/// computes it.
pub open spec fn without_separators(s: Seq<char>) -> Seq<char>
    decreases s.len(),
{
    if s.len() == 0 {
        s
    } else {
        let r = without_separators(s.drop_last());
        if is_separator(s.last()) {
            r
        } else {
            r.push(s.last())
        }
    }
}

/// Removes the separator characters from a string.
pub fn remove_separators(s: &str) -> (r: Vec<char>)
    ensures
        r@ == without_separators(s@),
{
    let cs = chars_of(s);
    let mut r: Vec<char> = Vec::new();
    let mut i: usize = 0;
    while i < cs.len()
        invariant
            i <= cs@.len(),
            cs@ == s@,
            r@ == without_separators(cs@.take(i as int)),
        decreases cs@.len() - i,
    {
        let c = cs[i];
        assert(cs@.take(i + 1 as int).drop_last() =~= cs@.take(i as int));
        if !(c == ' ' || c == '-' || c == '(' || c == ')') {
            r.push(c);
        }
        i = i + 1;
    }
    assert(cs@.take(cs@.len() as int) =~= cs@);
    r
}

/// Removing separators twice removes nothing more.
pub proof fn lemma_without_separators_idempotent(s: Seq<char>)
    ensures
        without_separators(without_separators(s)) == without_separators(s),
    decreases s.len(),
{
    if s.len() > 0 {
        lemma_without_separators_idempotent(s.drop_last());
        let r = without_separators(s.drop_last());
        if !is_separator(s.last()) {
            assert(r.push(s.last()).drop_last() =~= r);
        }
    }
}

} // verus!

verus! {

/// Unicode's `White_Space` property, which `char::is_whitespace` and `str::trim` use.
pub open spec fn is_whitespace(c: char) -> bool {
    let u = c as u32;
    (9 <= u <= 13) || u == 32 || u == 0x85 || u == 0xa0 || u == 0x1680 || (0x2000 <= u <= 0x200a)
        || u == 0x2028 || u == 0x2029 || u == 0x202f || u == 0x205f || u == 0x3000
}

fn char_is_whitespace(c: char) -> (r: bool)
    ensures
        r == is_whitespace(c),
{
    let u = c as u32;
    (9 <= u && u <= 13) || u == 32 || u == 0x85 || u == 0xa0 || u == 0x1680 || (0x2000 <= u && u <= 0x200a)
        || u == 0x2028 || u == 0x2029 || u == 0x202f || u == 0x205f || u == 0x3000
}

/// `s` without its leading whitespace.
pub open spec fn trim_start(s: Seq<char>) -> Seq<char>
    decreases s.len(),
{
    if s.len() > 0 && is_whitespace(s[0]) {
        trim_start(s.drop_first())
    } else {
        s
    }
}

/// `s` without its trailing whitespace.
pub open spec fn trim_end(s: Seq<char>) -> Seq<char>
    decreases s.len(),
{
    if s.len() > 0 && is_whitespace(s.last()) {
        trim_end(s.drop_last())
    } else {
        s
    }
}

/// `s` without leading and trailing whitespace, as `str::trim` returns it.
pub open spec fn trim(s: Seq<char>) -> Seq<char> {
    trim_end(trim_start(s))
}

/// A trimmed sequence is a contiguous part of the untrimmed one.
pub proof fn lemma_trim_is_subrange(s: Seq<char>)
    ensures
        exists|i: int, j: int| 0 <= i <= j <= s.len() && #[trigger] s.subrange(i, j) == trim(s),
{
    let (i, j) = lemma_trim_bounds(s);
    assert(s.subrange(i, j) == trim(s));
}

proof fn lemma_trim_start_bounds(s: Seq<char>) -> (i: int)
    ensures
        0 <= i <= s.len(),
        trim_start(s) == s.subrange(i, s.len() as int),
    decreases s.len(),
{
    if s.len() > 0 && is_whitespace(s[0]) {
        let k = lemma_trim_start_bounds(s.drop_first());
        assert(s.drop_first().subrange(k, s.drop_first().len() as int) =~= s.subrange(k + 1, s.len() as int));
        k + 1
    } else {
        assert(s.subrange(0, s.len() as int) =~= s);
        0
    }
}

proof fn lemma_trim_end_bounds(s: Seq<char>) -> (j: int)
    ensures
        0 <= j <= s.len(),
        trim_end(s) == s.subrange(0, j),
    decreases s.len(),
{
    if s.len() > 0 && is_whitespace(s.last()) {
        let k = lemma_trim_end_bounds(s.drop_last());
        assert(s.drop_last().subrange(0, k) =~= s.subrange(0, k));
        k
    } else {
        assert(s.subrange(0, s.len() as int) =~= s);
        s.len() as int
    }
}

proof fn lemma_trim_bounds(s: Seq<char>) -> (r: (int, int))
    ensures
        0 <= r.0 <= r.1 <= s.len(),
        trim(s) == s.subrange(r.0, r.1),
{
    let i = lemma_trim_start_bounds(s);
    let t = s.subrange(i, s.len() as int);
    let j = lemma_trim_end_bounds(t);
    assert(t.subrange(0, j) =~= s.subrange(i, i + j));
    (i, i + j)
}

/// The string without leading and trailing whitespace.
pub fn trim_str(s: &str) -> (r: String)
    ensures
        r@ == trim(s@),
{
    let cs = chars_of(s);
    let n = cs.len();
    let mut lo: usize = 0;
    assert(cs@.subrange(0, n as int) =~= cs@);
    while lo < n && char_is_whitespace(cs[lo])
        invariant
            n == cs@.len(),
            cs@ == s@,
            lo <= n,
            trim_start(s@) == trim_start(cs@.subrange(lo as int, n as int)),
        decreases n - lo,
    {
        assert(cs@.subrange(lo as int, n as int).drop_first() =~= cs@.subrange(lo + 1, n as int));
        lo = lo + 1;
    }
    assert(trim_start(cs@.subrange(lo as int, n as int)) == cs@.subrange(lo as int, n as int));
    let mut hi: usize = n;
    while hi > lo && char_is_whitespace(cs[hi - 1])
        invariant
            n == cs@.len(),
            cs@ == s@,
            lo <= hi <= n,
            trim(s@) == trim_end(cs@.subrange(lo as int, hi as int)),
        decreases hi - lo,
    {
        assert(cs@.subrange(lo as int, hi as int).drop_last() =~= cs@.subrange(lo as int, hi - 1));
        hi = hi - 1;
    }
    assert(trim_end(cs@.subrange(lo as int, hi as int)) == cs@.subrange(lo as int, hi as int));
    let mut out = String::new();
    let mut k: usize = lo;
    while k < hi
        invariant
            n == cs@.len(),
            lo <= k <= hi <= n,
            out@ == cs@.subrange(lo as int, k as int),
        decreases hi - k,
    {
        out.push(cs[k]);
        k = k + 1;
        assert(cs@.subrange(lo as int, k as int) =~= cs@.subrange(lo as int, k - 1).push(cs@[k - 1]));
    }
    out
}

/// Whether `n` occurs in `h` starting at position `i`.
pub open spec fn occurs_at(h: Seq<char>, n: Seq<char>, i: int) -> bool {
    0 <= i && i + n.len() <= h.len() && h.subrange(i, i + n.len()) == n
}

/// Whether `n` occurs somewhere in `h`, as `str::contains` with a string pattern decides.
pub open spec fn contains_chars(h: Seq<char>, n: Seq<char>) -> bool {
    exists|i: int| occurs_at(h, n, i)
}

/// Whether `p` is a prefix of `s`.
pub open spec fn starts_with_chars(s: Seq<char>, p: Seq<char>) -> bool {
    p.len() <= s.len() && s.subrange(0, p.len() as int) == p
}

fn occurs_at_exec(h: &[char], n: &[char], i: usize) -> (r: bool)
    requires
        i + n.len() <= h.len(),
    ensures
        r == occurs_at(h@, n@, i as int),
{
    let mut k: usize = 0;
    while k < n.len()
        invariant
            i + n.len() <= h.len(),
            k <= n@.len(),
            forall|m: int| 0 <= m < k ==> h@[i + m] == n@[m],
        decreases n@.len() - k,
    {
        if h[i + k] != n[k] {
            assert(h@.subrange(i as int, i + n@.len())[k as int] != n@[k as int]);
            return false;
        }
        k = k + 1;
    }
    assert(h@.subrange(i as int, i + n@.len()) =~= n@);
    true
}

/// Whether `n` occurs in `h`.
pub fn contains(h: &[char], n: &[char]) -> (r: bool)
    ensures
        r == contains_chars(h@, n@),
{
    if n.len() > h.len() {
        return false;
    }
    if n.len() == 0 {
        assert(h@.subrange(0, 0) =~= n@);
        assert(occurs_at(h@, n@, 0));
        return true;
    }
    let last = h.len() - n.len();
    let mut i: usize = 0;
    while i <= last
        invariant
            last + n.len() == h.len(),
            n.len() > 0,
            forall|j: int| 0 <= j < i ==> !occurs_at(h@, n@, j),
        decreases last + 1 - i,
    {
        if occurs_at_exec(h, n, i) {
            return true;
        }
        i = i + 1;
    }
    assert forall|j: int| !occurs_at(h@, n@, j) by {
        if 0 <= j && j + n@.len() <= h@.len() {
            assert(j < i);
        }
    }
    false
}

} // verus!

verus! {

/// An owned copy of a string slice.
pub fn owned(s: &str) -> (r: String)
    ensures
        r@ == s@,
{
    string_from_chars(chars_of(s).as_slice())
}

} // verus!

verus! {

/// The decimal digit character for `d` (below 10).
pub open spec fn digit_char(d: nat) -> char {
    (48 + d) as char
}

/// The decimal digits of `n`, without leading zeros.
pub open spec fn digits_of(n: nat) -> Seq<char>
    decreases n,
{
    if n < 10 {
        seq![digit_char(n)]
    } else {
        digits_of(n / 10).push(digit_char(n % 10))
    }
}

/// The decimal text of `i`, as `Display` writes an integer.
pub open spec fn decimal(i: int) -> Seq<char> {
    if i < 0 {
        seq!['-'] + digits_of((-i) as nat)
    } else {
        digits_of(i as nat)
    }
}

fn digits(n: u64) -> (v: Vec<char>)
    ensures
        v@ == digits_of(n as nat),
    decreases n,
{
    let d = (48 + (n % 10) as u8) as char;
    if n < 10 {
        let mut v: Vec<char> = Vec::new();
        v.push(d);
        v
    } else {
        let mut v = digits(n / 10);
        v.push(d);
        v
    }
}

/// The decimal text of a signed integer.
pub fn i64_to_decimal(i: i64) -> (r: String)
    ensures
        r@ == decimal(i as int),
{
    if i < 0 {
        let magnitude: u64 = if i == i64::MIN { 9223372036854775808u64 } else { (-i) as u64 };
        let mut r = String::new();
        r.push('-');
        let ds = digits(magnitude);
        let rest = string_from_chars(ds.as_slice());
        push_all(&mut r, rest.as_str());
        r
    } else {
        let ds = digits(i as u64);
        string_from_chars(ds.as_slice())
    }
}

} // verus!

verus! {

/// The number of bytes UTF-8 takes for `c`.
pub open spec fn char_utf8_len(c: char) -> nat {
    let u = c as u32;
    if u < 0x80 {
        1
    } else if u < 0x800 {
        2
    } else if u < 0x10000 {
        3
    } else {
        4
    }
}

/// The number of bytes UTF-8 takes for `s`.
pub open spec fn utf8_len(s: Seq<char>) -> nat
    decreases s.len(),
{
    if s.len() == 0 {
        0
    } else {
        utf8_len(s.drop_last()) + char_utf8_len(s.last())
    }
}

/// Whether the first `k` characters of `s` are its longest prefix of at most `n` bytes.
pub open spec fn is_byte_cut(s: Seq<char>, n: nat, k: int) -> bool {
    &&& 0 <= k <= s.len()
    &&& utf8_len(s.take(k)) <= n
    &&& (k == s.len() || utf8_len(s.take(k + 1)) > n)
}

fn char_len(c: char) -> (r: usize)
    ensures
        r == char_utf8_len(c),
{
    let u = c as u32;
    if u < 0x80 {
        1
    } else if u < 0x800 {
        2
    } else if u < 0x10000 {
        3
    } else {
        4
    }
}

/// The UTF-8 length of `s`, capped at `cap`.
pub fn utf8_len_capped(s: &[char], cap: usize) -> (r: usize)
    ensures
        r == if utf8_len(s@) < cap { utf8_len(s@) } else { cap as nat },
{
    let mut total: usize = 0;
    let mut i: usize = 0;
    while i < s.len()
        invariant
            i <= s@.len(),
            total == if utf8_len(s@.take(i as int)) < cap { utf8_len(s@.take(i as int)) } else { cap as nat },
        decreases s@.len() - i,
    {
        assert(s@.take(i + 1 as int).drop_last() =~= s@.take(i as int));
        let l = char_len(s[i]);
        if total < cap {
            if l >= cap - total {
                total = cap;
            } else {
                total = total + l;
            }
        }
        i = i + 1;
    }
    assert(s@.take(s@.len() as int) =~= s@);
    total
}

/// The longest prefix of `s` that takes at most `n` bytes of UTF-8: the prefix that ends on
/// a character boundary at or before byte `n`.
pub fn byte_cut(s: &[char], n: usize) -> (r: Vec<char>)
    ensures
        exists|k: int| is_byte_cut(s@, n as nat, k) && #[trigger] s@.take(k) == r@,
{
    let mut used: usize = 0;
    let mut k: usize = 0;
    let mut r: Vec<char> = Vec::new();
    while k < s.len() && char_len(s[k]) <= n - used
        invariant
            k <= s@.len(),
            used <= n,
            used == utf8_len(s@.take(k as int)),
            r@ == s@.take(k as int),
        decreases s@.len() - k,
    {
        assert(s@.take(k + 1 as int).drop_last() =~= s@.take(k as int));
        used = used + char_len(s[k]);
        r.push(s[k]);
        k = k + 1;
        assert(r@ =~= s@.take(k as int));
    }
    if k < s.len() {
        assert(s@.take(k + 1 as int).drop_last() =~= s@.take(k as int));
    }
    assert(is_byte_cut(s@, n as nat, k as int));
    r
}

} // verus!
