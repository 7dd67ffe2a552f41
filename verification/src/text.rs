//! Character-level text utilities used by the parsers and classifiers.
//!
//! Everything here works on `Vec<char>` in executable code and on `Seq<char>`
//! in specifications, so that the parsers above can state exactly which
//! characters they read and which strings they produce.
use vstd::prelude::*;

verus! {

broadcast use vstd::string::group_string_axioms;

// ---------------------------------------------------------------------------
// Specifications
// ---------------------------------------------------------------------------

/// The Unicode `White_Space` property (what `char::is_whitespace` tests).
pub open spec fn is_ws(c: char) -> bool {
    let n = c as u32;
    ||| 0x09 <= n <= 0x0D
    ||| n == 0x20
    ||| n == 0x85
    ||| n == 0xA0
    ||| n == 0x1680
    ||| 0x2000 <= n <= 0x200A
    ||| n == 0x2028
    ||| n == 0x2029
    ||| n == 0x202F
    ||| n == 0x205F
    ||| n == 0x3000
}

/// `s` with its leading whitespace removed.
pub open spec fn trim_start(s: Seq<char>) -> Seq<char>
    decreases s.len(),
{
    if s.len() > 0 && is_ws(s[0]) {
        trim_start(s.drop_first())
    } else {
        s
    }
}

/// `s` with its trailing whitespace removed.
pub open spec fn trim_end(s: Seq<char>) -> Seq<char>
    decreases s.len(),
{
    if s.len() > 0 && is_ws(s.last()) {
        trim_end(s.drop_last())
    } else {
        s
    }
}

/// `s` with leading and trailing whitespace removed (`str::trim`).
pub open spec fn spec_trim(s: Seq<char>) -> Seq<char> {
    trim_end(trim_start(s))
}

/// `s` with every leading `c` removed (`str::trim_start_matches` with a char).
pub open spec fn spec_trim_start_char(s: Seq<char>, c: char) -> Seq<char>
    decreases s.len(),
{
    if s.len() > 0 && s[0] == c {
        spec_trim_start_char(s.drop_first(), c)
    } else {
        s
    }
}

/// True when `p` is a prefix of `s`.
pub open spec fn has_prefix(s: Seq<char>, p: Seq<char>) -> bool {
    p.len() <= s.len() && s.subrange(0, p.len() as int) == p
}

/// `str::strip_prefix`: the rest of `s` after `p`, when `p` is a prefix.
pub open spec fn spec_strip_prefix(s: Seq<char>, p: Seq<char>) -> Option<Seq<char>> {
    if has_prefix(s, p) {
        Some(s.subrange(p.len() as int, s.len() as int))
    } else {
        None
    }
}

/// ASCII lower-casing of one character (`char::to_ascii_lowercase`).
pub open spec fn ascii_lower(c: char) -> char {
    if 'A' <= c && c <= 'Z' {
        ((c as u32) + 32) as char
    } else {
        c
    }
}

/// `str::eq_ignore_ascii_case`.
pub open spec fn spec_eq_ignore_ascii_case(a: Seq<char>, b: Seq<char>) -> bool {
    a.len() == b.len() && forall|i: int| 0 <= i < a.len() ==> ascii_lower(#[trigger] a[i]) == ascii_lower(b[i])
}

/// `p` occurs in `s` starting at index `k`.
pub open spec fn occurs_at(s: Seq<char>, p: Seq<char>, k: int) -> bool {
    0 <= k && k + p.len() <= s.len() && s.subrange(k, k + p.len()) == p
}

/// `str::contains` with a string pattern.
pub open spec fn spec_contains(s: Seq<char>, p: Seq<char>) -> bool {
    exists|k: int| occurs_at(s, p, k)
}

/// The first index `>= k` at which `p` occurs in `s`.
pub open spec fn spec_find_from(s: Seq<char>, p: Seq<char>, k: int) -> Option<int>
    decreases s.len() + 1 - k,
{
    if k < 0 || k + p.len() > s.len() {
        None
    } else if occurs_at(s, p, k) {
        Some(k)
    } else {
        spec_find_from(s, p, k + 1)
    }
}

/// The last index `<= k` at which `p` occurs in `s`.
pub open spec fn rfind_from(s: Seq<char>, p: Seq<char>, k: int) -> Option<int>
    decreases k + 1,
{
    if k < 0 {
        None
    } else if occurs_at(s, p, k) {
        Some(k)
    } else {
        rfind_from(s, p, k - 1)
    }
}

/// The last index at which `p` occurs in `s`.
pub open spec fn spec_rfind(s: Seq<char>, p: Seq<char>) -> Option<int> {
    rfind_from(s, p, s.len() - p.len())
}

/// `str::split` with a non-empty string pattern: the pieces between
/// non-overlapping occurrences found from the left.
pub open spec fn spec_split_on(s: Seq<char>, p: Seq<char>) -> Seq<Seq<char>>
    decreases s.len(),
{
    if p.len() == 0 {
        seq![s]
    } else {
        match spec_find_from(s, p, 0) {
            Some(k) => if 0 <= k && k + p.len() <= s.len() {
                seq![s.subrange(0, k)] + spec_split_on(s.subrange(k + p.len(), s.len() as int), p)
            } else {
                seq![s]
            },
            None => seq![s],
        }
    }
}

/// The index of the first `'\n'` at or after `i`, or `s.len()` when none.
pub open spec fn next_newline(s: Seq<char>, i: int) -> int
    decreases s.len() - i,
{
    if i >= s.len() {
        s.len() as int
    } else if s[i] == '\n' {
        i
    } else {
        next_newline(s, i + 1)
    }
}

/// One line without its terminator: a `'\r'` before the `'\n'` is dropped.
pub open spec fn strip_cr(s: Seq<char>) -> Seq<char> {
    if s.len() > 0 && s.last() == '\r' {
        s.drop_last()
    } else {
        s
    }
}

/// `str::lines`: lines split at `"\n"` or `"\r\n"`; a final line ending is
/// optional and yields no empty last line.
pub open spec fn lines(s: Seq<char>) -> Seq<Seq<char>>
    decreases s.len(),
{
    if s.len() == 0 {
        seq![]
    } else {
        let k = next_newline(s, 0);
        if 0 <= k < s.len() {
            seq![strip_cr(s.subrange(0, k))] + lines(s.subrange(k + 1, s.len() as int))
        } else {
            seq![s]
        }
    }
}

/// The index of the first whitespace character at or after `i`, if any.
pub open spec fn next_ws(s: Seq<char>, i: int) -> Option<int>
    decreases s.len() - i,
{
    if i < 0 || i >= s.len() {
        None
    } else if is_ws(s[i]) {
        Some(i)
    } else {
        next_ws(s, i + 1)
    }
}

/// `str::split_once(char::is_whitespace)`.
pub open spec fn spec_split_once_ws(s: Seq<char>) -> Option<(Seq<char>, Seq<char>)> {
    match next_ws(s, 0) {
        Some(k) => Some((s.subrange(0, k), s.subrange(k + 1, s.len() as int))),
        None => None,
    }
}

/// The decimal digit for `d < 10`.
pub open spec fn digit_char(d: nat) -> char {
    ((d + 48) as u32) as char
}

/// The decimal representation of `n` (what `Display` prints for an unsigned integer).
pub open spec fn decimal(n: nat) -> Seq<char>
    decreases n,
{
    if n < 10 {
        seq![digit_char(n)]
    } else {
        decimal(n / 10).push(digit_char(n % 10))
    }
}

/// The decimal representation of a signed integer.
pub open spec fn signed_decimal(n: int) -> Seq<char> {
    if n < 0 {
        seq!['-'] + decimal((-n) as nat)
    } else {
        decimal(n as nat)
    }
}

/// `slice::join` of character sequences with a separator.
pub open spec fn join(parts: Seq<Seq<char>>, sep: Seq<char>) -> Seq<char>
    decreases parts.len(),
{
    if parts.len() == 0 {
        seq![]
    } else if parts.len() == 1 {
        parts[0]
    } else {
        join(parts.drop_last(), sep) + sep + parts.last()
    }
}

/// The views of a sequence of strings.
pub open spec fn string_views(v: Seq<String>) -> Seq<Seq<char>> {
    v.map_values(|x: String| x@)
}

/// The views of a sequence of character vectors.
pub open spec fn views(v: Seq<Vec<char>>) -> Seq<Seq<char>> {
    v.map_values(|x: Vec<char>| x@)
}

// ---------------------------------------------------------------------------
// Lemmas
// ---------------------------------------------------------------------------

proof fn lemma_next_newline_bounds(s: Seq<char>, i: int)
    requires
        0 <= i,
    ensures
        i <= s.len() ==> i <= next_newline(s, i) <= s.len(),
        i > s.len() ==> next_newline(s, i) == s.len(),
        0 <= next_newline(s, i) < s.len() ==> s[next_newline(s, i)] == '\n',
        forall|j: int| i <= j < next_newline(s, i) ==> s[j] != '\n',
    decreases s.len() - i,
{
    if i < s.len() && s[i] != '\n' {
        lemma_next_newline_bounds(s, i + 1);
    }
}

proof fn lemma_next_ws(s: Seq<char>, i: int)
    requires
        0 <= i,
    ensures
        match next_ws(s, i) {
            Some(k) => i <= k < s.len() && is_ws(s[k]) && forall|j: int| i <= j < k ==> !is_ws(s[j]),
            None => forall|j: int| i <= j < s.len() ==> !is_ws(s[j]),
        },
    decreases s.len() - i,
{
    if i < s.len() && !is_ws(s[i]) {
        lemma_next_ws(s, i + 1);
    }
}

proof fn lemma_find_from(s: Seq<char>, p: Seq<char>, k: int)
    requires
        0 <= k,
    ensures
        match spec_find_from(s, p, k) {
            Some(j) => k <= j && occurs_at(s, p, j) && forall|m: int| k <= m < j ==> !occurs_at(s, p, m),
            None => forall|m: int| k <= m ==> !occurs_at(s, p, m),
        },
    decreases s.len() + 1 - k,
{
    if k + p.len() <= s.len() && !occurs_at(s, p, k) {
        lemma_find_from(s, p, k + 1);
    }
}

proof fn lemma_rfind_from(s: Seq<char>, p: Seq<char>, k: int)
    requires
        k + p.len() <= s.len(),
    ensures
        match rfind_from(s, p, k) {
            Some(j) => j <= k && occurs_at(s, p, j) && forall|m: int| j < m <= k ==> !occurs_at(s, p, m),
            None => forall|m: int| m <= k ==> !occurs_at(s, p, m),
        },
    decreases k + 1,
{
    if k >= 0 && !occurs_at(s, p, k) {
        lemma_rfind_from(s, p, k - 1);
    }
}

// ---------------------------------------------------------------------------
// Executable functions
// ---------------------------------------------------------------------------

/// Appends one character to a string (`String::push`).
#[verifier::external_body]
fn push_char(s: &mut String, c: char)
    ensures
        final(s)@ == old(s)@.push(c),
{
    s.push(c);
}

/// The decimal text of an unsigned integer.
pub fn decimal_text(n: u64) -> (r: String)
    ensures
        r@ == decimal(n as nat),
{
    // Collect the digits least significant first, then emit them in order.
    let mut digits: Vec<char> = Vec::new();
    let mut m = n;
    let ghost mut tail: Seq<char> = seq![];
    while m >= 10
        invariant
            decimal(n as nat) == decimal(m as nat) + tail,
            digits@ == tail.reverse(),
        decreases m,
    {
        let d = (m % 10) as u8;
        let c = (d + 48) as char;
        proof {
            assert(c == digit_char((m % 10) as nat));
            assert(decimal(m as nat) == decimal((m / 10) as nat).push(c));
            assert(decimal((m / 10) as nat).push(c) + tail =~= decimal((m / 10) as nat) + (seq![c] + tail));
            assert((seq![c] + tail).reverse() =~= tail.reverse().push(c));
            tail = seq![c] + tail;
        }
        digits.push(c);
        m = m / 10;
    }
    let d = m as u8;
    let c = (d + 48) as char;
    proof {
        assert(c == digit_char(m as nat));
        assert(decimal(m as nat) == seq![c]);
        assert((seq![c] + tail).reverse() =~= tail.reverse().push(c));
    }
    digits.push(c);
    proof {
        assert(decimal(n as nat) =~= seq![c] + tail);
        assert(digits@.reverse() =~= (seq![c] + tail).reverse().reverse());
        assert((seq![c] + tail).reverse().reverse() =~= seq![c] + tail);
    }
    let mut r = String::new();
    let mut i = digits.len();
    while i > 0
        invariant
            i <= digits.len(),
            r@ == digits@.reverse().subrange(0, (digits.len() - i) as int),
            decimal(n as nat) == digits@.reverse(),
        decreases i,
    {
        i -= 1;
        push_char(&mut r, digits[i]);
        assert(r@ =~= digits@.reverse().subrange(0, (digits.len() - i) as int));
    }
    assert(r@ =~= digits@.reverse());
    r
}

/// The decimal text of a signed integer.
pub fn signed_decimal_text(n: i64) -> (r: String)
    ensures
        r@ == signed_decimal(n as int),
{
    if n < 0 {
        let mag: u64 = if n == i64::MIN {
            0x8000_0000_0000_0000u64
        } else {
            (-n) as u64
        };
        let digits = decimal_text(mag);
        let mut r = String::from_str("-");
        r.append(digits.as_str());
        proof {
            reveal_strlit("-");
        }
        r
    } else {
        decimal_text(n as u64)
    }
}

/// `slice::join` of strings with a literal separator.
pub fn join_text(parts: &Vec<String>, sep: &str) -> (r: String)
    ensures
        r@ == join(string_views(parts@), sep@),
{
    let mut r = String::new();
    let mut i: usize = 0;
    while i < parts.len()
        invariant
            i <= parts.len(),
            r@ == join(string_views(parts@.subrange(0, i as int)), sep@),
        decreases parts.len() - i,
    {
        let ghost before = string_views(parts@.subrange(0, i as int));
        if i > 0 {
            r.append(sep);
        }
        r.append(parts[i].as_str());
        proof {
            let now = string_views(parts@.subrange(0, i + 1));
            assert(now.drop_last() =~= before);
            assert(now.last() == parts@[i as int]@);
            if i == 0 {
                assert(now =~= seq![parts@[0]@]);
            }
        }
        i += 1;
    }
    assert(parts@.subrange(0, parts.len() as int) =~= parts@);
    r
}

/// Collects the characters of `s` into a vector.
pub fn chars_of(s: &str) -> (v: Vec<char>)
    ensures
        v@ == s@,
{
    let mut v: Vec<char> = Vec::new();
    for c in it: s.chars()
        invariant
            v@ == it.history(),
    {
        v.push(c);
    }
    v
}

/// Builds a string from a vector of characters.
pub fn string_of(v: &Vec<char>) -> (s: String)
    ensures
        s@ == v@,
{
    let mut s = String::new();
    let mut i: usize = 0;
    while i < v.len()
        invariant
            i <= v.len(),
            s@ == v@.subrange(0, i as int),
        decreases v.len() - i,
    {
        push_char(&mut s, v[i]);
        i += 1;
        assert(s@ =~= v@.subrange(0, i as int));
    }
    assert(s@ =~= v@);
    s
}

/// The characters of `v` between `a` and `b`.
pub fn subvec(v: &Vec<char>, a: usize, b: usize) -> (r: Vec<char>)
    requires
        a <= b <= v.len(),
    ensures
        r@ == v@.subrange(a as int, b as int),
{
    let mut r: Vec<char> = Vec::new();
    let mut i = a;
    while i < b
        invariant
            a <= i <= b <= v.len(),
            r@ == v@.subrange(a as int, i as int),
        decreases b - i,
    {
        r.push(v[i]);
        i += 1;
        assert(r@ =~= v@.subrange(a as int, i as int));
    }
    r
}

/// `char::is_whitespace`.
pub fn is_whitespace(c: char) -> (b: bool)
    ensures
        b == is_ws(c),
{
    let n = c as u32;
    (0x09 <= n && n <= 0x0D) || n == 0x20 || n == 0x85 || n == 0xA0 || n == 0x1680 || (0x2000 <= n
        && n <= 0x200A) || n == 0x2028 || n == 0x2029 || n == 0x202F || n == 0x205F || n == 0x3000
}

/// Character-sequence equality.
pub fn seq_eq(a: &Vec<char>, b: &Vec<char>) -> (r: bool)
    ensures
        r == (a@ == b@),
{
    if a.len() != b.len() {
        return false;
    }
    let mut i: usize = 0;
    while i < a.len()
        invariant
            a.len() == b.len(),
            i <= a.len(),
            forall|j: int| 0 <= j < i ==> a@[j] == b@[j],
        decreases a.len() - i,
    {
        if a[i] != b[i] {
            return false;
        }
        i += 1;
    }
    assert(a@ =~= b@);
    true
}

/// True when `v` equals the literal text `lit`.
pub fn is_text(v: &Vec<char>, lit: &str) -> (r: bool)
    ensures
        r == (v@ == lit@),
{
    let l = chars_of(lit);
    seq_eq(v, &l)
}

/// `str::trim`.
#[verifier::rlimit(40)]
pub fn trim(v: &Vec<char>) -> (r: Vec<char>)
    ensures
        r@ == spec_trim(v@),
{
    let ghost s = v@;
    assert(s.subrange(0, s.len() as int) =~= s);
    let mut lo: usize = 0;
    while lo < v.len() && is_whitespace(v[lo])
        invariant
            lo <= v.len(),
            s == v@,
            trim_start(s) == trim_start(s.subrange(lo as int, s.len() as int)),
        decreases v.len() - lo,
    {
        assert(s.subrange(lo as int, s.len() as int).drop_first() =~= s.subrange(lo + 1, s.len() as int));
        lo += 1;
    }
    let ghost t = s.subrange(lo as int, s.len() as int);
    assert(trim_start(s) == t);
    let mut hi: usize = v.len();
    while hi > lo && is_whitespace(v[hi - 1])
        invariant
            lo <= hi <= v.len(),
            s == v@,
            t == s.subrange(lo as int, s.len() as int),
            trim_end(t) == trim_end(s.subrange(lo as int, hi as int)),
        decreases hi - lo,
    {
        assert(s.subrange(lo as int, hi as int).drop_last() =~= s.subrange(lo as int, hi - 1));
        hi -= 1;
    }
    subvec(v, lo, hi)
}

/// `str::strip_prefix` with a literal prefix.
pub fn strip_prefix(v: &Vec<char>, lit: &str) -> (r: Option<Vec<char>>)
    ensures
        match spec_strip_prefix(v@, lit@) {
            Some(rest) => r is Some && r->0@ == rest,
            None => r is None,
        },
{
    let p = chars_of(lit);
    if p.len() > v.len() {
        return None;
    }
    let mut i: usize = 0;
    while i < p.len()
        invariant
            p@ == lit@,
            p.len() <= v.len(),
            i <= p.len(),
            forall|j: int| 0 <= j < i ==> v@[j] == p@[j],
        decreases p.len() - i,
    {
        if v[i] != p[i] {
            assert(v@.subrange(0, p.len() as int)[i as int] != p@[i as int]);
            return None;
        }
        i += 1;
    }
    assert(v@.subrange(0, p.len() as int) =~= p@);
    Some(subvec(v, p.len(), v.len()))
}

/// True when `v` starts with the character `c`.
pub fn starts_with_char(v: &Vec<char>, c: char) -> (r: bool)
    ensures
        r == (v@.len() > 0 && v@[0] == c),
{
    v.len() > 0 && v[0] == c
}

/// `str::trim_start_matches` with a single character.
pub fn trim_start_char(v: &Vec<char>, c: char) -> (r: Vec<char>)
    ensures
        r@ == spec_trim_start_char(v@, c),
{
    let ghost s = v@;
    assert(s.subrange(0, s.len() as int) =~= s);
    let mut lo: usize = 0;
    while lo < v.len() && v[lo] == c
        invariant
            lo <= v.len(),
            s == v@,
            spec_trim_start_char(s, c) == spec_trim_start_char(s.subrange(lo as int, s.len() as int), c),
        decreases v.len() - lo,
    {
        assert(s.subrange(lo as int, s.len() as int).drop_first() =~= s.subrange(lo + 1, s.len() as int));
        lo += 1;
    }
    subvec(v, lo, v.len())
}

/// `char::to_ascii_lowercase`.
pub fn to_ascii_lower(c: char) -> (r: char)
    ensures
        r == ascii_lower(c),
{
    if 'A' <= c && c <= 'Z' {
        let b: u8 = (c as u8) + 32;
        b as char
    } else {
        c
    }
}

/// `str::eq_ignore_ascii_case` against a literal.
pub fn eq_ignore_ascii_case(v: &Vec<char>, lit: &str) -> (r: bool)
    ensures
        r == spec_eq_ignore_ascii_case(v@, lit@),
{
    let p = chars_of(lit);
    if v.len() != p.len() {
        return false;
    }
    let mut i: usize = 0;
    while i < v.len()
        invariant
            p@ == lit@,
            v.len() == p.len(),
            i <= v.len(),
            forall|j: int| 0 <= j < i ==> ascii_lower(v@[j]) == ascii_lower(p@[j]),
        decreases v.len() - i,
    {
        if to_ascii_lower(v[i]) != to_ascii_lower(p[i]) {
            return false;
        }
        i += 1;
    }
    true
}

/// True when `p` occurs in `v` at index `k`.
pub fn matches_at(v: &Vec<char>, p: &Vec<char>, k: usize) -> (r: bool)
    ensures
        r == occurs_at(v@, p@, k as int),
{
    if k > v.len() || p.len() > v.len() - k {
        return false;
    }
    let mut i: usize = 0;
    while i < p.len()
        invariant
            k + p.len() <= v.len(),
            i <= p.len(),
            forall|j: int| 0 <= j < i ==> v@[k + j] == p@[j],
        decreases p.len() - i,
    {
        if v[k + i] != p[i] {
            assert(v@.subrange(k as int, k + p.len())[i as int] != p@[i as int]);
            return false;
        }
        i += 1;
    }
    assert(v@.subrange(k as int, k + p.len()) =~= p@);
    true
}

/// The first index `>= k` at which `p` occurs in `v`.
pub fn find_from(v: &Vec<char>, p: &Vec<char>, k: usize) -> (r: Option<usize>)
    ensures
        match spec_find_from(v@, p@, k as int) {
            Some(j) => r == Some(j as usize),
            None => r is None,
        },
{
    if p.len() == 0 {
        if k <= v.len() {
            assert(v@.subrange(k as int, k as int) =~= p@);
            return Some(k);
        }
        return None;
    }
    let mut i = k;
    while i <= v.len() && p.len() <= v.len() - i
        invariant
            k <= i,
            p.len() > 0,
            spec_find_from(v@, p@, k as int) == spec_find_from(v@, p@, i as int),
        decreases v.len() + 1 - i,
    {
        if matches_at(v, p, i) {
            return Some(i);
        }
        i += 1;
    }
    None
}

/// `str::contains` with a literal pattern.
pub fn contains(v: &Vec<char>, lit: &str) -> (r: bool)
    ensures
        r == spec_contains(v@, lit@),
{
    let p = chars_of(lit);
    let f = find_from(v, &p, 0);
    proof {
        lemma_find_from(v@, p@, 0);
    }
    match f {
        Some(_) => true,
        None => {
            assert forall|m: int| !occurs_at(v@, p@, m) by {
                if m >= 0 {
                } else {
                }
            }
            false
        },
    }
}

/// The last index at which `p` occurs in `v`.
pub fn rfind(v: &Vec<char>, p: &Vec<char>) -> (r: Option<usize>)
    ensures
        match spec_rfind(v@, p@) {
            Some(j) => r == Some(j as usize),
            None => r is None,
        },
{
    if p.len() > v.len() {
        return None;
    }
    let mut i: usize = v.len() - p.len();
    loop
        invariant
            i + p.len() <= v.len(),
            spec_rfind(v@, p@) == rfind_from(v@, p@, i as int),
        decreases i,
    {
        if matches_at(v, p, i) {
            return Some(i);
        }
        if i == 0 {
            assert(rfind_from(v@, p@, -1) is None);
            return None;
        }
        i -= 1;
    }
}

/// `str::split_once(char::is_whitespace)`.
pub fn split_once_ws(v: &Vec<char>) -> (r: Option<(Vec<char>, Vec<char>)>)
    ensures
        match spec_split_once_ws(v@) {
            Some((a, b)) => r matches Some((x, y)) && x@ == a && y@ == b,
            None => r is None,
        },
{
    let mut i: usize = 0;
    while i < v.len()
        invariant
            i <= v.len(),
            next_ws(v@, 0) == next_ws(v@, i as int),
        decreases v.len() - i,
    {
        if is_whitespace(v[i]) {
            return Some((subvec(v, 0, i), subvec(v, i + 1, v.len())));
        }
        i += 1;
    }
    None
}

/// `str::lines`, materialised.
pub fn split_lines(v: &Vec<char>) -> (r: Vec<Vec<char>>)
    ensures
        views(r@) == lines(v@),
{
    let ghost s = v@;
    let mut r: Vec<Vec<char>> = Vec::new();
    let mut pos: usize = 0;
    assert(s.subrange(0, s.len() as int) =~= s);
    assert(views(r@) + lines(s) =~= lines(s));
    while pos < v.len()
        invariant
            s == v@,
            pos <= v.len(),
            views(r@) + lines(s.subrange(pos as int, s.len() as int)) == lines(s),
        decreases v.len() - pos,
    {
        let ghost rest = s.subrange(pos as int, s.len() as int);
        let mut k = pos;
        while k < v.len() && v[k] != '\n'
            invariant
                pos <= k <= v.len(),
                s == v@,
                rest == s.subrange(pos as int, s.len() as int),
                next_newline(rest, 0) == next_newline(rest, k - pos),
            decreases v.len() - k,
        {
            k += 1;
        }
        proof {
            lemma_next_newline_bounds(rest, k - pos);
        }
        let mut end = k;
        if end > pos && v[end - 1] == '\r' && k < v.len() {
            end = end - 1;
        }
        let line = subvec(v, pos, end);
        let ghost old_r = r@;
        r.push(line);
        proof {
            assert(views(r@) =~= views(old_r).push(line@));
            if k < v.len() {
                assert(rest.subrange(0, k - pos) =~= s.subrange(pos as int, k as int));
                assert(line@ =~= strip_cr(rest.subrange(0, k - pos)));
                assert(rest.subrange(k - pos + 1, rest.len() as int) =~= s.subrange(k + 1, s.len() as int));
                assert(lines(rest) =~= seq![line@] + lines(s.subrange(k + 1, s.len() as int)));
            } else {
                assert(line@ =~= rest);
                assert(lines(rest) =~= seq![line@]);
                assert(s.subrange(k as int, s.len() as int) =~= Seq::<char>::empty());
            }
            assert(views(r@) + lines(s.subrange(
                if k < v.len() { k + 1 } else { k as int },
                s.len() as int,
            )) =~= lines(s));
        }
        pos = if k < v.len() { k + 1 } else { k };
    }
    assert(s.subrange(pos as int, s.len() as int) =~= Seq::<char>::empty());
    assert(views(r@) =~= views(r@) + lines(Seq::<char>::empty()));
    r
}

/// `str::split` with a non-empty literal pattern, materialised.
pub fn split_on(v: &Vec<char>, lit: &str) -> (r: Vec<Vec<char>>)
    requires
        lit@.len() > 0,
    ensures
        views(r@) == spec_split_on(v@, lit@),
{
    let p = chars_of(lit);
    let ghost s = v@;
    let mut r: Vec<Vec<char>> = Vec::new();
    let mut pos: usize = 0;
    assert(s.subrange(0, s.len() as int) =~= s);
    assert(views(r@) + spec_split_on(s, p@) =~= spec_split_on(s, p@));
    loop
        invariant
            s == v@,
            p@ == lit@,
            p.len() > 0,
            pos <= v.len(),
            views(r@) + spec_split_on(s.subrange(pos as int, s.len() as int), p@) == spec_split_on(s, p@),
        decreases v.len() - pos,
    {
        let ghost rest = s.subrange(pos as int, s.len() as int);
        let f = find_from(v, &p, pos);
        proof {
            lemma_find_from(s, p@, pos as int);
            lemma_find_from(rest, p@, 0);
        }
        let ghost old_r = r@;
        match f {
            Some(k) => {
                proof {
                    // An occurrence in `rest` at `m` is one in `s` at `pos + m`.
                    assert forall|m: int| 0 <= m implies occurs_at(rest, p@, m) == occurs_at(s, p@, pos + m) by {
                        if 0 <= m && m + p.len() <= rest.len() {
                            assert(rest.subrange(m, m + p.len()) =~= s.subrange(pos + m, pos + m + p.len()));
                        }
                    }
                    let fr = spec_find_from(rest, p@, 0);
                    assert(occurs_at(rest, p@, k - pos));
                    assert(fr == Some(k - pos as int)) by {
                        match fr {
                            Some(j) => {
                                assert(occurs_at(s, p@, pos + j));
                                if j < k - pos {
                                } else if j > k - pos {
                                }
                            },
                            None => {},
                        }
                    }
                    assert(rest.subrange(0, k - pos) =~= s.subrange(pos as int, k as int));
                    assert(rest.subrange(k - pos + p.len(), rest.len() as int) =~= s.subrange(
                        k + p.len(),
                        s.len() as int,
                    ));
                }
                let piece = subvec(v, pos, k);
                r.push(piece);
                proof {
                    assert(views(r@) =~= views(old_r).push(piece@));
                    assert(spec_split_on(rest, p@) =~= seq![piece@] + spec_split_on(
                        s.subrange(k + p.len(), s.len() as int),
                        p@,
                    ));
                    assert(views(r@) + spec_split_on(s.subrange(k + p.len(), s.len() as int), p@)
                        =~= spec_split_on(s, p@));
                }
                pos = k + p.len();
            },
            None => {
                proof {
                    assert forall|m: int| 0 <= m implies !occurs_at(rest, p@, m) by {
                        if m + p.len() <= rest.len() {
                            assert(rest.subrange(m, m + p.len()) =~= s.subrange(pos + m, pos + m + p.len()));
                            assert(!occurs_at(s, p@, pos + m));
                        }
                    }
                    assert(spec_find_from(rest, p@, 0) is None);
                }
                let piece = subvec(v, pos, v.len());
                r.push(piece);
                proof {
                    assert(views(r@) =~= views(old_r).push(piece@));
                    assert(spec_split_on(rest, p@) =~= seq![piece@]);
                }
                return r;
            },
        }
    }
}

} // verus!
