//! Character-sequence operations the rest of the crate is written in: prefixes, searching,
//! splitting, trimming, case folding, decimal numbers. Every operation works on `Vec<char>` and is
//! specified over `Seq<char>`, so the specs elsewhere can speak about text directly.
use vstd::prelude::*;
use vstd::string::*;

verus! {

// ---------------------------------------------------------------------------------------------
// Specifications
// ---------------------------------------------------------------------------------------------

/// `p` is a prefix of `s`.
pub open spec fn is_prefix(p: Seq<char>, s: Seq<char>) -> bool {
    p.len() <= s.len() && s.subrange(0, p.len() as int) == p
}

/// `s` between double quotes.
pub open spec fn quoted(s: Seq<char>) -> Seq<char> {
    seq!['"'] + s + seq!['"']
}

/// `p` is a suffix of `s`.
pub open spec fn is_suffix(p: Seq<char>, s: Seq<char>) -> bool {
    p.len() <= s.len() && s.subrange(s.len() - p.len(), s.len() as int) == p
}

/// `s` with the prefix `p` removed, when it has it.
pub open spec fn strip_prefix(s: Seq<char>, p: Seq<char>) -> Option<Seq<char>> {
    if is_prefix(p, s) {
        Some(s.subrange(p.len() as int, s.len() as int))
    } else {
        None
    }
}

/// `s` with the suffix `p` removed, when it has it.
pub open spec fn strip_suffix(s: Seq<char>, p: Seq<char>) -> Option<Seq<char>> {
    if is_suffix(p, s) {
        Some(s.subrange(0, s.len() - p.len()))
    } else {
        None
    }
}

/// `p` occurs in `s` starting at index `i`.
pub open spec fn occurs_at(s: Seq<char>, p: Seq<char>, i: int) -> bool {
    0 <= i && i + p.len() <= s.len() && s.subrange(i, i + p.len()) == p
}

/// The first index at or after `i` where `p` occurs in `s`.
pub open spec fn find_from(s: Seq<char>, p: Seq<char>, i: int) -> Option<int>
    decreases s.len() + 1 - i,
{
    if i < 0 || i + p.len() > s.len() {
        None
    } else if occurs_at(s, p, i) {
        Some(i)
    } else {
        find_from(s, p, i + 1)
    }
}

/// The first index where `p` occurs in `s`.
pub open spec fn find(s: Seq<char>, p: Seq<char>) -> Option<int> {
    find_from(s, p, 0)
}

/// `p` occurs somewhere in `s`.
pub open spec fn contains(s: Seq<char>, p: Seq<char>) -> bool {
    find(s, p) is Some
}

/// The pieces of `s` between occurrences of the non-empty separator `sep`, as `str::split` cuts
/// them: always at least one piece, empty pieces kept.
pub open spec fn split(s: Seq<char>, sep: Seq<char>) -> Seq<Seq<char>>
    decreases s.len(),
{
    if sep.len() == 0 {
        seq![s]
    } else {
        match find(s, sep) {
            None => seq![s],
            Some(i) => {
                proof {
                    lemma_find_from(s, sep, 0);
                }
                seq![s.subrange(0, i)] + split(s.subrange(i + sep.len(), s.len() as int), sep)
            },
        }
    }
}

/// `s` cut at the first occurrence of `sep`, as `str::split_once`.
pub open spec fn split_once(s: Seq<char>, sep: Seq<char>) -> Option<(Seq<char>, Seq<char>)> {
    match find(s, sep) {
        None => None,
        Some(i) => Some((s.subrange(0, i), s.subrange(i + sep.len(), s.len() as int))),
    }
}

/// Unicode `White_Space`, the property `char::is_whitespace` tests.
pub open spec fn is_whitespace(c: char) -> bool {
    ||| ('\t' <= c && c <= '\r')
    ||| c == ' '
    ||| c == '\u{85}'
    ||| c == '\u{a0}'
    ||| c == '\u{1680}'
    ||| ('\u{2000}' <= c && c <= '\u{200a}')
    ||| c == '\u{2028}'
    ||| c == '\u{2029}'
    ||| c == '\u{202f}'
    ||| c == '\u{205f}'
    ||| c == '\u{3000}'
}

/// `s` without its leading whitespace.
pub open spec fn trim_start(s: Seq<char>) -> Seq<char>
    decreases s.len(),
{
    if s.len() > 0 && is_whitespace(s[0]) {
        trim_start(s.drop_first())
    } else {
        s
    }
}

/// `s` without its trailing whitespace.
pub open spec fn trim_end(s: Seq<char>) -> Seq<char>
    decreases s.len(),
{
    if s.len() > 0 && is_whitespace(s.last()) {
        trim_end(s.drop_last())
    } else {
        s
    }
}

/// `s` without leading or trailing whitespace, as `str::trim`.
pub open spec fn trim(s: Seq<char>) -> Seq<char> {
    trim_end(trim_start(s))
}

/// ASCII upper case letters mapped to lower case, everything else kept.
pub open spec fn ascii_lower_char(c: char) -> char {
    if 'A' <= c && c <= 'Z' {
        ((c as u32) + 32) as char
    } else {
        c
    }
}

/// `s` with every ASCII letter in lower case, as `str::to_ascii_lowercase`.
pub open spec fn ascii_lower(s: Seq<char>) -> Seq<char> {
    s.map_values(|c: char| ascii_lower_char(c))
}

/// Equal up to ASCII case, as `str::eq_ignore_ascii_case`.
pub open spec fn eq_ignore_ascii_case(a: Seq<char>, b: Seq<char>) -> bool {
    ascii_lower(a) == ascii_lower(b)
}

/// An ASCII decimal digit.
pub open spec fn is_digit(c: char) -> bool {
    '0' <= c && c <= '9'
}

/// Every character of `s` is an ASCII decimal digit.
pub open spec fn all_digits(s: Seq<char>) -> bool {
    forall|i: int| 0 <= i < s.len() ==> is_digit(#[trigger] s[i])
}

/// The number a string of decimal digits spells, most significant first.
pub open spec fn digits_value(s: Seq<char>) -> nat
    decreases s.len(),
{
    if s.len() == 0 {
        0
    } else {
        digits_value(s.drop_last()) * 10 + ((s.last() as u32) - ('0' as u32)) as nat
    }
}

/// What `str::parse::<u64>` accepts: an optional `+`, then at least one decimal digit, with a value
/// that fits.
pub open spec fn parse_u64(s: Seq<char>) -> Option<u64> {
    let body = if s.len() > 0 && s[0] == '+' { s.drop_first() } else { s };
    if body.len() > 0 && all_digits(body) && digits_value(body) <= u64::MAX {
        Some(digits_value(body) as u64)
    } else {
        None
    }
}

/// What `str::parse::<i32>` accepts: an optional sign, then at least one decimal digit, with a
/// value that fits.
pub open spec fn parse_i32(s: Seq<char>) -> Option<i32> {
    let neg = s.len() > 0 && s[0] == '-';
    let body = if s.len() > 0 && (s[0] == '+' || s[0] == '-') { s.drop_first() } else { s };
    let v: int = if neg { -(digits_value(body) as int) } else { digits_value(body) as int };
    if body.len() > 0 && all_digits(body) && i32::MIN <= v <= i32::MAX {
        Some(v as i32)
    } else {
        None
    }
}

/// The decimal digit for `d < 10`.
pub open spec fn digit_char(d: nat) -> char {
    ((d + ('0' as u32)) as u32) as char
}

/// `n` in decimal, no leading zeros.
pub open spec fn decimal(n: nat) -> Seq<char>
    decreases n,
{
    if n < 10 {
        seq![digit_char(n)]
    } else {
        decimal(n / 10) + seq![digit_char(n % 10)]
    }
}

/// `n` in decimal with a leading `-` when negative, as `Display` writes an integer.
pub open spec fn signed_decimal(n: int) -> Seq<char> {
    if n < 0 {
        seq!['-'] + decimal((-n) as nat)
    } else {
        decimal(n as nat)
    }
}

/// `n` in decimal, left-padded with zeros to at least `width` digits (`{:0width$}` on a
/// non-negative number).
pub open spec fn zero_padded(n: nat, width: nat) -> Seq<char> {
    let d = decimal(n);
    if d.len() >= width {
        d
    } else {
        Seq::new((width - d.len()) as nat, |i: int| '0') + d
    }
}

// ---------------------------------------------------------------------------------------------
// Lemmas
// ---------------------------------------------------------------------------------------------

/// Extending a digit string never makes its value smaller.
pub proof fn lemma_digits_value_prefix(s: Seq<char>, k: int)
    requires
        0 <= k <= s.len(),
        all_digits(s),
    ensures
        digits_value(s.subrange(0, k)) <= digits_value(s),
    decreases s.len() - k,
{
    if k < s.len() {
        let t = s.subrange(0, k + 1);
        assert(t.drop_last() == s.subrange(0, k));
        lemma_digits_value_prefix(s, k + 1);
    } else {
        assert(s.subrange(0, k) == s);
    }
}

/// A decimal rendering has at least one digit and only digits.
pub proof fn lemma_decimal_digits(n: nat)
    ensures
        decimal(n).len() >= 1,
        all_digits(decimal(n)),
    decreases n,
{
    if n >= 10 {
        lemma_decimal_digits(n / 10);
    }
}

/// Searching from `i` finds nothing before `i` and something that really occurs.
pub proof fn lemma_find_from(s: Seq<char>, p: Seq<char>, i: int)
    requires
        0 <= i,
    ensures
        find_from(s, p, i) matches Some(j) ==> i <= j && occurs_at(s, p, j)
            && forall|k: int| i <= k < j ==> !occurs_at(s, p, k),
        find_from(s, p, i) is None ==> forall|k: int| i <= k ==> !occurs_at(s, p, k),
    decreases s.len() + 1 - i,
{
    if i + p.len() > s.len() {
    } else if occurs_at(s, p, i) {
    } else {
        lemma_find_from(s, p, i + 1);
    }
}

// ---------------------------------------------------------------------------------------------
// Trusted: the one std operation this crate cannot express otherwise
// ---------------------------------------------------------------------------------------------

/// `String::push`: appends one character. Claimed: the view grows by exactly that character.
#[verifier::external_body]
fn push_char(s: &mut String, c: char)
    ensures
        final(s)@ == old(s)@.push(c),
{
    s.push(c);
}

// ---------------------------------------------------------------------------------------------
// Conversions
// ---------------------------------------------------------------------------------------------

/// The characters of `s`.
pub fn chars_of(s: &str) -> (r: Vec<char>)
    ensures
        r@ == s@,
{
    let n = s.unicode_len();
    let mut r: Vec<char> = Vec::new();
    let mut i: usize = 0;
    while i < n
        invariant
            n == s@.len(),
            i <= n,
            r@ == s@.subrange(0, i as int),
        decreases n - i,
    {
        let c = s.get_char(i);
        r.push(c);
        i = i + 1;
    }
    assert(s@.subrange(0, n as int) == s@);
    r
}

/// A `String` holding exactly `cs`.
pub fn string_of(cs: &[char]) -> (r: String)
    ensures
        r@ == cs@,
{
    let mut r = String::new();
    let mut i: usize = 0;
    while i < cs.len()
        invariant
            i <= cs.len(),
            r@ == cs@.subrange(0, i as int),
        decreases cs.len() - i,
    {
        push_char(&mut r, cs[i]);
        i = i + 1;
    }
    assert(cs@.subrange(0, cs@.len() as int) == cs@);
    r
}

/// A `String` holding exactly `s`.
pub fn own(s: &str) -> (r: String)
    ensures
        r@ == s@,
{
    let cs = chars_of(s);
    string_of(cs.as_slice())
}

/// A copy of the slice.
pub fn copy_chars(cs: &[char]) -> (r: Vec<char>)
    ensures
        r@ == cs@,
{
    let mut r: Vec<char> = Vec::new();
    let mut i: usize = 0;
    while i < cs.len()
        invariant
            i <= cs.len(),
            r@ == cs@.subrange(0, i as int),
        decreases cs.len() - i,
    {
        r.push(cs[i]);
        i = i + 1;
    }
    assert(cs@.subrange(0, cs@.len() as int) == cs@);
    r
}

/// The characters `cs[from..to]`.
pub fn slice_chars(cs: &[char], from: usize, to: usize) -> (r: Vec<char>)
    requires
        from <= to <= cs.len(),
    ensures
        r@ == cs@.subrange(from as int, to as int),
{
    let mut r: Vec<char> = Vec::new();
    let mut i: usize = from;
    while i < to
        invariant
            from <= i <= to <= cs.len(),
            r@ == cs@.subrange(from as int, i as int),
        decreases to - i,
    {
        r.push(cs[i]);
        i = i + 1;
    }
    r
}

/// `a` followed by `b`.
pub fn concat_chars(a: &[char], b: &[char]) -> (r: Vec<char>)
    ensures
        r@ == a@ + b@,
{
    let mut r = copy_chars(a);
    let mut i: usize = 0;
    while i < b.len()
        invariant
            i <= b.len(),
            r@ == a@ + b@.subrange(0, i as int),
        decreases b.len() - i,
    {
        r.push(b[i]);
        i = i + 1;
    }
    assert(b@.subrange(0, b@.len() as int) == b@);
    r
}

// ---------------------------------------------------------------------------------------------
// Comparisons and searching
// ---------------------------------------------------------------------------------------------

/// Whether two character sequences are equal.
pub fn chars_eq(a: &[char], b: &[char]) -> (r: bool)
    ensures
        r == (a@ == b@),
{
    if a.len() != b.len() {
        return false;
    }
    let mut i: usize = 0;
    while i < a.len()
        invariant
            a.len() == b.len(),
            i <= a.len(),
            forall|k: int| 0 <= k < i ==> a@[k] == b@[k],
        decreases a.len() - i,
    {
        if a[i] != b[i] {
            return false;
        }
        i = i + 1;
    }
    assert(a@ =~= b@);
    true
}

/// Whether `s` spells exactly the literal `lit`.
pub fn is(s: &[char], lit: &str) -> (r: bool)
    ensures
        r == (s@ == lit@),
{
    let l = chars_of(lit);
    chars_eq(s, l.as_slice())
}

/// Whether two strings are equal, character for character.
pub fn same(a: &str, b: &str) -> (r: bool)
    ensures
        r == (a@ == b@),
{
    let ca = chars_of(a);
    is(ca.as_slice(), b)
}

/// Appends `s` between double quotes.
pub fn push_quoted(m: &mut String, s: &str)
    ensures
        final(m)@ == old(m)@ + quoted(s@),
{
    m.append("\"");
    m.append(s);
    m.append("\"");
    proof {
        reveal_strlit("\"");
    }
    assert(final(m)@ =~= old(m)@ + quoted(s@));
}

/// Appends `n` in decimal.
pub fn push_decimal(m: &mut String, n: u64)
    ensures
        final(m)@ == old(m)@ + decimal(n as nat),
{
    let d = decimal_exec(n);
    let ds = string_of(d.as_slice());
    m.append(ds.as_str());
}

/// Whether `p` occurs in `s` at index `i`.
pub fn occurs_at_exec(s: &[char], p: &[char], i: usize) -> (r: bool)
    ensures
        r == occurs_at(s@, p@, i as int),
{
    if i > s.len() || p.len() > s.len() - i {
        return false;
    }
    let mut k: usize = 0;
    while k < p.len()
        invariant
            i + p.len() <= s.len(),
            k <= p.len(),
            forall|j: int| 0 <= j < k ==> s@[i + j] == p@[j],
        decreases p.len() - k,
    {
        if s[i + k] != p[k] {
            assert(s@.subrange(i as int, i + p.len())[k as int] != p@[k as int]);
            return false;
        }
        k = k + 1;
    }
    assert(s@.subrange(i as int, i + p.len()) =~= p@);
    true
}

/// Whether `s` starts with `p`.
pub fn starts_with(s: &[char], p: &[char]) -> (r: bool)
    ensures
        r == is_prefix(p@, s@),
{
    occurs_at_exec(s, p, 0)
}

/// Whether `s` starts with the literal `lit`.
pub fn starts_with_lit(s: &[char], lit: &str) -> (r: bool)
    ensures
        r == is_prefix(lit@, s@),
{
    let p = chars_of(lit);
    starts_with(s, p.as_slice())
}

/// Whether `s` ends with `p`.
pub fn ends_with(s: &[char], p: &[char]) -> (r: bool)
    ensures
        r == is_suffix(p@, s@),
{
    if p.len() > s.len() {
        return false;
    }
    occurs_at_exec(s, p, s.len() - p.len())
}

/// `s` without the literal prefix `lit`, when it starts with it.
pub fn strip_prefix_lit(s: &[char], lit: &str) -> (r: Option<Vec<char>>)
    ensures
        r matches Some(v) ==> strip_prefix(s@, lit@) == Some(v@),
        r is None ==> strip_prefix(s@, lit@) is None,
{
    let p = chars_of(lit);
    if starts_with(s, p.as_slice()) {
        Some(slice_chars(s, p.len(), s.len()))
    } else {
        None
    }
}

/// The first index at or after `from` where `p` occurs in `s`.
pub fn find_from_exec(s: &[char], p: &[char], from: usize) -> (r: Option<usize>)
    ensures
        r matches Some(i) ==> find_from(s@, p@, from as int) == Some(i as int),
        r is None ==> find_from(s@, p@, from as int) is None,
{
    let mut i = from;
    while i <= s.len() && p.len() <= s.len() - i
        invariant
            from <= i,
            find_from(s@, p@, from as int) == find_from(s@, p@, i as int),
        decreases s.len() + 1 - i,
    {
        if occurs_at_exec(s, p, i) {
            return Some(i);
        }
        assert(i < s.len()) by {
            if i == s.len() {
                assert(s@.subrange(i as int, i as int) =~= p@);
            }
        }
        i = i + 1;
    }
    None
}

/// The first index where `p` occurs in `s`.
pub fn find_exec(s: &[char], p: &[char]) -> (r: Option<usize>)
    ensures
        r matches Some(i) ==> find(s@, p@) == Some(i as int),
        r is None ==> find(s@, p@) is None,
{
    find_from_exec(s, p, 0)
}

/// Whether `p` occurs in `s`.
pub fn contains_exec(s: &[char], p: &[char]) -> (r: bool)
    ensures
        r == contains(s@, p@),
{
    find_exec(s, p).is_some()
}

/// Whether the literal `lit` occurs in `s`.
pub fn contains_lit(s: &[char], lit: &str) -> (r: bool)
    ensures
        r == contains(s@, lit@),
{
    let p = chars_of(lit);
    contains_exec(s, p.as_slice())
}

/// `s` cut at the first occurrence of `sep`.
pub fn split_once_exec(s: &[char], sep: &[char]) -> (r: Option<(Vec<char>, Vec<char>)>)
    ensures
        r matches Some((a, b)) ==> split_once(s@, sep@) == Some((a@, b@)),
        r is None ==> split_once(s@, sep@) is None,
{
    match find_exec(s, sep) {
        None => None,
        Some(i) => {
            proof {
                lemma_find_from(s@, sep@, 0);
                assert(occurs_at(s@, sep@, i as int));
                assert(i + sep@.len() <= s@.len());
            }
            let n = sep.len();
            assert(n == sep@.len());
            assert(s.len() == s@.len());
            Some((slice_chars(s, 0, i), slice_chars(s, i + n, s.len())))
        },
    }
}

/// `s` cut at the first occurrence of the character `c`.
pub fn split_once_char(s: &[char], c: char) -> (r: Option<(Vec<char>, Vec<char>)>)
    ensures
        r matches Some((a, b)) ==> split_once(s@, seq![c]) == Some((a@, b@)),
        r is None ==> split_once(s@, seq![c]) is None,
{
    let sep = vec![c];
    proof {
        assert(sep@ =~= seq![c]);
    }
    split_once_exec(s, sep.as_slice())
}

/// The pieces of `s` between occurrences of the non-empty `sep`.
pub fn split_exec(s: &[char], sep: &[char]) -> (r: Vec<Vec<char>>)
    requires
        sep.len() > 0,
    ensures
        r@.map_values(|v: Vec<char>| v@) == split(s@, sep@),
{
    let mut out: Vec<Vec<char>> = Vec::new();
    let mut rest = copy_chars(s);
    loop
        invariant
            sep.len() > 0,
            out@.map_values(|v: Vec<char>| v@) + split(rest@, sep@) == split(s@, sep@),
        decreases rest@.len(),
    {
        match find_exec(rest.as_slice(), sep) {
            None => {
                out.push(rest);
                return out;
            },
            Some(i) => {
                proof {
                    lemma_find_from(rest@, sep@, 0);
                    assert(occurs_at(rest@, sep@, i as int));
                    assert(i + sep@.len() <= rest@.len());
                }
                let piece = slice_chars(rest.as_slice(), 0, i);
                let n = sep.len();
                assert(n == sep@.len());
                assert(rest.len() == rest@.len());
                let tail = slice_chars(rest.as_slice(), i + n, rest.len());
                proof {
                    assert(split(rest@, sep@) == seq![piece@] + split(tail@, sep@));
                    assert(out@.map_values(|v: Vec<char>| v@).push(piece@) + split(tail@, sep@)
                        =~= out@.map_values(|v: Vec<char>| v@) + split(rest@, sep@));
                }
                out.push(piece);
                proof {
                    assert(out@.map_values(|v: Vec<char>| v@) =~= old_map_push(out@));
                }
                rest = tail;
            },
        }
    }
}

/// Helper view for `split_exec`'s invariant: the mapped prefix after a push.
pub open spec fn old_map_push(v: Seq<Vec<char>>) -> Seq<Seq<char>> {
    v.map_values(|x: Vec<char>| x@)
}

/// `s` cut on the character `c`.
pub fn split_char(s: &[char], c: char) -> (r: Vec<Vec<char>>)
    ensures
        r@.map_values(|v: Vec<char>| v@) == split(s@, seq![c]),
{
    let sep = vec![c];
    proof {
        assert(sep@ =~= seq![c]);
    }
    split_exec(s, sep.as_slice())
}

/// `s` cut on the literal `lit`, which must not be empty.
pub fn split_lit(s: &[char], lit: &str) -> (r: Vec<Vec<char>>)
    requires
        lit@.len() > 0,
    ensures
        r@.map_values(|v: Vec<char>| v@) == split(s@, lit@),
{
    let sep = chars_of(lit);
    split_exec(s, sep.as_slice())
}

// ---------------------------------------------------------------------------------------------
// Whitespace and case
// ---------------------------------------------------------------------------------------------

/// Whether `c` is Unicode whitespace.
pub fn is_whitespace_exec(c: char) -> (r: bool)
    ensures
        r == is_whitespace(c),
{
    ('\t' <= c && c <= '\r') || c == ' ' || c == '\u{85}' || c == '\u{a0}' || c == '\u{1680}'
        || ('\u{2000}' <= c && c <= '\u{200a}') || c == '\u{2028}' || c == '\u{2029}'
        || c == '\u{202f}' || c == '\u{205f}' || c == '\u{3000}'
}

/// `trim_start` is a suffix of its argument, taken from the first non-whitespace character.
pub proof fn lemma_trim_start(s: Seq<char>, i: int)
    requires
        0 <= i <= s.len(),
        forall|k: int| 0 <= k < i ==> is_whitespace(#[trigger] s[k]),
    ensures
        trim_start(s) == trim_start(s.subrange(i, s.len() as int)),
    decreases i,
{
    if i > 0 {
        assert(s.drop_first().subrange(i - 1, s.drop_first().len() as int) == s.subrange(
            i,
            s.len() as int,
        ));
        lemma_trim_start(s.drop_first(), i - 1);
    } else {
        assert(s.subrange(0, s.len() as int) == s);
    }
}

/// `trim_end` is a prefix of its argument, up to the last non-whitespace character.
pub proof fn lemma_trim_end(s: Seq<char>, j: int)
    requires
        0 <= j <= s.len(),
        forall|k: int| j <= k < s.len() ==> is_whitespace(#[trigger] s[k]),
    ensures
        trim_end(s) == trim_end(s.subrange(0, j)),
    decreases s.len() - j,
{
    if j < s.len() {
        assert(s.drop_last().subrange(0, j) == s.subrange(0, j));
        lemma_trim_end(s.drop_last(), j);
    } else {
        assert(s.subrange(0, j) == s);
    }
}

/// `s` without surrounding whitespace.
pub fn trim_exec(s: &[char]) -> (r: Vec<char>)
    ensures
        r@ == trim(s@),
{
    let mut i: usize = 0;
    while i < s.len() && is_whitespace_exec(s[i])
        invariant
            i <= s.len(),
            forall|k: int| 0 <= k < i ==> is_whitespace(#[trigger] s@[k]),
        decreases s.len() - i,
    {
        i = i + 1;
    }
    proof {
        lemma_trim_start(s@, i as int);
    }
    let ghost t = s@.subrange(i as int, s@.len() as int);
    assert(trim_start(t) == t);
    let mut j: usize = s.len();
    while j > i && is_whitespace_exec(s[j - 1])
        invariant
            i <= j <= s.len(),
            forall|k: int| j <= k < s.len() ==> is_whitespace(#[trigger] s@[k]),
        decreases j,
    {
        j = j - 1;
    }
    proof {
        let tt = s@.subrange(i as int, j as int);
        assert forall|k: int| (j - i) <= k < t.len() implies is_whitespace(#[trigger] t[k]) by {
            assert(t[k] == s@[i + k]);
        }
        lemma_trim_end(t, j - i);
        assert(t.subrange(0, j - i) == tt);
        if tt.len() > 0 {
            assert(!is_whitespace(tt.last()));
        }
        assert(trim_end(tt) == tt);
    }
    slice_chars(s, i, j)
}

/// `c` in ASCII lower case.
pub fn ascii_lower_char_exec(c: char) -> (r: char)
    ensures
        r == ascii_lower_char(c),
{
    if 'A' <= c && c <= 'Z' {
        let u = (c as u32) + 32;
        assert(('a' as u32) <= u <= ('z' as u32));
        // The result is an ASCII letter, always a valid `char`.
        char_from_ascii(u)
    } else {
        c
    }
}

/// The ASCII character with code `u`.
pub(crate) fn char_from_ascii(u: u32) -> (r: char)
    requires
        u < 128,
    ensures
        r == u as char,
{
    let b = u as u8;
    b as char
}

/// `s` with every ASCII letter lowered.
pub fn ascii_lower_exec(s: &[char]) -> (r: Vec<char>)
    ensures
        r@ == ascii_lower(s@),
{
    let mut r: Vec<char> = Vec::new();
    let mut i: usize = 0;
    while i < s.len()
        invariant
            i <= s.len(),
            r@ == ascii_lower(s@.subrange(0, i as int)),
        decreases s.len() - i,
    {
        r.push(ascii_lower_char_exec(s[i]));
        proof {
            assert(ascii_lower(s@.subrange(0, i + 1)) =~= ascii_lower(s@.subrange(0, i as int)).push(
                ascii_lower_char(s@[i as int]),
            ));
        }
        i = i + 1;
    }
    assert(s@.subrange(0, s@.len() as int) == s@);
    r
}

/// Whether `a` and `b` are equal up to ASCII case.
pub fn eq_ignore_ascii_case_exec(a: &[char], b: &[char]) -> (r: bool)
    ensures
        r == eq_ignore_ascii_case(a@, b@),
{
    let la = ascii_lower_exec(a);
    let lb = ascii_lower_exec(b);
    chars_eq(la.as_slice(), lb.as_slice())
}

// ---------------------------------------------------------------------------------------------
// Numbers
// ---------------------------------------------------------------------------------------------

/// The digit string `s[from..to]`, parsed, or `None` when it does not fit `limit`.
fn parse_digits(s: &[char], from: usize, limit: u64) -> (r: Option<u64>)
    requires
        from <= s.len(),
        limit >= 9,
    ensures
        r matches Some(v) ==> s@.len() > from && all_digits(s@.subrange(from as int, s@.len() as int))
            && v == digits_value(s@.subrange(from as int, s@.len() as int)) && v <= limit,
        r is None ==> !(s@.len() > from && all_digits(s@.subrange(from as int, s@.len() as int))
            && digits_value(s@.subrange(from as int, s@.len() as int)) <= limit),
{
    let ghost body = s@.subrange(from as int, s@.len() as int);
    if from == s.len() {
        return None;
    }
    let mut v: u64 = 0;
    let mut i: usize = from;
    while i < s.len()
        invariant
            from <= i <= s.len(),
            body == s@.subrange(from as int, s@.len() as int),
            all_digits(s@.subrange(from as int, i as int)),
            v == digits_value(s@.subrange(from as int, i as int)),
            v <= limit,
            limit >= 9,
        decreases s.len() - i,
    {
        let c = s[i];
        let ghost pre = s@.subrange(from as int, i as int);
        let ghost next = s@.subrange(from as int, i + 1);
        assert(next.drop_last() == pre);
        if !('0' <= c && c <= '9') {
            proof {
                assert(body[i - from] == c);
            }
            return None;
        }
        let d = (c as u32 - '0' as u32) as u64;
        assert(d <= 9);
        assert forall|k: int| 0 <= k < next.len() implies is_digit(#[trigger] next[k]) by {
            if k < pre.len() {
                assert(next[k] == pre[k]);
            }
        }
        if v > (limit - d) / 10 {
            proof {
                assert(digits_value(next) == v * 10 + d);
                assert(v * 10 + d > limit) by (nonlinear_arith)
                    requires
                        v > (limit - d) / 10,
                        d <= limit,
                        d <= 9,
                ;
                if all_digits(body) {
                    lemma_digits_value_prefix(body, i + 1 - from);
                    assert(body.subrange(0, i + 1 - from) == next);
                }
            }
            return None;
        }
        v = v * 10 + d;
        i = i + 1;
    }
    Some(v)
}

/// `s` as a `u64`, as `str::parse::<u64>` reads it.
pub fn parse_u64_exec(s: &[char]) -> (r: Option<u64>)
    ensures
        r == parse_u64(s@),
{
    let from: usize = if s.len() > 0 && s[0] == '+' { 1 } else { 0 };
    let ghost body = if s@.len() > 0 && s@[0] == '+' { s@.drop_first() } else { s@ };
    assert(body == s@.subrange(from as int, s@.len() as int));
    parse_digits(s, from, u64::MAX)
}

/// `s` as an `i32`, as `str::parse::<i32>` reads it.
pub fn parse_i32_exec(s: &[char]) -> (r: Option<i32>)
    ensures
        r == parse_i32(s@),
{
    let neg = s.len() > 0 && s[0] == '-';
    let from: usize = if s.len() > 0 && (s[0] == '+' || s[0] == '-') { 1 } else { 0 };
    let ghost body = if s@.len() > 0 && (s@[0] == '+' || s@[0] == '-') { s@.drop_first() } else { s@ };
    assert(body == s@.subrange(from as int, s@.len() as int));
    let limit: u64 = if neg { 2147483648 } else { 2147483647 };
    match parse_digits(s, from, limit) {
        None => None,
        Some(v) => {
            if neg {
                Some((0 - (v as i64)) as i32)
            } else {
                Some(v as i32)
            }
        },
    }
}

/// `n` in decimal.
pub fn decimal_exec(n: u64) -> (r: Vec<char>)
    ensures
        r@ == decimal(n as nat),
    decreases n,
{
    let d = (n % 10) as u32;
    let c = char_from_ascii(d + 48);
    if n < 10 {
        let r = vec![c];
        assert(r@ =~= seq![digit_char(n as nat)]);
        r
    } else {
        let mut r = decimal_exec(n / 10);
        r.push(c);
        r
    }
}

/// `n` in decimal with its sign.
pub fn signed_decimal_exec(n: i64) -> (r: Vec<char>)
    ensures
        r@ == signed_decimal(n as int),
{
    if n < 0 {
        let m: u64 = if n == i64::MIN { 9223372036854775808u64 } else { (0 - n) as u64 };
        let d = decimal_exec(m);
        let mut r = vec!['-'];
        let r = concat_chars(r.as_slice(), d.as_slice());
        r
    } else {
        decimal_exec(n as u64)
    }
}

/// `n` in decimal, zero-padded to `width` digits.
pub fn zero_padded_exec(n: u64, width: usize) -> (r: Vec<char>)
    ensures
        r@ == zero_padded(n as nat, width as nat),
{
    let d = decimal_exec(n);
    if d.len() >= width {
        return d;
    }
    let mut r: Vec<char> = Vec::new();
    let pad = width - d.len();
    let mut i: usize = 0;
    while i < pad
        invariant
            i <= pad,
            r@ == Seq::new(i as nat, |k: int| '0'),
        decreases pad - i,
    {
        r.push('0');
        proof {
            assert(r@ =~= Seq::new((i + 1) as nat, |k: int| '0'));
        }
        i = i + 1;
    }
    concat_chars(r.as_slice(), d.as_slice())
}

/// What `str::to_lowercase` gives for a string: the Unicode lower-case mapping of every
/// character, which may change a string's length.
pub uninterp spec fn unicode_lower(s: Seq<char>) -> Seq<char>;

/// `str::to_lowercase`. Claims only that the result is a function of the string.
#[verifier::external_body]
pub(crate) fn to_lowercase(s: &str) -> (r: String)
    ensures
        r@ == unicode_lower(s@),
{
    s.to_lowercase()
}

/// `a` sorts strictly before `b` the way strings compare: by code point, a prefix first.
pub open spec fn chars_lt(a: Seq<char>, b: Seq<char>) -> bool
    decreases a.len(),
{
    if a.len() == 0 {
        b.len() > 0
    } else if b.len() == 0 {
        false
    } else if a[0] != b[0] {
        (a[0] as int) < (b[0] as int)
    } else {
        chars_lt(a.drop_first(), b.drop_first())
    }
}

/// Whether `a` sorts strictly before `b`.
pub fn chars_lt_exec(a: &[char], b: &[char]) -> (r: bool)
    ensures
        r == chars_lt(a@, b@),
{
    let mut i: usize = 0;
    assert(a@.subrange(0, a@.len() as int) =~= a@);
    assert(b@.subrange(0, b@.len() as int) =~= b@);
    while i < a.len() && i < b.len() && a[i] == b[i]
        invariant
            i <= a.len(),
            i <= b.len(),
            chars_lt(a@, b@) == chars_lt(a@.subrange(i as int, a@.len() as int), b@.subrange(
                i as int,
                b@.len() as int,
            )),
        decreases a.len() - i,
    {
        proof {
            let x = a@.subrange(i as int, a@.len() as int);
            let y = b@.subrange(i as int, b@.len() as int);
            assert(x.drop_first() =~= a@.subrange(i + 1, a@.len() as int));
            assert(y.drop_first() =~= b@.subrange(i + 1, b@.len() as int));
            assert(x[0] == a@[i as int] && y[0] == b@[i as int]);
        }
        i = i + 1;
    }
    proof {
        let x = a@.subrange(i as int, a@.len() as int);
        let y = b@.subrange(i as int, b@.len() as int);
        if i < a.len() && i < b.len() {
            assert(x[0] == a@[i as int] && y[0] == b@[i as int]);
        }
    }
    if i == a.len() {
        i < b.len()
    } else if i == b.len() {
        false
    } else {
        a[i] < b[i]
    }
}

/// Every non-overlapping occurrence of the non-empty `pat` replaced by `with`, left to right, as
/// `str::replace` does.
pub open spec fn replace_all(s: Seq<char>, pat: Seq<char>, with: Seq<char>) -> Seq<char>
    decreases s.len(),
{
    if pat.len() == 0 {
        s
    } else {
        match find(s, pat) {
            None => s,
            Some(i) => {
                proof {
                    lemma_find_from(s, pat, 0);
                }
                s.subrange(0, i) + with + replace_all(s.subrange(i + pat.len(), s.len() as int), pat, with)
            },
        }
    }
}

/// `s` with every occurrence of the non-empty `pat` replaced by `with`.
pub fn replace_exec(s: &[char], pat: &[char], with: &[char]) -> (r: Vec<char>)
    requires
        pat@.len() > 0,
    ensures
        r@ == replace_all(s@, pat@, with@),
{
    let mut out: Vec<char> = Vec::new();
    let mut rest: Vec<char> = copy_chars(s);
    loop
        invariant
            pat@.len() > 0,
            out@ + replace_all(rest@, pat@, with@) == replace_all(s@, pat@, with@),
        decreases rest@.len(),
    {
        match find_exec(rest.as_slice(), pat) {
            None => {
                let ghost before = out@;
                let joined = concat_chars(out.as_slice(), rest.as_slice());
                assert(joined@ == before + rest@);
                return joined;
            },
            Some(i) => {
                proof {
                    lemma_find_from(rest@, pat@, 0);
                    assert(occurs_at(rest@, pat@, i as int));
                }
                assert(i + pat.len() <= rest.len());
                let head = slice_chars(rest.as_slice(), 0, i);
                let a = concat_chars(out.as_slice(), head.as_slice());
                let b = concat_chars(a.as_slice(), with);
                let tail = slice_chars(rest.as_slice(), i + pat.len(), rest.len());
                proof {
                    assert(b@ + replace_all(tail@, pat@, with@) =~= out@ + replace_all(rest@, pat@, with@));
                }
                out = b;
                rest = tail;
            },
        }
    }
}

/// No string sorts before itself.
pub proof fn lemma_chars_lt_irreflexive(a: Seq<char>)
    ensures
        !chars_lt(a, a),
    decreases a.len(),
{
    if a.len() > 0 {
        lemma_chars_lt_irreflexive(a.drop_first());
    }
}

/// Sorting before is transitive.
pub proof fn lemma_chars_lt_transitive(a: Seq<char>, b: Seq<char>, c: Seq<char>)
    requires
        chars_lt(a, b),
        chars_lt(b, c),
    ensures
        chars_lt(a, c),
    decreases a.len(),
{
    if a.len() > 0 && b.len() > 0 && c.len() > 0 {
        if a[0] == b[0] && b[0] == c[0] {
            lemma_chars_lt_transitive(a.drop_first(), b.drop_first(), c.drop_first());
        }
    }
}

/// Of two different strings, one sorts before the other.
pub proof fn lemma_chars_lt_total(a: Seq<char>, b: Seq<char>)
    requires
        a != b,
    ensures
        chars_lt(a, b) || chars_lt(b, a),
    decreases a.len(),
{
    if a.len() > 0 && b.len() > 0 && a[0] == b[0] {
        if a.drop_first() == b.drop_first() {
            assert(a =~= seq![a[0]] + a.drop_first());
            assert(b =~= seq![b[0]] + b.drop_first());
        }
        lemma_chars_lt_total(a.drop_first(), b.drop_first());
    } else if a.len() == 0 && b.len() == 0 {
        assert(a =~= b);
    } else if a.len() > 0 && b.len() > 0 {
        let x = a[0];
        let y = b[0];
        assert(x != y);
        assert((x as int) != (y as int));
    }
}

/// Of two strings, at most one sorts before the other.
pub proof fn lemma_chars_lt_asymmetric(a: Seq<char>, b: Seq<char>)
    requires
        chars_lt(a, b),
    ensures
        !chars_lt(b, a),
    decreases a.len(),
{
    if a.len() > 0 && b.len() > 0 && a[0] == b[0] {
        lemma_chars_lt_asymmetric(a.drop_first(), b.drop_first());
    }
}

/// A list in strictly increasing order: sorted, and no entry twice.
pub open spec fn strictly_sorted(s: Seq<Seq<char>>) -> bool {
    forall|i: int, j: int| 0 <= i < j < s.len() ==> chars_lt(s[i], s[j])
}

/// The contents of a list of strings.
pub open spec fn string_views(s: Seq<String>) -> Seq<Seq<char>> {
    s.map_values(|x: String| x@)
}

/// Adds `x` to a strictly sorted list of strings, unless it is there already; the list stays
/// strictly sorted and holds exactly what it held and `x`.
pub fn insert_sorted(list: &mut Vec<String>, x: String)
    requires
        strictly_sorted(string_views(old(list)@)),
    ensures
        strictly_sorted(string_views(final(list)@)),
        forall|y: Seq<char>|
            #[trigger] string_views(final(list)@).contains(y) == (string_views(old(list)@).contains(y) || y == x@),
{
    let ghost before = string_views(list@);
    let xc = chars_of(x.as_str());
    let mut p: usize = 0;
    let mut stop = false;
    while p < list.len() && !stop
        invariant
            p <= list@.len(),
            before == string_views(list@),
            xc@ == x@,
            forall|k: int| 0 <= k < p ==> chars_lt(before[k], x@),
            stop ==> p < list@.len() && !chars_lt(before[p as int], x@),
        decreases list@.len() - p + (if stop { 0int } else { 1int }),
    {
        let pc = chars_of(list[p].as_str());
        if chars_lt_exec(pc.as_slice(), xc.as_slice()) {
            p = p + 1;
        } else {
            stop = true;
        }
    }
    if p < list.len() && same(list[p].as_str(), x.as_str()) {
        proof {
            assert forall|y: Seq<char>| #[trigger] before.contains(y) == (before.contains(y) || y == x@) by {
                if y == x@ {
                    assert(before[p as int] == x@);
                }
            }
        }
        return;
    }
    proof {
        if p < list@.len() {
            assert(before[p as int] != x@);
            assert(!chars_lt(before[p as int], x@));
            lemma_chars_lt_total(before[p as int], x@);
        }
    }
    list.insert(p, x);
    proof {
        let after = string_views(list@);
        assert(after =~= before.insert(p as int, xc@));
        assert forall|i: int, j: int| 0 <= i < j < after.len() implies chars_lt(after[i], after[j]) by {
            if j < p {
                assert(after[i] == before[i] && after[j] == before[j]);
            } else if j == p {
                assert(after[i] == before[i]);
            } else if i == p {
                assert(after[j] == before[j - 1]);
                if j - 1 > p {
                    lemma_chars_lt_transitive(x@, before[p as int], before[j - 1]);
                }
            } else if i < p {
                assert(after[i] == before[i] && after[j] == before[j - 1]);
            } else {
                assert(after[i] == before[i - 1] && after[j] == before[j - 1]);
            }
        }
        assert forall|y: Seq<char>| #[trigger] after.contains(y) == (before.contains(y) || y == x@) by {
            if after.contains(y) {
                let k = choose|k: int| 0 <= k < after.len() && after[k] == y;
                if k < p {
                    assert(before[k] == y);
                } else if k > p {
                    assert(before[k - 1] == y);
                }
            }
            if before.contains(y) {
                let k = choose|k: int| 0 <= k < before.len() && before[k] == y;
                if k < p {
                    assert(after[k] == y);
                } else {
                    assert(after[k + 1] == y);
                }
            }
            if y == x@ {
                assert(after[p as int] == y);
            }
        }
    }
}

} // verus!
