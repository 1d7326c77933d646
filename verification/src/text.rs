//! Character-level text helpers with exact contracts over `Seq<char>` views.

use vstd::prelude::*;
use vstd::string::*;

verus! {

/// Equality of two string slices by their characters.
pub fn str_eq(a: &str, b: &str) -> (r: bool)
    ensures
        r == (a@ == b@),
{
    let x = String::from_str(a);
    let y = String::from_str(b);
    x == y
}

/// An owned copy of a string slice.
pub fn owned(s: &str) -> (r: String)
    ensures
        r@ == s@,
{
    String::from_str(s)
}

/// Appends one character (`String::push`).
#[verifier::external_body]
pub fn push_char(s: &mut String, c: char)
    ensures
        final(s)@ == old(s)@.push(c),
{
    s.push(c);
}

/// Appends a string slice.
pub fn push_str(s: &mut String, t: &str)
    ensures
        final(s)@ == old(s)@ + t@,
{
    s.append(t);
}

} // verus!

verus! {

/// Rust's `char::is_whitespace`: the Unicode `White_Space` property.
pub open spec fn is_ws(c: char) -> bool {
    let u = c as u32;
    (0x9 <= u <= 0xD) || u == 0x20 || u == 0x85 || u == 0xA0 || u == 0x1680 || (0x2000 <= u
        <= 0x200A) || u == 0x2028 || u == 0x2029 || u == 0x202F || u == 0x205F || u == 0x3000
}

/// Executable form of [`is_ws`].
pub fn is_whitespace(c: char) -> (r: bool)
    ensures
        r == is_ws(c),
{
    let u = c as u32;
    (0x9 <= u && u <= 0xD) || u == 0x20 || u == 0x85 || u == 0xA0 || u == 0x1680 || (0x2000 <= u
        && u <= 0x200A) || u == 0x2028 || u == 0x2029 || u == 0x202F || u == 0x205F || u == 0x3000
}

/// The characters of a string slice, in order.
pub fn chars_of(s: &str) -> (r: Vec<char>)
    ensures
        r@ == s@,
{
    let mut out: Vec<char> = Vec::new();
    for c in it: s.chars()
        invariant
            out@ == it.seq().take(it.index() as int),
            it.seq() == s@,
    {
        out.push(c);
    }
    out
}

} // verus!

verus! {

/// A string holding exactly the given characters.
pub fn string_of(cs: &[char]) -> (r: String)
    ensures
        r@ == cs@,
{
    let mut out = String::new();
    let n = cs.len();
    for i in 0..n
        invariant
            n == cs@.len(),
            out@ == cs@.take(i as int),
    {
        push_char(&mut out, cs[i]);
        assert(cs@.take(i + 1) =~= cs@.take(i as int).push(cs@[i as int]));
    }
    assert(cs@.take(n as int) =~= cs@);
    out
}

/// A character with ASCII capitals lowered.
pub open spec fn lower_ascii_char(c: char) -> char {
    if 'A' <= c && c <= 'Z' {
        ((c as u32) + 32) as char
    } else {
        c
    }
}

/// The characters with ASCII capitals lowered.
pub open spec fn lower_ascii(s: Seq<char>) -> Seq<char> {
    s.map_values(|c: char| lower_ascii_char(c))
}

/// The string with ASCII capitals lowered.
pub fn ascii_lowercase(s: &str) -> (r: String)
    ensures
        r@ == lower_ascii(s@),
{
    let cs = chars_of(s);
    let mut out: Vec<char> = Vec::new();
    for i in 0..cs.len()
        invariant
            cs@ == s@,
            out@ == lower_ascii(s@).take(i as int),
    {
        let c = cs[i];
        let l = if 'A' <= c && c <= 'Z' {
            ((c as u8) + 32) as char
        } else {
            c
        };
        assert(l == lower_ascii_char(c));
        out.push(l);
        assert(lower_ascii(s@).take(i + 1) =~= lower_ascii(s@).take(i as int).push(lower_ascii_char(c)));
    }
    assert(lower_ascii(s@).take(cs.len() as int) =~= lower_ascii(s@));
    string_of(out.as_slice())
}

/// A copy of a list of strings.
pub fn copy_strings(v: &Vec<String>) -> (r: Vec<String>)
    ensures
        r@ == v@,
{
    let mut out: Vec<String> = Vec::new();
    for i in 0..v.len()
        invariant
            out@ == v@.take(i as int),
    {
        out.push(v[i].clone());
        assert(v@.take(i + 1) =~= v@.take(i as int).push(v@[i as int]));
    }
    assert(v@.take(v@.len() as int) =~= v@);
    out
}

/// `str::trim_start`: leading whitespace removed.
pub open spec fn ltrim(s: Seq<char>) -> Seq<char>
    decreases s.len(),
{
    if s.len() > 0 && is_ws(s[0]) {
        ltrim(s.drop_first())
    } else {
        s
    }
}

/// `str::trim_end`: trailing whitespace removed.
pub open spec fn rtrim(s: Seq<char>) -> Seq<char>
    decreases s.len(),
{
    if s.len() > 0 && is_ws(s.last()) {
        rtrim(s.drop_last())
    } else {
        s
    }
}

/// `str::trim`.
pub open spec fn trim_seq(s: Seq<char>) -> Seq<char> {
    rtrim(ltrim(s))
}

/// Trimming leaves nothing exactly when every character is whitespace.
pub proof fn lemma_trim_empty_iff_all_ws(s: Seq<char>)
    ensures
        (trim_seq(s).len() == 0) <==> (forall|i: int| 0 <= i < s.len() ==> is_ws(#[trigger] s[i])),
    decreases s.len(),
{
    lemma_ltrim_suffix(s);
    if s.len() > 0 && is_ws(s[0]) {
        lemma_trim_empty_iff_all_ws(s.drop_first());
        if trim_seq(s).len() == 0 {
            assert forall|i: int| 0 <= i < s.len() implies is_ws(#[trigger] s[i]) by {
                if i > 0 {
                    assert(s.drop_first()[i - 1] == s[i]);
                }
            }
        }
    } else if s.len() > 0 {
        lemma_rtrim_keeps_first(s);
    }
}

proof fn lemma_ltrim_suffix(s: Seq<char>)
    ensures
        ltrim(s).len() <= s.len(),
        ltrim(s).len() > 0 ==> !is_ws(ltrim(s)[0]),
        ltrim(s) == s.subrange(s.len() - ltrim(s).len(), s.len() as int),
    decreases s.len(),
{
    if s.len() > 0 && is_ws(s[0]) {
        lemma_ltrim_suffix(s.drop_first());
        assert(s.drop_first().subrange(
            s.drop_first().len() - ltrim(s.drop_first()).len(),
            s.drop_first().len() as int,
        ) =~= s.subrange(s.len() - ltrim(s).len(), s.len() as int));
    } else {
        assert(s.subrange(0, s.len() as int) =~= s);
    }
}

/// A sequence that starts with a non-whitespace character keeps it through `rtrim`.
proof fn lemma_rtrim_keeps_first(s: Seq<char>)
    requires
        s.len() > 0,
        !is_ws(s[0]),
    ensures
        rtrim(s).len() > 0,
    decreases s.len(),
{
    if is_ws(s.last()) {
        assert(s.len() > 1);
        lemma_rtrim_keeps_first(s.drop_last());
    }
}

proof fn lemma_ltrim_step(s: Seq<char>, i: int)
    requires
        0 <= i < s.len(),
        is_ws(s[i]),
    ensures
        ltrim(s.subrange(i, s.len() as int)) == ltrim(s.subrange(i + 1, s.len() as int)),
{
    assert(s.subrange(i, s.len() as int).drop_first() =~= s.subrange(i + 1, s.len() as int));
}

proof fn lemma_rtrim_step(s: Seq<char>, lo: int, hi: int)
    requires
        0 <= lo < hi <= s.len(),
        is_ws(s[hi - 1]),
    ensures
        rtrim(s.subrange(lo, hi)) == rtrim(s.subrange(lo, hi - 1)),
{
    assert(s.subrange(lo, hi).drop_last() =~= s.subrange(lo, hi - 1));
}

/// `str::trim` as an owned string.
pub fn trim(s: &str) -> (r: String)
    ensures
        r@ == trim_seq(s@),
{
    let cs = chars_of(s);
    let n = cs.len();
    let mut lo: usize = 0;
    assert(cs@.subrange(0, n as int) =~= cs@);
    while lo < n && is_whitespace(cs[lo])
        invariant
            lo <= n,
            n == cs@.len(),
            ltrim(cs@) == ltrim(cs@.subrange(lo as int, n as int)),
        decreases n - lo,
    {
        proof {
            lemma_ltrim_step(cs@, lo as int);
        }
        lo = lo + 1;
    }
    assert(ltrim(cs@) == cs@.subrange(lo as int, n as int));
    let mut hi: usize = n;
    while hi > lo && is_whitespace(cs[hi - 1])
        invariant
            lo <= hi <= n,
            n == cs@.len(),
            trim_seq(cs@) == rtrim(cs@.subrange(lo as int, hi as int)),
        decreases hi,
    {
        proof {
            lemma_rtrim_step(cs@, lo as int, hi as int);
        }
        hi = hi - 1;
    }
    let mut out = String::new();
    let mut k: usize = lo;
    while k < hi
        invariant
            lo <= k <= hi <= n,
            n == cs@.len(),
            out@ == cs@.subrange(lo as int, k as int),
        decreases hi - k,
    {
        push_char(&mut out, cs[k]);
        assert(cs@.subrange(lo as int, k + 1) =~= cs@.subrange(lo as int, k as int).push(cs@[k as int]));
        k = k + 1;
    }
    out
}

/// Whether the string is empty after trimming, i.e. blank.
pub fn is_blank(s: &str) -> (r: bool)
    ensures
        r == (trim_seq(s@).len() == 0),
        r == (forall|i: int| 0 <= i < s@.len() ==> is_ws(#[trigger] s@[i])),
{
    proof {
        lemma_trim_empty_iff_all_ws(s@);
    }
    let t = trim(s);
    t.as_str().is_empty()
}

} // verus!

verus! {

/// Whether `p` occurs in `cs` starting at index `i`.
pub open spec fn occurs_at(cs: Seq<char>, i: int, p: Seq<char>) -> bool {
    0 <= i && i + p.len() <= cs.len() && cs.subrange(i, i + p.len()) == p
}

/// Executable form of [`occurs_at`].
pub fn matches_at(cs: &Vec<char>, i: usize, p: &Vec<char>) -> (r: bool)
    ensures
        r == occurs_at(cs@, i as int, p@),
{
    if i > cs.len() || p.len() > cs.len() - i {
        return false;
    }
    let plen = p.len();
    for k in 0..plen
        invariant
            plen == p@.len(),
            i + plen <= cs@.len(),
            cs@.len() == cs.len(),
            forall|j: int| 0 <= j < k ==> cs@[i + j] == p@[j],
    {
        if cs[i + k] != p[k] {
            assert(cs@.subrange(i as int, i + plen)[k as int] != p@[k as int]);
            return false;
        }
    }
    assert(cs@.subrange(i as int, i + plen) =~= p@);
    true
}

/// `str::ends_with` over characters.
pub open spec fn ends_with_seq(s: Seq<char>, p: Seq<char>) -> bool {
    p.len() <= s.len() && s.subrange(s.len() - p.len(), s.len() as int) == p
}

/// `str::starts_with` over characters.
pub open spec fn starts_with_seq(s: Seq<char>, p: Seq<char>) -> bool {
    p.len() <= s.len() && s.subrange(0, p.len() as int) == p
}

/// Executable form of [`ends_with_seq`].
pub fn ends_with(s: &str, p: &str) -> (r: bool)
    ensures
        r == ends_with_seq(s@, p@),
{
    let cs = chars_of(s);
    let ps = chars_of(p);
    if ps.len() > cs.len() {
        return false;
    }
    matches_at(&cs, cs.len() - ps.len(), &ps)
}

/// Executable form of [`starts_with_seq`].
pub fn starts_with(s: &str, p: &str) -> (r: bool)
    ensures
        r == starts_with_seq(s@, p@),
{
    let cs = chars_of(s);
    let ps = chars_of(p);
    matches_at(&cs, 0, &ps)
}

/// The characters of `s` without the final `n` of them.
pub fn drop_last_chars(s: &str, n: usize) -> (r: String)
    requires
        n <= s@.len(),
    ensures
        r@ == s@.subrange(0, s@.len() - n),
{
    let cs = chars_of(s);
    let keep = cs.len() - n;
    let mut out = String::new();
    for k in 0..keep
        invariant
            keep == cs@.len() - n,
            cs@ == s@,
            out@ == cs@.subrange(0, k as int),
    {
        push_char(&mut out, cs[k]);
        assert(cs@.subrange(0, k + 1) =~= cs@.subrange(0, k as int).push(cs@[k as int]));
    }
    out
}

/// The decimal digit character for a value below ten.
pub open spec fn digit(d: nat) -> char {
    if d == 0 {
        '0'
    } else if d == 1 {
        '1'
    } else if d == 2 {
        '2'
    } else if d == 3 {
        '3'
    } else if d == 4 {
        '4'
    } else if d == 5 {
        '5'
    } else if d == 6 {
        '6'
    } else if d == 7 {
        '7'
    } else if d == 8 {
        '8'
    } else {
        '9'
    }
}

/// The decimal rendering of a natural number (`u64::to_string`).
pub open spec fn dec(n: nat) -> Seq<char>
    decreases n,
{
    if n < 10 {
        seq![digit(n)]
    } else {
        dec(n / 10).push(digit(n % 10))
    }
}

fn digit_char(d: u64) -> (c: char)
    requires
        d < 10,
    ensures
        c == digit(d as nat),
{
    if d == 0 {
        '0'
    } else if d == 1 {
        '1'
    } else if d == 2 {
        '2'
    } else if d == 3 {
        '3'
    } else if d == 4 {
        '4'
    } else if d == 5 {
        '5'
    } else if d == 6 {
        '6'
    } else if d == 7 {
        '7'
    } else if d == 8 {
        '8'
    } else {
        '9'
    }
}

/// Decimal text of an unsigned integer.
pub fn u64_text(n: u64) -> (r: String)
    ensures
        r@ == dec(n as nat),
    decreases n,
{
    if n < 10 {
        let mut s = String::new();
        push_char(&mut s, digit_char(n));
        s
    } else {
        let mut s = u64_text(n / 10);
        push_char(&mut s, digit_char(n % 10));
        s
    }
}

/// Decimal text of a signed integer, with a leading `-` when negative.
pub open spec fn dec_signed(n: int) -> Seq<char> {
    if n < 0 {
        seq!['-'] + dec((-n) as nat)
    } else {
        dec(n as nat)
    }
}

/// Decimal text of an `i32` (`i32::to_string`).
pub fn i32_text(n: i32) -> (r: String)
    ensures
        r@ == dec_signed(n as int),
{
    if n < 0 {
        let magnitude: u64 = (0 - (n as i64)) as u64;
        let digits = u64_text(magnitude);
        let mut s = String::new();
        push_char(&mut s, '-');
        push_str(&mut s, digits.as_str());
        s
    } else {
        u64_text(n as u64)
    }
}

/// Decimal text of an `i64` (`i64::to_string`).
pub fn i64_text(n: i64) -> (r: String)
    ensures
        r@ == dec_signed(n as int),
{
    if n < 0 {
        let magnitude: u64 = (0i128 - (n as i128)) as u64;
        let digits = u64_text(magnitude);
        let mut s = String::new();
        push_char(&mut s, '-');
        push_str(&mut s, digits.as_str());
        s
    } else {
        u64_text(n as u64)
    }
}

/// `str::replace(pattern, replacement)` for a non-empty pattern: occurrences
/// are replaced left to right without overlap.
pub open spec fn replace_nonempty(h: Seq<char>, p: Seq<char>, r: Seq<char>) -> Seq<char>
    recommends
        p.len() > 0,
    decreases h.len(),
{
    if p.len() == 0 || h.len() == 0 {
        h
    } else if occurs_at(h, 0, p) {
        r + replace_nonempty(h.skip(p.len() as int), p, r)
    } else {
        seq![h[0]] + replace_nonempty(h.drop_first(), p, r)
    }
}

/// `str::replace` with an empty pattern: the replacement before every
/// character and at the end.
pub open spec fn replace_empty(h: Seq<char>, r: Seq<char>) -> Seq<char>
    decreases h.len(),
{
    if h.len() == 0 {
        r
    } else {
        r + seq![h[0]] + replace_empty(h.drop_first(), r)
    }
}

/// `str::replace`.
pub open spec fn replace_seq(h: Seq<char>, p: Seq<char>, r: Seq<char>) -> Seq<char> {
    if p.len() == 0 {
        replace_empty(h, r)
    } else {
        replace_nonempty(h, p, r)
    }
}

/// Every occurrence of `pattern` in `haystack` replaced by `replacement`.
pub fn replace_all(haystack: &str, pattern: &str, replacement: &str) -> (out: String)
    ensures
        out@ == replace_seq(haystack@, pattern@, replacement@),
{
    let cs = chars_of(haystack);
    let ps = chars_of(pattern);
    let n = cs.len();
    let mut out = String::new();
    let mut i: usize = 0;
    if ps.len() == 0 {
        assert(cs@.skip(0) =~= cs@);
        while i < n
            invariant
                i <= n,
                n == cs@.len(),
                out@ + replace_empty(cs@.skip(i as int), replacement@) == replace_empty(
                    cs@,
                    replacement@,
                ),
            decreases n - i,
        {
            let ghost before = out@;
            assert(cs@.skip(i as int).drop_first() =~= cs@.skip(i + 1));
            push_str(&mut out, replacement);
            push_char(&mut out, cs[i]);
            assert(out@ =~= before + replacement@ + seq![cs@[i as int]]);
            i = i + 1;
        }
        push_str(&mut out, replacement);
        assert(cs@.skip(n as int) =~= Seq::<char>::empty());
        return out;
    }
    assert(cs@.skip(0) =~= cs@);
    while i < n
        invariant
            i <= n,
            n == cs@.len(),
            ps@.len() > 0,
            ps@ == pattern@,
            cs@ == haystack@,
            out@ + replace_nonempty(cs@.skip(i as int), ps@, replacement@) == replace_nonempty(
                cs@,
                ps@,
                replacement@,
            ),
        decreases n - i,
    {
        let ghost rest = cs@.skip(i as int);
        let ghost before = out@;
        if matches_at(&cs, i, &ps) {
            assert(rest.subrange(0, ps@.len() as int) =~= cs@.subrange(i as int, i + ps@.len()));
            assert(rest.skip(ps@.len() as int) =~= cs@.skip(i + ps@.len()));
            push_str(&mut out, replacement);
            i = i + ps.len();
        } else {
            assert(!occurs_at(rest, 0, ps@)) by {
                if occurs_at(rest, 0, ps@) {
                    assert(rest.subrange(0, ps@.len() as int) =~= cs@.subrange(
                        i as int,
                        i + ps@.len(),
                    ));
                }
            }
            assert(rest.drop_first() =~= cs@.skip(i + 1));
            push_char(&mut out, cs[i]);
            assert(out@ =~= before + seq![cs@[i as int]]);
            i = i + 1;
        }
    }
    assert(cs@.skip(n as int) =~= Seq::<char>::empty());
    out
}

} // verus!

verus! {

/// The character view of an optional string.
pub open spec fn opt_view(o: Option<String>) -> Option<Seq<char>> {
    match o {
        Some(s) => Some(s@),
        None => None,
    }
}

/// A copy of an optional string.
pub fn clone_opt(o: &Option<String>) -> (r: Option<String>)
    ensures
        r == *o,
        opt_view(r) == opt_view(*o),
{
    match o {
        Some(s) => Some(s.clone()),
        None => None,
    }
}

} // verus!

verus! {

/// The UTF-8 byte length of a character sequence (`str::len`).
pub open spec fn byte_len(s: Seq<char>) -> nat {
    vstd::utf8::encode_utf8(s).len()
}

/// UTF-8 encoding distributes over concatenation.
pub proof fn lemma_encode_concat(a: Seq<char>, b: Seq<char>)
    ensures
        vstd::utf8::encode_utf8(a + b) == vstd::utf8::encode_utf8(a) + vstd::utf8::encode_utf8(b),
    decreases a.len(),
{
    if a.len() == 0 {
        assert(a + b =~= b);
        assert(vstd::utf8::encode_utf8(a) =~= Seq::<u8>::empty());
        assert(vstd::utf8::encode_utf8(a) + vstd::utf8::encode_utf8(b) =~= vstd::utf8::encode_utf8(
            b,
        ));
    } else {
        assert((a + b).drop_first() =~= a.drop_first() + b);
        lemma_encode_concat(a.drop_first(), b);
        assert((a + b)[0] == a[0]);
        assert(vstd::utf8::encode_utf8(a + b) =~= vstd::utf8::encode_scalar(a[0] as u32) + (
        vstd::utf8::encode_utf8(a.drop_first()) + vstd::utf8::encode_utf8(b)));
    }
}

/// The UTF-8 width of one character.
pub open spec fn char_width(c: char) -> nat {
    vstd::utf8::encode_scalar(c as u32).len()
}

/// The byte length of a prefix grows by the width of the next character.
pub proof fn lemma_byte_len_take(s: Seq<char>, i: int)
    requires
        0 <= i < s.len(),
    ensures
        byte_len(s.take(i + 1)) == byte_len(s.take(i)) + char_width(s[i]),
        byte_len(s.take(i)) <= byte_len(s.take(i + 1)),
{
    assert(s.take(i + 1) =~= s.take(i) + seq![s[i]]);
    lemma_encode_concat(s.take(i), seq![s[i]]);
    let single = seq![s[i]];
    assert(single.drop_first() =~= Seq::<char>::empty());
    assert(vstd::utf8::encode_utf8(single.drop_first()) =~= Seq::<u8>::empty());
    assert(vstd::utf8::encode_utf8(single) == vstd::utf8::encode_scalar(single[0] as u32)
        + vstd::utf8::encode_utf8(single.drop_first()));
    assert(vstd::utf8::encode_scalar(s[i] as u32) + Seq::<u8>::empty() =~= vstd::utf8::encode_scalar(
        s[i] as u32,
    ));
}

/// Byte lengths of prefixes never decrease.
pub proof fn lemma_byte_len_monotone(s: Seq<char>, i: int, j: int)
    requires
        0 <= i <= j <= s.len(),
    ensures
        byte_len(s.take(i)) <= byte_len(s.take(j)),
    decreases j - i,
{
    if i < j {
        lemma_byte_len_take(s, j - 1);
        lemma_byte_len_monotone(s, i, j - 1);
    }
}

/// Executable width of one character.
pub fn utf8_width(c: char) -> (w: usize)
    ensures
        w == char_width(c),
        1 <= w <= 4,
{
    let u = c as u32;
    proof {
        vstd::utf8::char_is_scalar(c);
    }
    if u <= 0x7F {
        1
    } else if u <= 0x7FF {
        2
    } else if u <= 0xFFFF {
        3
    } else {
        4
    }
}

/// The longest character prefix of `s` whose UTF-8 length is at most `limit`.
pub open spec fn is_longest_prefix_within(s: Seq<char>, k: int, limit: nat) -> bool {
    &&& 0 <= k <= s.len()
    &&& byte_len(s.take(k)) <= limit
    &&& (k < s.len() ==> byte_len(s.take(k + 1)) > limit)
}

/// The number of leading characters of `s` that fit in `limit` bytes.
pub fn prefix_within(s: &Vec<char>, limit: usize) -> (k: usize)
    ensures
        is_longest_prefix_within(s@, k as int, limit as nat),
{
    let n = s.len();
    let mut used: usize = 0;
    let mut k: usize = 0;
    assert(s@.take(0) =~= Seq::<char>::empty());
    while k < n
        invariant
            k <= n,
            n == s@.len(),
            used == byte_len(s@.take(k as int)),
            used <= limit,
        decreases n - k,
    {
        let w = utf8_width(s[k]);
        proof {
            lemma_byte_len_take(s@, k as int);
        }
        if w > limit - used {
            return k;
        }
        used = used + w;
        k = k + 1;
    }
    assert(s@.take(n as int) =~= s@);
    k
}

/// The first `k` characters of `s` as a string.
pub fn prefix_string(s: &Vec<char>, k: usize) -> (r: String)
    requires
        k <= s@.len(),
    ensures
        r@ == s@.take(k as int),
{
    let mut out = String::new();
    for i in 0..k
        invariant
            k <= s@.len(),
            out@ == s@.take(i as int),
    {
        push_char(&mut out, s[i]);
        assert(s@.take(i + 1) =~= s@.take(i as int).push(s@[i as int]));
    }
    out
}

} // verus!

verus! {

/// The UTF-8 byte length of a string slice.
pub fn byte_length(s: &str) -> (n: usize)
    ensures
        n as nat == byte_len(s@),
{
    let bytes = s.as_bytes();
    bytes.len()
}

} // verus!

verus! {

/// Lexicographic order of character sequences by code point, which is also
/// the byte order of their UTF-8 encodings (`str`'s `Ord`).
pub open spec fn seq_lt(a: Seq<char>, b: Seq<char>) -> bool
    decreases a.len(),
{
    if a.len() == 0 {
        b.len() > 0
    } else if b.len() == 0 {
        false
    } else if (a[0] as u32) < (b[0] as u32) {
        true
    } else if a[0] == b[0] {
        seq_lt(a.drop_first(), b.drop_first())
    } else {
        false
    }
}

pub proof fn lemma_seq_lt_irreflexive(a: Seq<char>)
    ensures
        !seq_lt(a, a),
    decreases a.len(),
{
    if a.len() > 0 {
        lemma_seq_lt_irreflexive(a.drop_first());
    }
}

pub proof fn lemma_seq_lt_transitive(a: Seq<char>, b: Seq<char>, c: Seq<char>)
    requires
        seq_lt(a, b),
        seq_lt(b, c),
    ensures
        seq_lt(a, c),
    decreases a.len(),
{
    if a.len() > 0 && b.len() > 0 && c.len() > 0 && a[0] == b[0] && b[0] == c[0] {
        lemma_seq_lt_transitive(a.drop_first(), b.drop_first(), c.drop_first());
    }
}

pub proof fn lemma_seq_lt_total(a: Seq<char>, b: Seq<char>)
    ensures
        a == b || seq_lt(a, b) || seq_lt(b, a),
    decreases a.len(),
{
    if a.len() > 0 && b.len() > 0 && a[0] == b[0] {
        lemma_seq_lt_total(a.drop_first(), b.drop_first());
        if a.drop_first() == b.drop_first() {
            assert(a.drop_first().len() == a.len() - 1 && b.drop_first().len() == b.len() - 1);
            assert(a.len() == b.len());
            assert forall|i: int| 0 <= i < a.len() implies a[i] == b[i] by {
                if i > 0 {
                    assert(a[i] == a.drop_first()[i - 1]);
                    assert(b[i] == b.drop_first()[i - 1]);
                }
            }
            assert(a =~= b);
        }
    } else if a.len() > 0 && b.len() > 0 {
        vstd::utf8::char_u32_cast(a[0], a[0] as u32);
        vstd::utf8::char_u32_cast(b[0], b[0] as u32);
    } else if a.len() == 0 && b.len() == 0 {
        assert(a =~= b);
    }
}

pub proof fn lemma_seq_lt_asymmetric(a: Seq<char>, b: Seq<char>)
    ensures
        !(seq_lt(a, b) && seq_lt(b, a)),
{
    if seq_lt(a, b) && seq_lt(b, a) {
        lemma_seq_lt_transitive(a, b, a);
        lemma_seq_lt_irreflexive(a);
    }
}

/// Executable form of [`seq_lt`].
pub fn str_less(a: &str, b: &str) -> (r: bool)
    ensures
        r == seq_lt(a@, b@),
{
    let x = chars_of(a);
    let y = chars_of(b);
    let mut i: usize = 0;
    assert(x@.skip(0) =~= x@);
    assert(y@.skip(0) =~= y@);
    while i < x.len() && i < y.len() && x[i] == y[i]
        invariant
            i <= x@.len(),
            i <= y@.len(),
            seq_lt(x@, y@) == seq_lt(x@.skip(i as int), y@.skip(i as int)),
        decreases x@.len() - i,
    {
        assert(x@.skip(i as int).drop_first() =~= x@.skip(i + 1));
        assert(y@.skip(i as int).drop_first() =~= y@.skip(i + 1));
        i = i + 1;
    }
    if i == x.len() {
        i < y.len()
    } else if i == y.len() {
        false
    } else {
        (x[i] as u32) < (y[i] as u32)
    }
}

} // verus!

verus! {

/// The text `<str as Debug>::fmt` writes for a string: quoted, with escapes.
pub uninterp spec fn debug_quoted(s: Seq<char>) -> Seq<char>;

/// `<str as Debug>::fmt`: the quoted, escaped form of a string.
#[verifier::external_body]
pub fn debug_text(s: &str) -> (r: String)
    ensures
        r@ == debug_quoted(s@),
{
    format!("{s:?}")
}

} // verus!

verus! {

/// No character takes more than four bytes.
pub proof fn lemma_byte_len_bound(s: Seq<char>)
    ensures
        byte_len(s) <= 4 * s.len(),
    decreases s.len(),
{
    if s.len() > 0 {
        lemma_byte_len_bound(s.drop_first());
        assert(vstd::utf8::encode_scalar(s[0] as u32).len() <= 4);
    }
}

} // verus!
