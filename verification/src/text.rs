//! Text and sequence building blocks: concatenation, comparison, decimal and
//! hexadecimal numerals, whitespace, and splitting into lines.

use vstd::prelude::*;

verus! {

pub open spec fn strs_view(s: Seq<String>) -> Seq<Seq<char>>
{
    Seq::new(s.len(), |i: int| s[i]@)
}

pub broadcast proof fn strs_view_push(s: Seq<String>, x: String)
    ensures
        #[trigger] strs_view(s.push(x)) == strs_view(s).push(x@),
{
    assert(strs_view(s.push(x)) =~= strs_view(s).push(x@));
}

pub broadcast proof fn strs_view_empty(s: Seq<String>)
    requires
        s.len() == 0,
    ensures
        #[trigger] strs_view(s) == Seq::<Seq<char>>::empty(),
{
    assert(strs_view(s) =~= Seq::<Seq<char>>::empty());
}

pub broadcast proof fn strs_view_add(a: Seq<String>, b: Seq<String>)
    ensures
        #[trigger] strs_view(a + b) == strs_view(a) + strs_view(b),
{
    assert(strs_view(a + b) =~= strs_view(a) + strs_view(b));
}

pub broadcast proof fn strs_view_subrange(s: Seq<String>, a: int, b: int)
    requires
        0 <= a <= b <= s.len(),
    ensures
        #[trigger] strs_view(s.subrange(a, b)) == strs_view(s).subrange(a, b),
{
    assert(strs_view(s.subrange(a, b)) =~= strs_view(s).subrange(a, b));
}

pub broadcast proof fn strs_view_update(s: Seq<String>, i: int, x: String)
    requires
        0 <= i < s.len(),
    ensures
        #[trigger] strs_view(s.update(i, x)) == strs_view(s).update(i, x@),
{
    assert(strs_view(s.update(i, x)) =~= strs_view(s).update(i, x@));
}

pub fn dup_strs(v: &Vec<String>) -> (r: Vec<String>)
    ensures
        strs_view(r@) == strs_view(v@),
{
    let mut r: Vec<String> = Vec::new();
    let mut i: usize = 0;
    while i < v.len()
        invariant
            i <= v.len(),
            r.len() == i,
            forall|j: int| 0 <= j < i ==> #[trigger] strs_view(r@)[j] == strs_view(v@)[j],
        decreases v.len() - i,
    {
        let ghost before = r@;
        let x = &v[i];
        r.push(x.clone());
        proof {
            strs_view_push(before, r@.last());
        }
        i += 1;
    }
    assert(strs_view(r@) =~= strs_view(v@));
    r
}

/// A string with one more character at its end.
///
/// Trusted: `String::push` adds the character at the end and changes nothing
/// else.
#[verifier::external_body]
pub(crate) fn push_char(out: String, c: char) -> (r: String)
    ensures
        r@ == out@.push(c),
{
    let mut out = out;
    out.push(c);
    out
}

pub fn dup_plain<T: Copy>(v: &Vec<T>) -> (r: Vec<T>)
    ensures
        r@ == v@,
{
    let mut r: Vec<T> = Vec::new();
    let mut i: usize = 0;
    while i < v.len()
        invariant
            i <= v.len(),
            r@ == v@.subrange(0, i as int),
        decreases v.len() - i,
    {
        r.push(v[i]);
        i += 1;
    }
    assert(v@.subrange(0, v@.len() as int) =~= v@);
    r
}

pub fn push<T>(v: Vec<T>, x: T) -> (r: Vec<T>)
    ensures
        r@ == v@.push(x),
{
    let mut v = v;
    v.push(x);
    v
}

pub fn join<T>(a: Vec<T>, b: Vec<T>) -> (r: Vec<T>)
    ensures
        r@ == a@ + b@,
{
    let mut a = a;
    let mut b = b;
    a.append(&mut b);
    a
}

/// Whether two strings hold the same characters.
pub fn str_eq(a: &str, b: &str) -> (r: bool)
    ensures
        r == (a@ == b@),
{
    let x = a.as_bytes();
    let y = b.as_bytes();
    if x.len() != y.len() {
        return false;
    }
    let mut i: usize = 0;
    while i < x.len()
        invariant
            i <= x.len(),
            x.len() == y.len(),
            x@ == vstd::utf8::encode_utf8(a@),
            y@ == vstd::utf8::encode_utf8(b@),
            forall|j: int| 0 <= j < i ==> x@[j] == y@[j],
        decreases x.len() - i,
    {
        if x[i] != y[i] {
            return false;
        }
        i += 1;
    }
    proof {
        assert(x@ =~= y@);
        vstd::utf8::encode_utf8_decode_utf8(a@);
        vstd::utf8::encode_utf8_decode_utf8(b@);
    }
    true
}

/// Whether a list of names holds the given one.
pub fn contains_str(v: &Vec<String>, s: &str) -> (r: bool)
    ensures
        r == strs_view(v@).contains(s@),
{
    let mut i: usize = 0;
    while i < v.len()
        invariant
            i <= v.len(),
            forall|j: int| 0 <= j < i ==> #[trigger] strs_view(v@)[j] != s@,
        decreases v.len() - i,
    {
        if str_eq(&v[i], s) {
            assert(strs_view(v@)[i as int] == s@);
            return true;
        }
        i += 1;
    }
    false
}

pub fn text(s: &str) -> (r: String)
    ensures
        r@ == s@,
{
    s.to_owned()
}

pub fn cat2(a: &str, b: &str) -> (r: String)
    ensures
        r@ == a@ + b@,
{
    let mut r = a.to_owned();
    r.append(b);
    r
}

pub fn cat3(a: &str, b: &str, c: &str) -> (r: String)
    ensures
        r@ == a@ + b@ + c@,
{
    let mut r = cat2(a, b);
    r.append(c);
    r
}

pub fn cat4(a: &str, b: &str, c: &str, d: &str) -> (r: String)
    ensures
        r@ == a@ + b@ + c@ + d@,
{
    let mut r = cat3(a, b, c);
    r.append(d);
    r
}

pub fn cat5(a: &str, b: &str, c: &str, d: &str, e: &str) -> (r: String)
    ensures
        r@ == a@ + b@ + c@ + d@ + e@,
{
    let mut r = cat4(a, b, c, d);
    r.append(e);
    r
}

pub fn cat6(a: &str, b: &str, c: &str, d: &str, e: &str, f: &str) -> (r: String)
    ensures
        r@ == a@ + b@ + c@ + d@ + e@ + f@,
{
    let mut r = cat5(a, b, c, d, e);
    r.append(f);
    r
}

pub fn cat7(a: &str, b: &str, c: &str, d: &str, e: &str, f: &str, g: &str) -> (r: String)
    ensures
        r@ == a@ + b@ + c@ + d@ + e@ + f@ + g@,
{
    let mut r = cat6(a, b, c, d, e, f);
    r.append(g);
    r
}

pub fn cat9(
    a: &str,
    b: &str,
    c: &str,
    d: &str,
    e: &str,
    f: &str,
    g: &str,
    h: &str,
    k: &str,
) -> (r: String)
    ensures
        r@ == a@ + b@ + c@ + d@ + e@ + f@ + g@ + h@ + k@,
{
    let mut r = cat7(a, b, c, d, e, f, g);
    r.append(h);
    r.append(k);
    r
}

/// Appends a string to a string.
pub fn extend(out: String, s: &str) -> (r: String)
    ensures
        r@ == out@ + s@,
{
    let mut r = out;
    r.append(s);
    r
}

/// Appends a string to a character buffer.
pub fn put(out: Vec<char>, s: &str) -> (r: Vec<char>)
    ensures
        r@ == out@ + s@,
{
    let mut r = out;
    let mut t = chars_of(s);
    r.append(&mut t);
    r
}

/// The characters of a string, in order.
pub fn chars_of(s: &str) -> (r: Vec<char>)
    ensures
        r@ == s@,
{
    let mut r: Vec<char> = Vec::new();
    for c in it: s.chars()
        invariant
            r@ == it.seq().take(it.index()),
    {
        r.push(c);
    }
    r
}

/// The string made of the given characters.
pub fn text_of(v: &Vec<char>) -> (r: String)
    ensures
        r@ == v@,
{
    let mut r = String::new();
    let mut i: usize = 0;
    while i < v.len()
        invariant
            i <= v.len(),
            r@ == v@.subrange(0, i as int),
        decreases v.len() - i,
    {
        r = push_char(r, v[i]);
        i += 1;
    }
    assert(v@.subrange(0, v@.len() as int) =~= v@);
    r
}

/// The decimal numeral of an integer.
pub open spec fn decimal(n: int) -> Seq<char> {
    if n < 0 {
        "-"@ + nat_text_spec(-n)
    } else {
        nat_text_spec(n)
    }
}

/// The decimal numeral of a natural number, most significant digit first.
pub open spec fn nat_text_spec(n: int) -> Seq<char>
    decreases n,
{
    if n < 10 {
        digit_spec(n)
    } else {
        nat_text_spec(n / 10) + digit_spec(n % 10)
    }
}

/// The numeral of one decimal or hexadecimal digit.
pub open spec fn digit_spec(d: int) -> Seq<char> {
    if d == 0 {
        "0"@
    } else if d == 1 {
        "1"@
    } else if d == 2 {
        "2"@
    } else if d == 3 {
        "3"@
    } else if d == 4 {
        "4"@
    } else if d == 5 {
        "5"@
    } else if d == 6 {
        "6"@
    } else if d == 7 {
        "7"@
    } else if d == 8 {
        "8"@
    } else if d == 9 {
        "9"@
    } else if d == 10 {
        "a"@
    } else if d == 11 {
        "b"@
    } else if d == 12 {
        "c"@
    } else if d == 13 {
        "d"@
    } else if d == 14 {
        "e"@
    } else {
        "f"@
    }
}

pub fn digit(d: u128) -> (r: &'static str)
    ensures
        r@ == digit_spec(d as int),
{
    if d == 0 {
        "0"
    } else if d == 1 {
        "1"
    } else if d == 2 {
        "2"
    } else if d == 3 {
        "3"
    } else if d == 4 {
        "4"
    } else if d == 5 {
        "5"
    } else if d == 6 {
        "6"
    } else if d == 7 {
        "7"
    } else if d == 8 {
        "8"
    } else if d == 9 {
        "9"
    } else if d == 10 {
        "a"
    } else if d == 11 {
        "b"
    } else if d == 12 {
        "c"
    } else if d == 13 {
        "d"
    } else if d == 14 {
        "e"
    } else {
        "f"
    }
}

pub fn nat_text(n: u128) -> (r: String)
    ensures
        r@ == nat_text_spec(n as int),
    decreases n,
{
    if n < 10 {
        text(digit(n))
    } else {
        let mut r = nat_text(n / 10);
        r.append(digit(n % 10));
        r
    }
}

pub fn usize_text(n: usize) -> (r: String)
    ensures
        r@ == crate::text::decimal(n as int),
{
    nat_text(n as u128)
}

pub fn int_text(n: i128) -> (r: String)
    ensures
        r@ == crate::text::decimal(n as int),
{
    if n < 0 {
        let m: u128 = (-(n + 1)) as u128 + 1;
        cat2("-", &nat_text(m))
    } else {
        nat_text(n as u128)
    }
}

/// Whether a character has the Unicode property `White_Space`.
pub open spec fn is_space_spec(c: char) -> bool {
    ('\u{9}' <= c && c <= '\u{d}') || c == ' ' || c == '\u{85}' || c == '\u{a0}' || c == '\u{1680}'
        || ('\u{2000}' <= c && c <= '\u{200a}') || c == '\u{2028}' || c == '\u{2029}' || c
        == '\u{202f}' || c == '\u{205f}' || c == '\u{3000}'
}

pub fn is_space(c: char) -> (r: bool)
    ensures
        r == is_space_spec(c),
{
    ('\u{9}' <= c && c <= '\u{d}') || c == ' ' || c == '\u{85}' || c == '\u{a0}' || c == '\u{1680}'
        || ('\u{2000}' <= c && c <= '\u{200a}') || c == '\u{2028}' || c == '\u{2029}' || c
        == '\u{202f}' || c == '\u{205f}' || c == '\u{3000}'
}

/// The text without its trailing white space.
pub open spec fn trim_end_spec(s: Seq<char>) -> Seq<char>
    decreases s.len(),
{
    if s.len() > 0 && is_space_spec(s.last()) {
        trim_end_spec(s.drop_last())
    } else {
        s
    }
}

/// The text without its leading white space.
pub open spec fn trim_start_spec(s: Seq<char>) -> Seq<char>
    decreases s.len(),
{
    if s.len() > 0 && is_space_spec(s[0]) {
        trim_start_spec(s.subrange(1, s.len() as int))
    } else {
        s
    }
}

pub fn trim_end(s: &Vec<char>) -> (r: Vec<char>)
    ensures
        r@ == trim_end_spec(s@),
{
    let mut r = dup_plain(s);
    while r.len() > 0 && is_space(r[r.len() - 1])
        invariant
            trim_end_spec(r@) == trim_end_spec(s@),
        decreases r.len(),
    {
        let ghost before = r@;
        r.pop();
        assert(r@ =~= before.drop_last());
    }
    r
}

/// The part of a buffer from `from` up to `to`.
pub fn slice_chars(v: &Vec<char>, from: usize, to: usize) -> (r: Vec<char>)
    requires
        from <= to <= v.len(),
    ensures
        r@ == v@.subrange(from as int, to as int),
{
    let mut r: Vec<char> = Vec::new();
    let mut i: usize = from;
    while i < to
        invariant
            from <= i <= to <= v.len(),
            r@ == v@.subrange(from as int, i as int),
        decreases to - i,
    {
        r.push(v[i]);
        i += 1;
    }
    r
}

pub open spec fn trim_spec(s: Seq<char>) -> Seq<char> {
    trim_start_spec(trim_end_spec(s))
}

/// The text without the white space at its ends.
pub fn trim(s: &Vec<char>) -> (r: Vec<char>)
    ensures
        r@ == trim_spec(s@),
{
    let t = trim_end(s);
    let mut i: usize = 0;
    assert(t@.subrange(0, t@.len() as int) =~= t@);
    while i < t.len() && is_space(t[i])
        invariant
            i <= t.len(),
            trim_start_spec(t@.subrange(i as int, t@.len() as int)) == trim_start_spec(t@),
        decreases t.len() - i,
    {
        assert(t@.subrange(i as int, t@.len() as int).subrange(1, t@.len() - i) =~= t@.subrange(
            i + 1,
            t@.len() as int,
        ));
        i += 1;
    }
    slice_chars(&t, i, t.len())
}

/// The number of bytes of a text in UTF-8.
pub open spec fn byte_len(s: Seq<char>) -> int {
    vstd::utf8::encode_utf8(s).len() as int
}

/// The number of bytes of one character in UTF-8.
pub open spec fn char_width_spec(c: char) -> int {
    if (c as u32) < 0x80 {
        1
    } else if (c as u32) < 0x800 {
        2
    } else if (c as u32) < 0x10000 {
        3
    } else {
        4
    }
}

pub fn char_width(c: char) -> (r: usize)
    ensures
        r == char_width_spec(c),
{
    let n: u32 = c as u32;
    if n < 0x80 {
        1
    } else if n < 0x800 {
        2
    } else if n < 0x10000 {
        3
    } else {
        4
    }
}

/// How many characters of `s` start before the byte offset `offset`.
pub open spec fn chars_before_spec(s: Seq<char>, offset: int) -> int
    decreases s.len(),
{
    if s.len() == 0 || offset <= 0 {
        0
    } else {
        1 + chars_before_spec(s.subrange(1, s.len() as int), offset - char_width_spec(s[0]))
    }
}

/// Whether the byte offset `offset` lies between two characters of `s`, or at
/// or past its end.
pub open spec fn on_boundary(s: Seq<char>, offset: int) -> bool
    decreases s.len(),
{
    if s.len() == 0 || offset <= 0 {
        offset >= 0
    } else {
        on_boundary(s.subrange(1, s.len() as int), offset - char_width_spec(s[0]))
    }
}

pub fn chars_before(s: &Vec<char>, offset: usize) -> (r: usize)
    ensures
        r == chars_before_spec(s@, offset as int),
        r <= s.len(),
{
    let mut i: usize = 0;
    let mut left: usize = offset;
    assert(s@.subrange(0, s@.len() as int) =~= s@);
    while i < s.len() && left > 0
        invariant
            i <= s.len(),
            chars_before_spec(s@, offset as int) == i + chars_before_spec(
                s@.subrange(i as int, s@.len() as int),
                left as int,
            ),
        decreases s.len() - i,
    {
        let w: usize = char_width(s[i]);
        assert(s@.subrange(i as int, s@.len() as int).subrange(1, s@.len() - i) =~= s@.subrange(
            i + 1,
            s@.len() as int,
        ));
        if left < w {
            proof {
                let rest = s@.subrange(i + 1, s@.len() as int);
                assert(chars_before_spec(rest, left - w) == 0);
                assert(chars_before_spec(rest, 0) == 0);
            }
            left = 0;
        } else {
            left = left - w;
        }
        i += 1;
    }
    i
}

pub open spec fn drop_last_spec(v: Seq<char>) -> Seq<char> {
    v.drop_last()
}

/// A buffer without its last character.
pub fn drop_last(v: Vec<char>) -> (r: Vec<char>)
    requires
        v.len() > 0,
    ensures
        r@ == drop_last_spec(v@),
{
    let mut v = v;
    let ghost before = v@;
    v.pop();
    assert(v@ =~= before.drop_last());
    v
}

pub open spec fn size_of_text_spec(s: Seq<char>) -> int {
    byte_len(s)
}

/// The number of bytes of a string.
pub fn size_of_text(s: &str) -> (r: usize)
    ensures
        r == size_of_text_spec(s@),
{
    s.as_bytes().len()
}

/// Whether `a` comes before `b` byte by byte from position `i` on.
pub open spec fn bytes_less(a: Seq<u8>, b: Seq<u8>, i: int) -> bool
    decreases a.len() - i,
{
    if i >= b.len() {
        false
    } else if i >= a.len() {
        true
    } else if a[i] != b[i] {
        a[i] < b[i]
    } else {
        bytes_less(a, b, i + 1)
    }
}

/// The order of names: that of their UTF-8 bytes.
pub open spec fn str_less_spec(a: Seq<char>, b: Seq<char>) -> bool {
    bytes_less(vstd::utf8::encode_utf8(a), vstd::utf8::encode_utf8(b), 0)
}

pub fn str_less(a: &str, b: &str) -> (r: bool)
    ensures
        r == str_less_spec(a@, b@),
{
    let x = a.as_bytes();
    let y = b.as_bytes();
    let mut i: usize = 0;
    while i < x.len() && i < y.len() && x[i] == y[i]
        invariant
            i <= x.len(),
            i <= y.len(),
            x@ == vstd::utf8::encode_utf8(a@),
            y@ == vstd::utf8::encode_utf8(b@),
            bytes_less(x@, y@, i as int) == bytes_less(x@, y@, 0),
        decreases x.len() - i,
    {
        i += 1;
    }
    if i >= y.len() {
        false
    } else if i >= x.len() {
        true
    } else {
        x[i] < y[i]
    }
}

/// A list with one element replaced.
pub fn replace_at<T>(v: Vec<T>, i: usize, x: T) -> (r: Vec<T>)
    requires
        i < v.len(),
    ensures
        r@ == v@.update(i as int, x),
{
    let mut v = v;
    v.set(i, x);
    v
}

pub open spec fn str_starts_spec(s: Seq<char>, prefix: Seq<char>) -> bool {
    prefix.len() <= s.len() && s.subrange(0, prefix.len() as int) == prefix
}

/// Whether a text begins with another one.
pub fn str_starts(s: &str, prefix: &str) -> (r: bool)
    ensures
        r == str_starts_spec(s@, prefix@),
{
    let a = chars_of(s);
    let b = chars_of(prefix);
    if b.len() > a.len() {
        return false;
    }
    let mut i: usize = 0;
    while i < b.len()
        invariant
            i <= b.len() <= a.len(),
            a@ == s@,
            b@ == prefix@,
            forall|j: int| 0 <= j < i ==> a@[j] == b@[j],
        decreases b.len() - i,
    {
        if a[i] != b[i] {
            assert(s@.subrange(0, prefix@.len() as int)[i as int] == a@[i as int]);
            return false;
        }
        i += 1;
    }
    assert(s@.subrange(0, prefix@.len() as int) =~= prefix@);
    true
}

/// A list without its last element.
pub fn drop_last_of<T>(v: Vec<T>) -> (r: Vec<T>)
    requires
        v.len() > 0,
    ensures
        r@ == v@.drop_last(),
{
    let mut v = v;
    let ghost before = v@;
    v.pop();
    assert(v@ =~= before.subrange(0, before.len() - 1));
    v
}

/// Twice a number and two more, or the greatest one where that does not fit.
pub open spec fn twice_spec(n: int) -> int {
    if 2 * n + 2 > usize::MAX {
        usize::MAX as int
    } else {
        2 * n + 2
    }
}

pub fn twice(n: usize) -> (r: usize)
    ensures
        r == twice_spec(n as int),
{
    if n > (usize::MAX - 2) / 2 {
        usize::MAX
    } else {
        2 * n + 2
    }
}

/// A sum, or the greatest number where it does not fit.
pub open spec fn add_capped_spec(a: int, b: int) -> int {
    if a + b > usize::MAX {
        usize::MAX as int
    } else {
        a + b
    }
}

pub fn add_capped(a: usize, b: usize) -> (r: usize)
    ensures
        r == add_capped_spec(a as int, b as int),
{
    if a > usize::MAX - b {
        usize::MAX
    } else {
        a + b
    }
}

/// The value of a digit.
pub open spec fn digit_value(c: char) -> int {
    c as int - '0' as int
}

/// The value of a numeral.
pub open spec fn numeral_value(s: Seq<char>) -> int
    decreases s.len(),
{
    if s.len() == 0 {
        0
    } else {
        10 * numeral_value(s.drop_last()) + digit_value(s.last())
    }
}

/// A number that was written reads back as itself.
pub proof fn written_number_reads_back(n: int)
    requires
        n >= 0,
    ensures
        numeral_value(nat_text_spec(n)) == n,
        nat_text_spec(n).len() > 0,
    decreases n,
{
    reveal_with_fuel(numeral_value, 2);
    reveal_strlit("0");
    reveal_strlit("1");
    reveal_strlit("2");
    reveal_strlit("3");
    reveal_strlit("4");
    reveal_strlit("5");
    reveal_strlit("6");
    reveal_strlit("7");
    reveal_strlit("8");
    reveal_strlit("9");
    let last = digit_spec(n % 10);
    if n >= 10 {
        written_number_reads_back(n / 10);
        let s = nat_text_spec(n);
        assert(last.len() == 1);
        assert(s.drop_last() =~= nat_text_spec(n / 10));
        assert(s.last() == last[0]);
    } else {
        assert(digit_spec(n).drop_last() =~= Seq::empty());
    }
}

pub broadcast group group_text_views {
    strs_view_push,
    strs_view_empty,
    strs_view_add,
    strs_view_subrange,
    strs_view_update,
}

} // verus!
