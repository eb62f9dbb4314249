//! Numbers written as text.
use vstd::prelude::*;
use vstd::string::*;
use vstd::utf8::{decode_utf8, encode_utf8, is_ascii_chars, valid_utf8};

verus! {

broadcast use vstd::string::group_string_axioms;

/// The lowercase hexadecimal digit of a value below 16.
pub open spec fn hex_digit(d: nat) -> char {
    if d < 10 {
        (('0' as nat) + d) as char
    } else {
        (('a' as nat) + (d - 10)) as char
    }
}

/// `v` in lowercase hexadecimal with exactly `width` digits (the lowest
/// `width` digits, padded with zeros).
pub open spec fn hex_text(v: nat, width: nat) -> Seq<char>
    decreases width,
{
    if width == 0 {
        Seq::empty()
    } else {
        hex_text(v / 16, (width - 1) as nat).push(hex_digit(v % 16))
    }
}

/// The decimal digit of a value below 10.
pub open spec fn decimal_digit(d: nat) -> char {
    (('0' as nat) + d) as char
}

/// `n` in decimal, without leading zeros ("0" for zero).
pub open spec fn decimal_text(n: nat) -> Seq<char>
    decreases n,
{
    if n < 10 {
        seq![decimal_digit(n)]
    } else {
        decimal_text(n / 10).push(decimal_digit(n % 10))
    }
}

/// The one-character text of a lowercase hexadecimal digit.
fn hex_digit_str(d: u64) -> (r: &'static str)
    requires
        d < 16,
    ensures
        r@ == seq![hex_digit(d as nat)],
{
    proof {
        reveal_strlit("0");
        reveal_strlit("1");
        reveal_strlit("2");
        reveal_strlit("3");
        reveal_strlit("4");
        reveal_strlit("5");
        reveal_strlit("6");
        reveal_strlit("7");
        reveal_strlit("8");
        reveal_strlit("9");
        reveal_strlit("a");
        reveal_strlit("b");
        reveal_strlit("c");
        reveal_strlit("d");
        reveal_strlit("e");
        reveal_strlit("f");
    }
    let r = if d == 0 {
        "0"
    } else if d == 1 {
        "1"
    } else if d == 2 {
        "2"
    } else if d == 3 {
        "3"
    } else if d == 4 {
        "4"
    } else if d == 5 {
        "5"
    } else if d == 6 {
        "6"
    } else if d == 7 {
        "7"
    } else if d == 8 {
        "8"
    } else if d == 9 {
        "9"
    } else if d == 10 {
        "a"
    } else if d == 11 {
        "b"
    } else if d == 12 {
        "c"
    } else if d == 13 {
        "d"
    } else if d == 14 {
        "e"
    } else {
        "f"
    };
    assert(r@ =~= seq![hex_digit(d as nat)]);
    r
}

/// Appends the lowest `width` hexadecimal digits of `v` to `out`.
pub fn push_hex(out: &mut String, v: u64, width: usize)
    ensures
        final(out)@ == old(out)@ + hex_text(v as nat, width as nat),
    decreases width,
{
    if width > 0 {
        push_hex(out, v / 16, width - 1);
        out.append(hex_digit_str(v % 16));
        assert(hex_text(v as nat, width as nat) =~= hex_text((v / 16) as nat, (width - 1) as nat).push(
            hex_digit((v % 16) as nat),
        ));
    } else {
        assert(hex_text(v as nat, 0) =~= Seq::<char>::empty());
        assert(old(out)@ + Seq::<char>::empty() =~= old(out)@);
    }
}

/// `v` in lowercase hexadecimal with exactly `width` digits.
pub fn hex_fixed(v: u64, width: usize) -> (r: String)
    ensures
        r@ == hex_text(v as nat, width as nat),
{
    let mut out = String::new();
    push_hex(&mut out, v, width);
    assert(Seq::<char>::empty() + hex_text(v as nat, width as nat) =~= hex_text(v as nat, width as nat));
    out
}

/// Appends `n` in decimal to `out`.
pub fn push_decimal(out: &mut String, n: u64)
    ensures
        final(out)@ == old(out)@ + decimal_text(n as nat),
    decreases n,
{
    if n >= 10 {
        push_decimal(out, n / 10);
    }
    let d = n % 10;
    let s = hex_digit_str(d);
    out.append(s);
    proof {
        assert(hex_digit(d as nat) == decimal_digit(d as nat));
        if n < 10 {
            assert(decimal_text(n as nat) =~= seq![decimal_digit(n as nat)]);
        } else {
            assert(decimal_text(n as nat) =~= decimal_text((n / 10) as nat).push(decimal_digit(d as nat)));
        }
        assert(out@ =~= old(out)@ + decimal_text(n as nat));
    }
}

/// The uppercase hexadecimal digit of a value below 16.
pub open spec fn hex_upper_digit(d: nat) -> char {
    if d < 10 {
        (('0' as nat) + d) as char
    } else {
        (('A' as nat) + (d - 10)) as char
    }
}

/// `v` in uppercase hexadecimal with exactly `width` digits (the lowest
/// `width` digits, padded with zeros).
pub open spec fn hex_upper_text(v: nat, width: nat) -> Seq<char>
    decreases width,
{
    if width == 0 {
        Seq::empty()
    } else {
        hex_upper_text(v / 16, (width - 1) as nat).push(hex_upper_digit(v % 16))
    }
}

/// `n` in octal, without leading zeros ("0" for zero).
pub open spec fn octal_text(n: nat) -> Seq<char>
    decreases n,
{
    if n < 8 {
        seq![decimal_digit(n)]
    } else {
        octal_text(n / 8).push(decimal_digit(n % 8))
    }
}

/// The one-character text of an uppercase hexadecimal digit.
fn hex_upper_digit_str(d: u64) -> (r: &'static str)
    requires
        d < 16,
    ensures
        r@ == seq![hex_upper_digit(d as nat)],
{
    if d < 10 {
        let r = hex_digit_str(d);
        assert(hex_digit(d as nat) == hex_upper_digit(d as nat));
        r
    } else {
        proof {
            reveal_strlit("A");
            reveal_strlit("B");
            reveal_strlit("C");
            reveal_strlit("D");
            reveal_strlit("E");
            reveal_strlit("F");
        }
        let r = if d == 10 {
            "A"
        } else if d == 11 {
            "B"
        } else if d == 12 {
            "C"
        } else if d == 13 {
            "D"
        } else if d == 14 {
            "E"
        } else {
            "F"
        };
        assert(r@ =~= seq![hex_upper_digit(d as nat)]);
        r
    }
}

/// Appends the lowest `width` uppercase hexadecimal digits of `v` to `out`.
pub fn push_hex_upper(out: &mut String, v: u64, width: usize)
    ensures
        final(out)@ == old(out)@ + hex_upper_text(v as nat, width as nat),
    decreases width,
{
    if width > 0 {
        push_hex_upper(out, v / 16, width - 1);
        out.append(hex_upper_digit_str(v % 16));
        assert(hex_upper_text(v as nat, width as nat) =~= hex_upper_text((v / 16) as nat, (width - 1) as nat).push(
            hex_upper_digit((v % 16) as nat),
        ));
    } else {
        assert(hex_upper_text(v as nat, 0) =~= Seq::<char>::empty());
        assert(old(out)@ + Seq::<char>::empty() =~= old(out)@);
    }
}

/// Appends `n` in octal to `out`.
pub fn push_octal(out: &mut String, n: u64)
    ensures
        final(out)@ == old(out)@ + octal_text(n as nat),
    decreases n,
{
    if n >= 8 {
        push_octal(out, n / 8);
    }
    let d = n % 8;
    let s = hex_digit_str(d);
    out.append(s);
    proof {
        assert(hex_digit(d as nat) == decimal_digit(d as nat));
        if n < 8 {
            assert(octal_text(n as nat) =~= seq![decimal_digit(n as nat)]);
        } else {
            assert(octal_text(n as nat) =~= octal_text((n / 8) as nat).push(decimal_digit(d as nat)));
        }
        assert(out@ =~= old(out)@ + octal_text(n as nat));
    }
}

/// `n` in decimal.
pub fn decimal(n: u64) -> (r: String)
    ensures
        r@ == decimal_text(n as nat),
{
    let mut out = String::new();
    push_decimal(&mut out, n);
    assert(Seq::<char>::empty() + decimal_text(n as nat) =~= decimal_text(n as nat));
    out
}

/// Calls `String::from_utf8`, which succeeds exactly on valid UTF-8 and then
/// holds the decoded characters.
#[verifier::external_body]
pub(crate) fn utf8_string(bytes: Vec<u8>) -> (r: Option<String>)
    ensures
        r is Some <==> valid_utf8(bytes@),
        r matches Some(s) ==> s@ == decode_utf8(bytes@),
{
    String::from_utf8(bytes).ok()
}

/// The characters of ASCII bytes.
pub open spec fn ascii_chars(bytes: Seq<u8>) -> Seq<char> {
    bytes.map_values(|b: u8| b as char)
}

/// The text of a sequence of ASCII bytes.
pub fn ascii_string(bytes: Vec<u8>) -> (r: String)
    requires
        forall|i: int| 0 <= i < bytes@.len() ==> bytes@[i] < 128,
    ensures
        r@ == ascii_chars(bytes@),
{
    let ghost chars = ascii_chars(bytes@);
    proof {
        assert(is_ascii_chars(chars));
        vstd::utf8::is_ascii_chars_encode_utf8(chars);
        assert forall|i: int| 0 <= i < bytes@.len() implies encode_utf8(chars)[i] == bytes@[i] by {
            assert(chars[i] as u8 == encode_utf8(chars)[i]);
            assert((bytes@[i] as char) as u8 == bytes@[i]);
        }
        assert(encode_utf8(chars) =~= bytes@);
        vstd::utf8::encode_utf8_valid_utf8(chars);
        vstd::utf8::encode_utf8_decode_utf8(chars);
    }
    match utf8_string(bytes) {
        Some(s) => s,
        None => String::new(),
    }
}

/// The characters of a text.
pub fn chars_of(s: &str) -> (r: Vec<char>)
    ensures
        r@ == s@,
{
    let mut r: Vec<char> = Vec::new();
    for c in it: s.chars()
        invariant
            r@ == it.seq().take(it.index()),
    {
        proof {
            assert(it.seq().take(it.index() + 1) =~= it.seq().take(it.index()).push(c));
        }
        r.push(c);
    }
    r
}

/// `needle` occurs in `hay` at position `k`.
pub open spec fn occurs_at(needle: Seq<char>, hay: Seq<char>, k: int) -> bool {
    0 <= k && k + needle.len() <= hay.len() && hay.subrange(k, k + needle.len()) == needle
}

/// `needle` occurs somewhere in `hay`.
pub open spec fn contains_text(hay: Seq<char>, needle: Seq<char>) -> bool {
    exists|k: int| occurs_at(needle, hay, k)
}

/// Whether `needle` occurs at position `k` of `hay`.
fn matches_at(hay: &Vec<char>, needle: &Vec<char>, k: usize) -> (r: bool)
    requires
        k + needle@.len() <= hay@.len(),
    ensures
        r == occurs_at(needle@, hay@, k as int),
{
    let m = needle.len();
    let hl = hay.len();
    let mut j: usize = 0;
    while j < m
        invariant
            m == needle@.len(),
            hl == hay@.len(),
            k + m <= hl,
            j <= m,
            forall|t: int| 0 <= t < j ==> hay@[k + t] == needle@[t],
        decreases m - j,
    {
        if hay[k + j] != needle[j] {
            assert(hay@.subrange(k as int, k + m)[j as int] != needle@[j as int]);
            return false;
        }
        j = j + 1;
    }
    assert(hay@.subrange(k as int, k + m) =~= needle@);
    true
}

/// Whether `needle` occurs in `hay`.
pub fn text_contains(hay: &str, needle: &str) -> (r: bool)
    ensures
        r == contains_text(hay@, needle@),
{
    let h = chars_of(hay);
    let nd = chars_of(needle);
    let n = h.len();
    let m = nd.len();
    if m > n {
        assert forall|k: int| !occurs_at(needle@, hay@, k) by {}
        return false;
    }
    if m == 0 {
        assert(occurs_at(needle@, hay@, 0)) by {
            assert(hay@.subrange(0, 0) =~= needle@);
        }
        return true;
    }
    let mut k: usize = 0;
    while k <= n - m
        invariant
            m >= 1,
            n == h@.len(),
            m == nd@.len(),
            m <= n,
            h@ == hay@,
            nd@ == needle@,
            k <= n - m + 1,
            forall|t: int| 0 <= t < k ==> !occurs_at(needle@, hay@, t),
        decreases n - k,
    {
        if matches_at(&h, &nd, k) {
            return true;
        }
        k = k + 1;
    }
    assert forall|t: int| !occurs_at(needle@, hay@, t) by {
        if t >= k {
        }
    }
    false
}

/// `a` comes before `b` in the lexicographic order of characters.
pub open spec fn lex_less(a: Seq<char>, b: Seq<char>) -> bool
    decreases a.len(),
{
    if a.len() == 0 {
        b.len() > 0
    } else if b.len() == 0 {
        false
    } else if a[0] != b[0] {
        a[0] < b[0]
    } else {
        lex_less(a.drop_first(), b.drop_first())
    }
}

/// Whether `a` comes before `b` in the lexicographic order of characters.
pub fn chars_less(a: &[char], b: &[char]) -> (r: bool)
    ensures
        r == lex_less(a@, b@),
{
    let n = a.len();
    let m = b.len();
    let mut i: usize = 0;
    assert(a@.skip(0) =~= a@);
    assert(b@.skip(0) =~= b@);
    while i < n && i < m && a[i] == b[i]
        invariant
            n == a@.len(),
            m == b@.len(),
            i <= n,
            i <= m,
            lex_less(a@, b@) == lex_less(a@.skip(i as int), b@.skip(i as int)),
        decreases n - i,
    {
        assert(a@.skip(i as int).drop_first() =~= a@.skip(i + 1));
        assert(b@.skip(i as int).drop_first() =~= b@.skip(i + 1));
        i = i + 1;
    }
    if i == n {
        i < m
    } else if i == m {
        false
    } else {
        a[i] < b[i]
    }
}

proof fn lemma_lex_transitive(a: Seq<char>, b: Seq<char>, c: Seq<char>)
    requires
        lex_less(a, b),
        lex_less(b, c),
    ensures
        lex_less(a, c),
    decreases a.len(),
{
    if a.len() > 0 && b.len() > 0 && c.len() > 0 && a[0] == b[0] && b[0] == c[0] {
        lemma_lex_transitive(a.drop_first(), b.drop_first(), c.drop_first());
    }
}

proof fn lemma_lex_irreflexive(a: Seq<char>)
    ensures
        !lex_less(a, a),
    decreases a.len(),
{
    if a.len() > 0 {
        lemma_lex_irreflexive(a.drop_first());
    }
}

proof fn lemma_lex_total(a: Seq<char>, b: Seq<char>)
    ensures
        lex_less(a, b) || lex_less(b, a) || a == b,
    decreases a.len(),
{
    if a.len() > 0 && b.len() > 0 && a[0] == b[0] {
        lemma_lex_total(a.drop_first(), b.drop_first());
        if a.drop_first() == b.drop_first() {
            assert(a =~= seq![a[0]] + a.drop_first());
            assert(b =~= seq![b[0]] + b.drop_first());
        }
    } else if a.len() == 0 && b.len() == 0 {
        assert(a =~= b);
    }
}

/// The lexicographic order of characters is a strict total order.
pub proof fn law_lex_order_is_strict_total(a: Seq<char>, b: Seq<char>, c: Seq<char>)
    ensures
        !lex_less(a, a),
        lex_less(a, b) && lex_less(b, c) ==> lex_less(a, c),
        lex_less(a, b) || lex_less(b, a) || a == b,
{
    lemma_lex_irreflexive(a);
    if lex_less(a, b) && lex_less(b, c) {
        lemma_lex_transitive(a, b, c);
    }
    lemma_lex_total(a, b);
}

} // verus!
