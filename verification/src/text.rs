//! Text helpers shared by the rest of the library: decimal rendering of
//! integers and conversions between strings and character vectors.

use vstd::prelude::*;

verus! {

/// `String::push` appends one character to the end of the string.
pub assume_specification[ String::push ](s: &mut String, c: char)
    ensures
        final(s)@ == old(s)@.push(c),
;

/// The texts held by a list of strings, in order.
pub open spec fn texts(v: Seq<String>) -> Seq<Seq<char>> {
    v.map_values(|s: String| s@)
}

/// The text of an optional string.
pub open spec fn option_text(s: Option<String>) -> Option<Seq<char>> {
    match s {
        Some(t) => Some(t@),
        None => None,
    }
}

/// Appends a copy of `s` to the list `v`.
pub fn push_text(v: &mut Vec<String>, s: &str)
    ensures
        texts(final(v)@) == texts(old(v)@).push(s@),
        final(v)@.len() == old(v)@.len() + 1,
{
    v.push(s.to_owned());
    assert(texts(v@) =~= texts(old(v)@).push(s@));
}

/// The texts held by a list of string slices, in order.
pub open spec fn slice_texts(v: Seq<&str>) -> Seq<Seq<char>> {
    v.map_values(|s: &str| s@)
}

/// Owned copies of the given string slices, in order.
pub fn strings_of(parts: &[&str]) -> (v: Vec<String>)
    ensures
        texts(v@) == slice_texts(parts@),
{
    let mut v: Vec<String> = Vec::new();
    let mut i: usize = 0;
    while i < parts.len()
        invariant
            i <= parts.len(),
            texts(v@) == slice_texts(parts@.take(i as int)),
        decreases parts.len() - i,
    {
        push_text(&mut v, parts[i]);
        i += 1;
        assert(texts(v@) =~= slice_texts(parts@.take(i as int)));
    }
    assert(parts@.take(i as int) =~= parts@);
    v
}

/// The concatenation of `a` and `b`.
pub fn join2(a: &str, b: &str) -> (s: String)
    ensures
        s@ == a@ + b@,
{
    let mut s = a.to_owned();
    s.append(b);
    s
}

/// The concatenation of `a`, `b` and `c`.
pub fn join3(a: &str, b: &str, c: &str) -> (s: String)
    ensures
        s@ == a@ + b@ + c@,
{
    let mut s = a.to_owned();
    s.append(b);
    s.append(c);
    s
}

/// The character that writes the decimal digit `d`.
pub open spec fn digit_char(d: nat) -> char
    recommends
        d < 10,
{
    (48 + d) as char
}

/// The decimal representation of `n`, without leading zeros.
pub open spec fn decimal_text(n: nat) -> Seq<char>
    decreases n,
{
    if n < 10 {
        seq![digit_char(n)]
    } else {
        decimal_text(n / 10).push(digit_char(n % 10))
    }
}

/// Every decimal representation is made of digits and is not empty.
pub proof fn lemma_decimal_text_digits(n: nat)
    ensures
        decimal_text(n).len() >= 1,
        forall|i: int|
            0 <= i < decimal_text(n).len() ==> '0' <= #[trigger] decimal_text(n)[i] <= '9',
    decreases n,
{
    if n >= 10 {
        lemma_decimal_text_digits(n / 10);
    }
}

/// A number of two or more digits does not start with a zero.
pub proof fn lemma_decimal_text_leading(n: nat)
    requires
        n >= 10,
    ensures
        decimal_text(n).len() >= 2,
        decimal_text(n)[0] != '0',
    decreases n,
{
    lemma_decimal_text_digits(n / 10);
    if n / 10 >= 10 {
        lemma_decimal_text_leading(n / 10);
    }
}

/// Two numbers with the same decimal representation are the same number.
pub proof fn lemma_decimal_text_unique(a: nat, b: nat)
    requires
        decimal_text(a) == decimal_text(b),
    ensures
        a == b,
    decreases a,
{
    lemma_decimal_text_digits(a);
    lemma_decimal_text_digits(b);
    if a < 10 && b < 10 {
        assert(decimal_text(a)[0] == decimal_text(b)[0]);
    } else if a >= 10 && b >= 10 {
        let da = decimal_text(a / 10);
        let db = decimal_text(b / 10);
        assert(decimal_text(a).drop_last() =~= da);
        assert(decimal_text(b).drop_last() =~= db);
        assert(decimal_text(a).last() == digit_char(a % 10));
        assert(decimal_text(b).last() == digit_char(b % 10));
        lemma_decimal_text_unique(a / 10, b / 10);
    } else if a >= 10 {
        lemma_decimal_text_leading(a);
    } else {
        lemma_decimal_text_leading(b);
    }
}

/// Behind one and the same prefix, two numbers with the same decimal
/// representation are the same number.
pub proof fn lemma_decimal_text_injective(a: nat, b: nat, prefix: Seq<char>)
    requires
        prefix + decimal_text(a) == prefix + decimal_text(b),
    ensures
        a == b,
{
    let x = prefix + decimal_text(a);
    let y = prefix + decimal_text(b);
    assert(x.skip(prefix.len() as int) =~= decimal_text(a));
    assert(y.skip(prefix.len() as int) =~= decimal_text(b));
    lemma_decimal_text_unique(a, b);
}

fn digit(d: u64) -> (c: char)
    requires
        d < 10,
    ensures
        c == digit_char(d as nat),
{
    let b: u8 = 48u8 + (d as u8);
    b as char
}

/// The four numbers of an IPv4 address in decimal, with dots between them.
pub open spec fn ipv4_text(octets: Seq<u8>) -> Seq<char>
    recommends
        octets.len() == 4,
{
    decimal_text(octets[0] as nat) + seq!['.'] + decimal_text(octets[1] as nat) + seq!['.']
        + decimal_text(octets[2] as nat) + seq!['.'] + decimal_text(octets[3] as nat)
}

/// Appends the decimal representation of `n` to `out`.
pub fn push_decimal(out: &mut String, n: u64)
    ensures
        final(out)@ == old(out)@ + decimal_text(n as nat),
    decreases n,
{
    if n >= 10 {
        push_decimal(out, n / 10);
    }
    out.push(digit(n % 10));
}

/// The decimal representation of `n` as an owned string.
pub fn decimal_string(n: u64) -> (s: String)
    ensures
        s@ == decimal_text(n as nat),
{
    let mut s = String::new();
    push_decimal(&mut s, n);
    s
}

/// The text of an IPv4 address.
pub fn ipv4_string(octets: &[u8; 4]) -> (s: String)
    ensures
        s@ == ipv4_text(octets@),
{
    let mut s = String::new();
    push_decimal(&mut s, octets[0] as u64);
    s.push('.');
    push_decimal(&mut s, octets[1] as u64);
    s.push('.');
    push_decimal(&mut s, octets[2] as u64);
    s.push('.');
    push_decimal(&mut s, octets[3] as u64);
    assert(s@ =~= ipv4_text(octets@));
    s
}

/// The characters of `s`, in order.
pub fn chars_of(s: &str) -> (out: Vec<char>)
    ensures
        out@ == s@,
{
    let mut out: Vec<char> = Vec::new();
    for c in it: s.chars()
        invariant
            out@ == it.seq().take(it.index()),
            it.seq() == s@,
    {
        out.push(c);
    }
    out
}

/// The string whose characters are `chars[from..to]`.
pub fn string_of(chars: &Vec<char>, from: usize, to: usize) -> (s: String)
    requires
        from <= to <= chars.len(),
    ensures
        s@ == chars@.subrange(from as int, to as int),
{
    let mut s = String::new();
    let mut i: usize = from;
    while i < to
        invariant
            from <= i <= to <= chars.len(),
            s@ == chars@.subrange(from as int, i as int),
        decreases to - i,
    {
        s.push(chars[i]);
        i += 1;
    }
    s
}

/// Whether `c` separates words: a space or a tab.
pub open spec fn is_blank(c: char) -> bool {
    c == ' ' || c == '\t'
}

/// The number of characters of `s` before its first line feed.
pub open spec fn line_len(s: Seq<char>) -> nat
    decreases s.len(),
{
    if s.len() == 0 || s[0] == '\n' {
        0
    } else {
        1 + line_len(s.drop_first())
    }
}

/// The number of characters of `s` before its first blank.
pub open spec fn word_len(s: Seq<char>) -> nat
    decreases s.len(),
{
    if s.len() == 0 || is_blank(s[0]) {
        0
    } else {
        1 + word_len(s.drop_first())
    }
}

pub proof fn lemma_word_len_bound(s: Seq<char>)
    ensures
        word_len(s) <= s.len(),
        s.len() > 0 && !is_blank(s[0]) ==> word_len(s) >= 1,
    decreases s.len(),
{
    if s.len() > 0 && !is_blank(s[0]) {
        lemma_word_len_bound(s.drop_first());
    }
}

/// The lines of `s`: the pieces between line feeds, a last piece that no
/// line feed ends included, the line feeds themselves left out.
pub open spec fn lines(s: Seq<char>) -> Seq<Seq<char>>
    decreases s.len(),
{
    if s.len() == 0 {
        seq![]
    } else {
        let n = line_len(s);
        if n < s.len() {
            seq![s.take(n as int)] + lines(s.skip(n as int + 1))
        } else {
            seq![s]
        }
    }
}

/// The words of `s`: its maximal runs of characters that are not blank.
pub open spec fn words(s: Seq<char>) -> Seq<Seq<char>>
    decreases s.len(),
{
    if s.len() == 0 {
        seq![]
    } else if is_blank(s[0]) {
        words(s.drop_first())
    } else {
        let n = word_len(s);
        proof {
            lemma_word_len_bound(s);
        }
        seq![s.take(n as int)] + words(s.skip(n as int))
    }
}

fn is_blank_char(c: char) -> (b: bool)
    ensures
        b == is_blank(c),
{
    c == ' ' || c == '\t'
}

/// The lines of `text`, each as an owned string.
pub fn lines_of(text: &str) -> (out: Vec<String>)
    ensures
        texts(out@) == lines(text@),
{
    let chars = chars_of(text);
    let mut out: Vec<String> = Vec::new();
    let mut i: usize = 0;
    assert(chars@.skip(0) =~= chars@);
    assert(texts(out@) + lines(chars@) =~= lines(chars@));
    while i < chars.len()
        invariant
            i <= chars.len(),
            texts(out@) + lines(chars@.skip(i as int)) == lines(chars@),
        decreases chars.len() - i,
    {
        let start = i;
        let ghost rest = chars@.skip(start as int);
        let mut j: usize = i;
        while j < chars.len() && chars[j] != '\n'
            invariant
                start <= j <= chars.len(),
                line_len(rest) == (j - start) + line_len(chars@.skip(j as int)),
                rest == chars@.skip(start as int),
            decreases chars.len() - j,
        {
            assert(chars@.skip(j as int).drop_first() =~= chars@.skip(j + 1));
            j += 1;
        }
        assert(line_len(rest) == j - start);
        let line = string_of(&chars, start, j);
        let ghost before = texts(out@);
        out.push(line);
        assert(texts(out@) =~= before.push(line@));
        assert(rest.take(j - start) =~= chars@.subrange(start as int, j as int));
        if j < chars.len() {
            assert(rest.skip(j - start + 1) =~= chars@.skip(j + 1));
            assert(lines(rest) == seq![line@] + lines(chars@.skip(j + 1)));
            assert(texts(out@) + lines(chars@.skip(j + 1)) =~= before + lines(rest));
            i = j + 1;
        } else {
            assert(rest =~= chars@.subrange(start as int, j as int));
            assert(lines(rest) == seq![line@]);
            assert(lines(chars@.skip(j as int)) =~= Seq::<Seq<char>>::empty());
            assert(texts(out@) + lines(chars@.skip(j as int)) =~= before + lines(rest));
            i = j;
        }
    }
    assert(lines(chars@.skip(i as int)) =~= Seq::<Seq<char>>::empty());
    assert(texts(out@) + Seq::<Seq<char>>::empty() =~= texts(out@));
    out
}

/// The words of `line`, each as an owned string.
pub fn words_of(line: &str) -> (out: Vec<String>)
    ensures
        texts(out@) == words(line@),
{
    let chars = chars_of(line);
    let mut out: Vec<String> = Vec::new();
    let mut i: usize = 0;
    assert(chars@.skip(0) =~= chars@);
    assert(texts(out@) + words(chars@) =~= words(chars@));
    while i < chars.len()
        invariant
            i <= chars.len(),
            texts(out@) + words(chars@.skip(i as int)) == words(chars@),
        decreases chars.len() - i,
    {
        let ghost rest = chars@.skip(i as int);
        if is_blank_char(chars[i]) {
            assert(rest.drop_first() =~= chars@.skip(i + 1));
            i += 1;
        } else {
            let start = i;
            let mut j: usize = i;
            while j < chars.len() && !is_blank_char(chars[j])
                invariant
                    start <= j <= chars.len(),
                    word_len(rest) == (j - start) + word_len(chars@.skip(j as int)),
                    rest == chars@.skip(start as int),
                decreases chars.len() - j,
            {
                assert(chars@.skip(j as int).drop_first() =~= chars@.skip(j + 1));
                j += 1;
            }
            assert(word_len(rest) == j - start);
            let word = string_of(&chars, start, j);
            let ghost before = texts(out@);
            out.push(word);
            assert(texts(out@) =~= before.push(word@));
            assert(rest.take(j - start) =~= chars@.subrange(start as int, j as int));
            assert(rest.skip(j - start) =~= chars@.skip(j as int));
            assert(words(rest) == seq![word@] + words(chars@.skip(j as int)));
            assert(texts(out@) + words(chars@.skip(j as int)) =~= before + words(rest));
            i = j;
        }
    }
    assert(words(chars@.skip(i as int)) =~= Seq::<Seq<char>>::empty());
    assert(texts(out@) + Seq::<Seq<char>>::empty() =~= texts(out@));
    out
}

/// Whether `c` is white space: one of the code points with the Unicode
/// property White_Space.
pub open spec fn is_whitespace(c: char) -> bool {
    let u = c as u32;
    (0x09 <= u <= 0x0D) || u == 0x20 || u == 0x85 || u == 0xA0 || u == 0x1680 || (0x2000 <= u
        <= 0x200A) || u == 0x2028 || u == 0x2029 || u == 0x202F || u == 0x205F || u == 0x3000
}

/// `s` without its leading white space.
pub open spec fn trim_start(s: Seq<char>) -> Seq<char>
    decreases s.len(),
{
    if s.len() > 0 && is_whitespace(s[0]) {
        trim_start(s.drop_first())
    } else {
        s
    }
}

/// `s` without its trailing white space.
pub open spec fn trim_end(s: Seq<char>) -> Seq<char>
    decreases s.len(),
{
    if s.len() > 0 && is_whitespace(s.last()) {
        trim_end(s.drop_last())
    } else {
        s
    }
}

/// `s` without its leading and trailing white space.
pub open spec fn trimmed(s: Seq<char>) -> Seq<char> {
    trim_end(trim_start(s))
}

/// Whether `c` is white space.
pub fn is_whitespace_char(c: char) -> (b: bool)
    ensures
        b == is_whitespace(c),
{
    let u: u32 = c as u32;
    (0x09 <= u && u <= 0x0D) || u == 0x20 || u == 0x85 || u == 0xA0 || u == 0x1680 || (0x2000 <= u
        && u <= 0x200A) || u == 0x2028 || u == 0x2029 || u == 0x202F || u == 0x205F || u == 0x3000
}

/// A copy of `s` without its leading and trailing white space.
pub fn trim(s: &str) -> (t: String)
    ensures
        t@ == trimmed(s@),
{
    let chars = chars_of(s);
    let mut start: usize = 0;
    assert(chars@.skip(0) =~= chars@);
    while start < chars.len() && is_whitespace_char(chars[start])
        invariant
            start <= chars.len(),
            trim_start(chars@.skip(start as int)) == trim_start(chars@),
        decreases chars.len() - start,
    {
        assert(chars@.skip(start as int).drop_first() =~= chars@.skip(start + 1));
        start += 1;
    }
    let ghost rest = chars@.skip(start as int);
    assert(trim_start(chars@) == rest);
    let mut end: usize = chars.len();
    assert(chars@.subrange(start as int, end as int) =~= rest);
    while end > start && is_whitespace_char(chars[end - 1])
        invariant
            start <= end <= chars.len(),
            trim_end(chars@.subrange(start as int, end as int)) == trim_end(rest),
        decreases end - start,
    {
        assert(chars@.subrange(start as int, end as int).drop_last() =~= chars@.subrange(
            start as int,
            end - 1,
        ));
        end -= 1;
    }
    string_of(&chars, start, end)
}

/// What `String::from_utf8_lossy` makes of a byte sequence: its text,
/// with each invalid part replaced by U+FFFD.
pub uninterp spec fn lossy_text(bytes: Seq<u8>) -> Seq<char>;

/// Decodes bytes as UTF-8 with `String::from_utf8_lossy`: the result is
/// the text named [`lossy_text`], which for valid UTF-8 is the decoded
/// text itself.
#[verifier::external_body]
pub(crate) fn utf8_lossy(bytes: &[u8]) -> (s: String)
    ensures
        s@ == lossy_text(bytes@),
        vstd::utf8::valid_utf8(bytes@) ==> s@ == vstd::utf8::decode_utf8(bytes@),
{
    String::from_utf8_lossy(bytes).into_owned()
}

} // verus!
