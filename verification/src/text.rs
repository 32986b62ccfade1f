//! Text helpers shared by the other modules: decimal rendering, joining,
//! trimming and the views of string lists.

use vstd::prelude::*;

verus! {

/// The views of a list of strings, item by item.
pub open spec fn texts(items: Seq<String>) -> Seq<Seq<char>> {
    items.map_values(|s: String| s@)
}

/// The view of an optional text.
pub open spec fn option_text(text: Option<String>) -> Option<Seq<char>> {
    match text {
        Some(t) => Some(t@),
        None => None,
    }
}

/// The character that writes the decimal digit `d`.
pub open spec fn digit_char(d: nat) -> char {
    if d == 0 {
        '0'
    } else if d == 1 {
        '1'
    } else if d == 2 {
        '2'
    } else if d == 3 {
        '3'
    } else if d == 4 {
        '4'
    } else if d == 5 {
        '5'
    } else if d == 6 {
        '6'
    } else if d == 7 {
        '7'
    } else if d == 8 {
        '8'
    } else {
        '9'
    }
}

/// The decimal digits of `n`, most significant first, without leading zeros.
pub open spec fn decimal(n: nat) -> Seq<char>
    decreases n,
{
    if n < 10 {
        seq![digit_char(n)]
    } else {
        decimal(n / 10).push(digit_char(n % 10))
    }
}

/// The decimal text of a signed integer: a minus sign before the digits of a
/// negative number.
pub open spec fn signed_decimal(n: int) -> Seq<char> {
    if n < 0 {
        seq!['-'] + decimal((-n) as nat)
    } else {
        decimal(n as nat)
    }
}

/// The fraction digits of a count of thousandths below one thousand, with
/// trailing zeros removed; empty when the count is zero.
pub open spec fn fraction_digits(frac: nat) -> Seq<char> {
    let d1: nat = frac / 100;
    let d2: nat = (frac / 10) % 10;
    let d3: nat = frac % 10;
    if d3 != 0 {
        seq![digit_char(d1), digit_char(d2), digit_char(d3)]
    } else if d2 != 0 {
        seq![digit_char(d1), digit_char(d2)]
    } else if d1 != 0 {
        seq![digit_char(d1)]
    } else {
        Seq::<char>::empty()
    }
}

/// The shortest decimal text of `milli` thousandths: `2000` is "2", `1500` is
/// "1.5", `100` is "0.1".
pub open spec fn milli_decimal(milli: nat) -> Seq<char> {
    if milli % 1000 == 0 {
        decimal(milli / 1000)
    } else {
        decimal(milli / 1000) + seq!['.'] + fraction_digits(milli % 1000)
    }
}

/// The shortest decimal text of a signed count of thousandths: a minus sign
/// before the text of a negative count's size; `10500` is "10.5", `-500` is
/// "-0.5".
pub open spec fn signed_milli_decimal(milli: int) -> Seq<char> {
    if milli < 0 {
        seq!['-'] + milli_decimal((-milli) as nat)
    } else {
        milli_decimal(milli as nat)
    }
}

/// `parts` joined by `sep`: the separator stands between neighbours only.
pub open spec fn joined(parts: Seq<Seq<char>>, sep: Seq<char>) -> Seq<char>
    decreases parts.len(),
{
    if parts.len() == 0 {
        Seq::<char>::empty()
    } else if parts.len() == 1 {
        parts[0]
    } else {
        joined(parts.drop_last(), sep) + sep + parts.last()
    }
}

/// Whether `c` has the Unicode property White_Space.
pub open spec fn is_space(c: char) -> bool {
    ||| c == ' '
    ||| ('\u{9}' <= c && c <= '\u{d}')
    ||| c == '\u{85}'
    ||| c == '\u{a0}'
    ||| c == '\u{1680}'
    ||| ('\u{2000}' <= c && c <= '\u{200a}')
    ||| c == '\u{2028}'
    ||| c == '\u{2029}'
    ||| c == '\u{202f}'
    ||| c == '\u{205f}'
    ||| c == '\u{3000}'
}

/// `s` without its leading white space.
pub open spec fn trim_front(s: Seq<char>) -> Seq<char>
    decreases s.len(),
{
    if s.len() > 0 && is_space(s[0]) {
        trim_front(s.drop_first())
    } else {
        s
    }
}

/// `s` without its trailing white space.
pub open spec fn trim_back(s: Seq<char>) -> Seq<char>
    decreases s.len(),
{
    if s.len() > 0 && is_space(s.last()) {
        trim_back(s.drop_last())
    } else {
        s
    }
}

/// `s` without leading and trailing white space.
pub open spec fn trimmed(s: Seq<char>) -> Seq<char> {
    trim_back(trim_front(s))
}

/// The text that `String::from_utf8_lossy` reads from bytes: their UTF-8
/// decoding, each invalid sequence replaced by U+FFFD.
pub uninterp spec fn utf8_lossy(bytes: Seq<u8>) -> Seq<char>;

/// `String::from_utf8_lossy`, owned.
#[verifier::external_body]
pub(crate) fn lossy_text(bytes: &Vec<u8>) -> (s: String)
    ensures
        s@ == utf8_lossy(bytes@),
{
    String::from_utf8_lossy(bytes).into_owned()
}

/// Whether `needle` stands somewhere in `hay`.
pub open spec fn contains_text(hay: Seq<char>, needle: Seq<char>) -> bool {
    exists|i: int, j: int|
        0 <= i <= j <= hay.len() && j - i == needle.len() && #[trigger] hay.subrange(i, j) == needle
}

/// `str::contains` with a string pattern.
#[verifier::external_body]
pub(crate) fn contains(hay: &str, needle: &str) -> (found: bool)
    ensures
        found == contains_text(hay@, needle@),
{
    hay.contains(needle)
}

/// The lowercase of a text, as `str::to_lowercase` gives it.
pub uninterp spec fn lowercased(s: Seq<char>) -> Seq<char>;

/// `str::to_lowercase`.
#[verifier::external_body]
pub(crate) fn lowercase(s: &str) -> (lower: String)
    ensures
        lower@ == lowercased(s@),
{
    s.to_lowercase()
}

/// Whether `c` is a decimal digit.
pub open spec fn is_digit(c: char) -> bool {
    '0' <= c && c <= '9'
}

/// The number that decimal digits write.
pub open spec fn digits_value(s: Seq<char>) -> nat
    decreases s.len(),
{
    if s.len() == 0 {
        0
    } else {
        digits_value(s.drop_last()) * 10 + ((s.last() as u32 - '0' as u32) as nat)
    }
}

/// The number that a text writes: decimal digits, at least one, after an
/// optional plus sign, where the number is one of 64 bits; nothing for any
/// other text.
pub open spec fn unsigned_of(text: Seq<char>) -> Option<u64> {
    let body = if text.len() > 0 && text[0] == '+' {
        text.drop_first()
    } else {
        text
    };
    if body.len() > 0 && (forall|i: int| 0 <= i < body.len() ==> is_digit(#[trigger] body[i])) && digits_value(body)
        <= u64::MAX {
        Some(digits_value(body) as u64)
    } else {
        None
    }
}

/// The decimal text of a number is made of digits, at least one, and writes
/// that number.
pub proof fn decimal_writes_its_number(n: nat)
    ensures
        decimal(n).len() > 0,
        forall|i: int| 0 <= i < decimal(n).len() ==> is_digit(#[trigger] decimal(n)[i]),
        digits_value(decimal(n)) == n,
    decreases n,
{
    if n < 10 {
        let text = decimal(n);
        assert(text.drop_last() =~= Seq::<char>::empty());
        assert(digits_value(text.drop_last()) == 0);
        assert(text.last() == digit_char(n));
    } else {
        decimal_writes_its_number(n / 10);
        let text = decimal(n);
        assert(text.drop_last() =~= decimal(n / 10));
        assert(text.last() == digit_char(n % 10));
    }
}

/// A number of 64 bits is read back from its decimal text.
pub proof fn decimal_is_read_back(n: u64)
    ensures
        unsigned_of(decimal(n as nat)) == Some(n),
{
    decimal_writes_its_number(n as nat);
    assert(is_digit(decimal(n as nat)[0]));
}

/// `str::parse` at type `u64`.
#[verifier::external_body]
pub(crate) fn parse_u64(text: &str) -> (n: Option<u64>)
    ensures
        n == unsigned_of(text@),
{
    text.parse::<u64>().ok()
}

/// `String::push` appends one character.
pub assume_specification[ String::push ](s: &mut String, ch: char)
    ensures
        final(s)@ == old(s)@.push(ch),
;

/// `str::trim` returns the slice between the first and the last character
/// that is not white space, white space being the Unicode property
/// White_Space.
#[verifier::external_body]
pub(crate) fn trim<'a>(s: &'a str) -> (t: &'a str)
    ensures
        t@ == trimmed(s@),
{
    s.trim()
}

/// `str`'s `==` compares two strings character by character.
#[verifier::external_body]
pub(crate) fn same_text(a: &str, b: &str) -> (same: bool)
    ensures
        same == (a@ == b@),
{
    a == b
}

/// Appends a copy of `s` to a list of texts.
pub fn push_text(args: &mut Vec<String>, s: &str)
    ensures
        texts(final(args)@) == texts(old(args)@).push(s@),
{
    let owned = String::from_str(s);
    args.push(owned);
    proof {
        assert(texts(args@) =~= texts(old(args)@).push(s@));
    }
}

/// Appends `s` to a list of texts.
pub fn push_owned(args: &mut Vec<String>, s: String)
    ensures
        texts(final(args)@) == texts(old(args)@).push(s@),
{
    args.push(s);
    proof {
        assert(texts(args@) =~= texts(old(args)@).push(s@));
    }
}

/// One text after another.
pub fn followed_by(a: &str, b: &str) -> (s: String)
    ensures
        s@ == a@ + b@,
{
    let mut s = String::from_str(a);
    s.append(b);
    s
}

/// The character of one decimal digit.
pub fn digit(d: u8) -> (c: char)
    requires
        d < 10,
    ensures
        c == digit_char(d as nat),
{
    if d == 0 {
        '0'
    } else if d == 1 {
        '1'
    } else if d == 2 {
        '2'
    } else if d == 3 {
        '3'
    } else if d == 4 {
        '4'
    } else if d == 5 {
        '5'
    } else if d == 6 {
        '6'
    } else if d == 7 {
        '7'
    } else if d == 8 {
        '8'
    } else {
        '9'
    }
}

/// Writes `n` in decimal.
pub fn u64_text(n: u64) -> (s: String)
    ensures
        s@ == decimal(n as nat),
    decreases n,
{
    if n < 10 {
        let mut s = String::new();
        s.push(digit(n as u8));
        s
    } else {
        let mut s = u64_text(n / 10);
        s.push(digit((n % 10) as u8));
        s
    }
}

/// Writes a signed integer in decimal.
pub fn i64_text(n: i64) -> (s: String)
    ensures
        s@ == signed_decimal(n as int),
{
    if n < 0 {
        let magnitude: u64 = if n == i64::MIN {
            9223372036854775808u64
        } else {
            (-n) as u64
        };
        let mut s = String::new();
        s.push('-');
        let digits = u64_text(magnitude);
        s.append(digits.as_str());
        s
    } else {
        u64_text(n as u64)
    }
}

/// Writes a count of thousandths as the shortest decimal number.
pub fn milli_text(milli: u64) -> (s: String)
    ensures
        s@ == milli_decimal(milli as nat),
{
    let whole: u64 = milli / 1000;
    let frac: u64 = milli % 1000;
    let mut s = u64_text(whole);
    if frac != 0 {
        let d1: u8 = (frac / 100) as u8;
        let d2: u8 = ((frac / 10) % 10) as u8;
        let d3: u8 = (frac % 10) as u8;
        s.push('.');
        if d3 != 0 {
            s.push(digit(d1));
            s.push(digit(d2));
            s.push(digit(d3));
        } else if d2 != 0 {
            s.push(digit(d1));
            s.push(digit(d2));
        } else {
            s.push(digit(d1));
        }
        proof {
            assert(s@ =~= milli_decimal(milli as nat));
        }
    }
    s
}

/// Writes a signed count of thousandths as the shortest decimal number.
pub fn signed_milli_text(milli: i64) -> (s: String)
    ensures
        s@ == signed_milli_decimal(milli as int),
{
    if milli < 0 {
        let magnitude: u64 = if milli == i64::MIN {
            9223372036854775808u64
        } else {
            (-milli) as u64
        };
        let mut s = String::new();
        s.push('-');
        let digits = milli_text(magnitude);
        s.append(digits.as_str());
        s
    } else {
        milli_text(milli as u64)
    }
}

/// Joins `parts` with `sep` between neighbours.
pub fn join(parts: &Vec<String>, sep: &str) -> (out: String)
    ensures
        out@ == joined(texts(parts@), sep@),
{
    let mut out = String::new();
    let mut i: usize = 0;
    while i < parts.len()
        invariant
            i <= parts.len(),
            out@ == joined(texts(parts@).take(i as int), sep@),
        decreases parts.len() - i,
    {
        proof {
            let all = texts(parts@);
            assert(all.take(i as int + 1).drop_last() =~= all.take(i as int));
            assert(all.take(i as int + 1).last() == parts@[i as int]@);
        }
        if i > 0 {
            out.append(sep);
        }
        out.append(parts[i].as_str());
        proof {
            let all = texts(parts@);
            if i == 0 {
                assert(all.take(1)[0] == parts@[0]@);
                assert(out@ =~= parts@[0]@);
            }
        }
        i = i + 1;
    }
    proof {
        assert(texts(parts@).take(parts.len() as int) =~= texts(parts@));
    }
    out
}

} // verus!
