//! Text that the parsers cut and read: spans between byte offsets, equality,
//! joining, and unsigned decimal numbers.

use vstd::prelude::*;
use vstd::string::*;
use vstd::utf8::*;

verus! {

/// `offset` lies in `text` and does not split the encoding of a character.
pub open spec fn on_boundary(text: Seq<char>, offset: int) -> bool {
    0 <= offset <= encode_utf8(text).len() && is_char_boundary(encode_utf8(text), offset)
}

/// The characters of `text` whose encodings occupy the bytes `from..to`.
pub open spec fn span(text: Seq<char>, from: int, to: int) -> Seq<char> {
    decode_utf8(encode_utf8(text).subrange(from, to))
}

/// The bytes after a character boundary are a text of their own, in which
/// every later boundary of the whole is a boundary again.
proof fn lemma_boundary_in_rest(bytes: Seq<u8>, at: int, later: int)
    requires
        valid_utf8(bytes),
        0 <= at <= later <= bytes.len(),
        is_char_boundary(bytes, at),
        is_char_boundary(bytes, later),
    ensures
        valid_utf8(bytes.subrange(at, bytes.len() as int)),
        is_char_boundary(bytes.subrange(at, bytes.len() as int), later - at),
{
    let rest = bytes.subrange(at, bytes.len() as int);
    valid_utf8_split(bytes, at);
    if at < later {
        if later < bytes.len() {
            is_char_boundary_iff_not_is_continuation_byte(bytes, later);
            is_char_boundary_iff_not_is_continuation_byte(rest, later - at);
        } else {
            is_char_boundary_start_end_of_seq(rest);
        }
    }
}

/// The bytes before a character boundary are a text of their own, in which
/// every earlier boundary of the whole is a boundary again.
proof fn lemma_boundary_in_front(bytes: Seq<u8>, earlier: int, at: int)
    requires
        valid_utf8(bytes),
        0 <= earlier <= at <= bytes.len(),
        is_char_boundary(bytes, earlier),
        is_char_boundary(bytes, at),
    ensures
        valid_utf8(bytes.subrange(0, at)),
        is_char_boundary(bytes.subrange(0, at), earlier),
{
    let front = bytes.subrange(0, at);
    valid_utf8_split(bytes, at);
    if 0 < earlier {
        if earlier < at {
            is_char_boundary_iff_not_is_continuation_byte(bytes, earlier);
            is_char_boundary_iff_not_is_continuation_byte(front, earlier);
        } else {
            is_char_boundary_start_end_of_seq(front);
        }
    }
}

/// Two spans that meet at a character boundary make up the span over both.
pub proof fn lemma_span_join(text: Seq<char>, from: int, at: int, to: int)
    requires
        from <= at <= to,
        on_boundary(text, from),
        on_boundary(text, at),
        on_boundary(text, to),
    ensures
        span(text, from, at) + span(text, at, to) == span(text, from, to),
{
    let bytes = encode_utf8(text);
    encode_utf8_valid_utf8(text);
    lemma_boundary_in_front(bytes, from, to);
    lemma_boundary_in_front(bytes, at, to);
    let front = bytes.subrange(0, to);
    lemma_boundary_in_rest(front, from, at);
    let part = front.subrange(from, to);
    assert(part =~= bytes.subrange(from, to));
    decode_utf8_split(part, at - from);
    assert(part.subrange(0, at - from) =~= bytes.subrange(from, at));
    assert(part.subrange(at - from, part.len() as int) =~= bytes.subrange(at, to));
}

/// Of the bytes that encode a character, one is zero only where the
/// character is NUL.
proof fn lemma_zero_byte_of_scalar(c: u32)
    requires
        is_scalar(c),
    ensures
        encode_scalar(c).contains(0u8) <==> c == 0,
{
    let bytes = encode_scalar(c);
    if c <= 0x7F {
        assert(((c & 0x7F) as u8 == 0u8) <==> c == 0) by (bit_vector)
            requires
                c <= 0x7F,
        ;
    }
    assert((0xC0u8 | ((c >> 6) & 0x1F) as u8) != 0u8) by (bit_vector);
    assert((0xE0u8 | ((c >> 12) & 0x0F) as u8) != 0u8) by (bit_vector);
    assert((0xF0u8 | ((c >> 18) & 0x7) as u8) != 0u8) by (bit_vector);
    assert((0x80u8 | (c & 0x3F) as u8) != 0u8) by (bit_vector);
    assert((0x80u8 | ((c >> 6) & 0x3F) as u8) != 0u8) by (bit_vector);
    assert((0x80u8 | ((c >> 12) & 0x3F) as u8) != 0u8) by (bit_vector);
    if c == 0 {
        assert(bytes[0] == 0u8);
    }
    if bytes.contains(0u8) {
        let i = choose|i: int| 0 <= i < bytes.len() && bytes[i] == 0u8;
        assert(bytes[i] == 0u8);
    }
}

/// A text holds the NUL character exactly where its encoding holds a zero
/// byte.
pub proof fn lemma_nul_byte_is_nul_char(text: Seq<char>)
    ensures
        encode_utf8(text).contains(0u8) <==> text.contains('\0'),
    decreases text.len(),
{
    let bytes = encode_utf8(text);
    if text.len() > 0 {
        let c = text[0] as u32;
        let head = encode_scalar(c);
        let rest = text.drop_first();
        let tail = encode_utf8(rest);
        char_is_scalar(text[0]);
        char_u32_cast(text[0], c);
        assert(c == 0 <==> text[0] == '\0');
        lemma_zero_byte_of_scalar(c);
        lemma_nul_byte_is_nul_char(rest);
        assert(bytes == head + tail);
        if bytes.contains(0u8) {
            let i = choose|i: int| 0 <= i < bytes.len() && bytes[i] == 0u8;
            if i < head.len() {
                assert(head[i] == 0u8);
                assert(text[0] == '\0');
            } else {
                assert(tail[i - head.len()] == 0u8);
                let k = choose|k: int| 0 <= k < rest.len() && rest[k] == '\0';
                assert(text[k + 1] == '\0');
            }
        }
        if text.contains('\0') {
            let k = choose|k: int| 0 <= k < text.len() && text[k] == '\0';
            if k == 0 {
                let i = choose|i: int| 0 <= i < head.len() && head[i] == 0u8;
                assert(bytes[i] == 0u8);
            } else {
                assert(rest[k - 1] == '\0');
                let i = choose|i: int| 0 <= i < tail.len() && tail[i] == 0u8;
                assert(bytes[head.len() + i] == 0u8);
            }
        }
    }
}

/// Whether two texts hold the same characters.
pub fn same_text(a: &str, b: &str) -> (r: bool)
    ensures
        r == (a@ == b@),
{
    broadcast use group_utf8_lib;

    let x = a.as_bytes();
    let y = b.as_bytes();
    proof {
        assert(decode_utf8(encode_utf8(a@)) == a@);
        assert(decode_utf8(encode_utf8(b@)) == b@);
    }
    if x.len() != y.len() {
        return false;
    }
    let mut i: usize = 0;
    while i < x.len()
        invariant
            i <= x.len(),
            x.len() == y.len(),
            x@ == encode_utf8(a@),
            y@ == encode_utf8(b@),
            forall|k: int| 0 <= k < i ==> x@[k] == y@[k],
        decreases x.len() - i,
    {
        if x[i] != y[i] {
            return false;
        }
        i += 1;
    }
    assert(x@ =~= y@);
    true
}

/// `prefix` followed by `rest`.
pub fn join(prefix: &str, rest: &str) -> (s: String)
    ensures
        s@ == prefix@ + rest@,
{
    let mut s = prefix.to_owned();
    s.append(rest);
    s
}

/// The part of `text` between two byte offsets that both fall on character
/// boundaries.
pub fn slice_span<'a>(text: &'a str, from: usize, to: usize) -> (part: &'a str)
    requires
        on_boundary(text@, from as int),
        on_boundary(text@, to as int),
        from <= to,
    ensures
        part@ == span(text@, from as int, to as int),
{
    broadcast use group_utf8_lib;

    let ghost bytes = encode_utf8(text@);
    let (_, rest) = text.split_at(from);
    proof {
        lemma_boundary_in_rest(bytes, from as int, to as int);
    }
    let (part, _) = rest.split_at(to - from);
    proof {
        assert(part.spec_bytes() =~= bytes.subrange(from as int, to as int));
        assert(decode_utf8(encode_utf8(part@)) == part@);
    }
    part
}

/// A decimal digit.
pub open spec fn is_digit(c: char) -> bool {
    '0' <= c <= '9'
}

/// The number that a run of decimal digits writes; 0 for the empty run.
pub open spec fn digits_value(digits: Seq<char>) -> nat
    decreases digits.len(),
{
    if digits.len() == 0 {
        0
    } else {
        digits_value(digits.drop_last()) * 10 + (digits.last() as nat - '0' as nat) as nat
    }
}

/// Every character of `digits` is a decimal digit.
pub open spec fn all_digits(digits: Seq<char>) -> bool {
    forall|i: int| 0 <= i < digits.len() ==> is_digit(#[trigger] digits[i])
}

/// `text` without the `+` that may lead it.
pub open spec fn unsigned_part(text: Seq<char>) -> Seq<char> {
    if text.len() > 0 && text[0] == '+' {
        text.drop_first()
    } else {
        text
    }
}

/// What a text denotes as an unsigned decimal number: an optional `+`, then
/// one digit or more and nothing else.
pub open spec fn decimal_value(text: Seq<char>) -> Option<nat> {
    let digits = unsigned_part(text);
    if digits.len() > 0 && all_digits(digits) {
        Some(digits_value(digits))
    } else {
        None
    }
}

/// The number that a field of a diagnostic holds, and 0, which stands for
/// "unknown", where the field is no number or one too large for `usize`.
pub open spec fn number_or_zero(text: Seq<char>) -> nat {
    match decimal_value(text) {
        Some(value) => if value <= usize::MAX { value } else { 0 },
        None => 0,
    }
}

/// A run of digits writes at least what any of its prefixes writes.
pub proof fn lemma_digits_value_grows(digits: Seq<char>, n: int)
    requires
        0 <= n <= digits.len(),
    ensures
        digits_value(digits.take(n)) <= digits_value(digits),
    decreases digits.len() - n,
{
    if n == digits.len() {
        assert(digits.take(n) =~= digits);
    } else {
        lemma_digits_value_grows(digits, n + 1);
        assert(digits.take(n + 1).drop_last() =~= digits.take(n));
    }
}

/// Reads an unsigned decimal number, as `str::parse::<usize>` does.
pub fn parse_decimal(text: &str) -> (value: Option<usize>)
    ensures
        value.is_some() == (decimal_value(text@) is Some && decimal_value(text@)->Some_0
            <= usize::MAX),
        value matches Some(n) ==> decimal_value(text@) == Some(n as nat),
{
    broadcast use group_utf8_lib;

    if !text.is_ascii() {
        proof {
            let k = choose|k: int| 0 <= k < text@.len() && !('\0' <= #[trigger] text@[k] <= '\u{7f}');
            assert(!is_digit(text@[k]) && text@[k] != '+');
            let digits = unsigned_part(text@);
            let j = if text@[0] == '+' { k - 1 } else { k };
            assert(!is_digit(digits[j]));
        }
        return None;
    }
    let bytes = text.as_bytes();
    proof {
        is_ascii_chars_encode_utf8(text@);
    }
    let len = bytes.len();
    let start: usize = if len > 0 && bytes[0] == 43u8 { 1 } else { 0 };
    let ghost digits = unsigned_part(text@);
    assert(digits.len() == len - start);
    assert(forall|k: int| 0 <= k < digits.len() ==> digits[k] as u8 == bytes@[k + start]);
    if start == len {
        return None;
    }
    let mut acc: usize = 0;
    let mut i: usize = start;
    while i < len
        invariant
            start <= i <= len,
            digits.len() == len - start,
            digits == unsigned_part(text@),
            bytes@.len() == len,
            is_ascii_chars(text@),
            forall|k: int| 0 <= k < digits.len() ==> digits[k] as u8 == bytes@[k + start],
            forall|k: int| 0 <= k < digits.len() ==> '\0' <= #[trigger] digits[k] <= '\u{7f}',
            forall|k: int| 0 <= k < i - start ==> is_digit(#[trigger] digits[k]),
            acc as nat == digits_value(digits.take(i - start)),
        decreases len - i,
    {
        let b = bytes[i];
        let ghost c = digits[i - start];
        assert('\0' <= c <= '\u{7f}');
        assert(c as u8 == b);
        if b < 48u8 || b > 57u8 {
            assert(!is_digit(digits[i - start]));
            return None;
        }
        assert(is_digit(c));
        proof {
            assert(digits.take(i - start + 1).drop_last() =~= digits.take(i - start));
            assert(digits.take(i - start + 1).last() == c);
            lemma_digits_value_grows(digits, i - start + 1);
        }
        let d: usize = (b - 48u8) as usize;
        let next = match acc.checked_mul(10) {
            Some(m) => m.checked_add(d),
            None => None,
        };
        match next {
            Some(n) => {
                acc = n;
            },
            None => {
                // the digits read so far exceed the range, and the whole
                // run is worth no less
                assert(digits_value(digits.take(i - start + 1)) == acc * 10 + d);
                assert(digits_value(digits) > usize::MAX);
                return None;
            },
        }
        i += 1;
    }
    assert(digits.take(len - start) =~= digits);
    Some(acc)
}

/// Reads a numeric field of a diagnostic: its value, or 0 where the field
/// is no number that fits.
pub fn parse_number(text: &str) -> (value: usize)
    ensures
        value as nat == number_or_zero(text@),
{
    match parse_decimal(text) {
        Some(n) => n,
        None => 0,
    }
}

/// The character that writes a digit below ten.
pub open spec fn digit_char(d: nat) -> char
    recommends
        d < 10,
{
    if d == 0 {
        '0'
    } else if d == 1 {
        '1'
    } else if d == 2 {
        '2'
    } else if d == 3 {
        '3'
    } else if d == 4 {
        '4'
    } else if d == 5 {
        '5'
    } else if d == 6 {
        '6'
    } else if d == 7 {
        '7'
    } else if d == 8 {
        '8'
    } else {
        '9'
    }
}

/// A number in decimal digits, without sign or leading zeros.
pub open spec fn decimal_digits(n: nat) -> Seq<char>
    decreases n,
{
    if n < 10 {
        seq![digit_char(n)]
    } else {
        decimal_digits(n / 10).push(digit_char(n % 10))
    }
}

fn digit_text(d: usize) -> (s: &'static str)
    requires
        d < 10,
    ensures
        s@ == seq![digit_char(d as nat)],
{
    proof {
        reveal_strlit("0");
        reveal_strlit("1");
        reveal_strlit("2");
        reveal_strlit("3");
        reveal_strlit("4");
        reveal_strlit("5");
        reveal_strlit("6");
        reveal_strlit("7");
        reveal_strlit("8");
        reveal_strlit("9");
    }
    let s = if d == 0 {
        "0"
    } else if d == 1 {
        "1"
    } else if d == 2 {
        "2"
    } else if d == 3 {
        "3"
    } else if d == 4 {
        "4"
    } else if d == 5 {
        "5"
    } else if d == 6 {
        "6"
    } else if d == 7 {
        "7"
    } else if d == 8 {
        "8"
    } else {
        "9"
    };
    assert(s@ =~= seq![digit_char(d as nat)]);
    s
}

/// Writes a number in decimal digits, so that it reads back as itself.
pub fn render_decimal(n: usize) -> (s: String)
    ensures
        s@ == decimal_digits(n as nat),
        decimal_value(s@) == Some(n as nat),
    decreases n,
{
    proof {
        lemma_decimal_round_trip(n as nat);
    }
    if n < 10 {
        digit_text(n).to_owned()
    } else {
        let mut s = render_decimal(n / 10);
        s.append(digit_text(n % 10));
        assert(s@ =~= decimal_digits(n as nat));
        s
    }
}

/// A whole number in decimal digits, with `-` before a negative one.
pub open spec fn signed_digits(n: int) -> Seq<char> {
    if n < 0 {
        "-"@ + decimal_digits((-n) as nat)
    } else {
        decimal_digits(n as nat)
    }
}

/// Writes a whole number in decimal digits.
pub fn render_signed(n: i32) -> (s: String)
    ensures
        s@ == signed_digits(n as int),
{
    if n < 0 {
        let magnitude: u32 = if n == i32::MIN {
            0x8000_0000u32
        } else {
            (-n) as u32
        };
        let digits = render_decimal(magnitude as usize);
        join("-", digits.as_str())
    } else {
        render_decimal(n as usize)
    }
}

/// The decimal digits of a number are digits, at least one, and write it.
pub proof fn lemma_decimal_digits(n: nat)
    ensures
        decimal_digits(n).len() > 0,
        all_digits(decimal_digits(n)),
        digits_value(decimal_digits(n)) == n,
    decreases n,
{
    let digits = decimal_digits(n);
    if n < 10 {
        assert(digits.drop_last() =~= Seq::<char>::empty());
        assert(digits_value(digits.drop_last()) == 0);
        assert(digits.last() == digit_char(n));
    } else {
        lemma_decimal_digits(n / 10);
        let front = decimal_digits(n / 10);
        assert(digits.drop_last() =~= front);
        assert forall|i: int| 0 <= i < digits.len() implies is_digit(#[trigger] digits[i]) by {
            if i < front.len() {
                assert(is_digit(front[i]));
            }
        }
    }
}

/// A number written in decimal digits reads back as itself.
pub proof fn lemma_decimal_round_trip(n: nat)
    ensures
        decimal_value(decimal_digits(n)) == Some(n),
{
    lemma_decimal_digits(n);
    let digits = decimal_digits(n);
    assert(is_digit(digits[0]));
    assert(unsigned_part(digits) == digits);
}

} // verus!
