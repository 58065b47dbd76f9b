//! Decimal and hexadecimal text: what is written, what is read back, and
//! why reading undoes writing.

use vstd::prelude::*;
use vstd::string::StringExecFns;
use vstd::string::StringSliceAdditionalSpecFns;

verus! {

/// The character of a decimal digit.
pub open spec fn digit_char(d: nat) -> char {
    if d == 0 {
        '0'
    } else if d == 1 {
        '1'
    } else if d == 2 {
        '2'
    } else if d == 3 {
        '3'
    } else if d == 4 {
        '4'
    } else if d == 5 {
        '5'
    } else if d == 6 {
        '6'
    } else if d == 7 {
        '7'
    } else if d == 8 {
        '8'
    } else {
        '9'
    }
}

/// The character of a hexadecimal digit, letters in lower case.
pub open spec fn hex_char(n: nat) -> char {
    if n < 10 {
        digit_char(n)
    } else if n == 10 {
        'a'
    } else if n == 11 {
        'b'
    } else if n == 12 {
        'c'
    } else if n == 13 {
        'd'
    } else if n == 14 {
        'e'
    } else {
        'f'
    }
}

/// Whether `c` is one of `0` to `9`.
pub open spec fn is_digit(c: char) -> bool {
    '0' <= c && c <= '9'
}

/// The number that a decimal digit stands for.
pub open spec fn digit_value(c: char) -> nat {
    (c as nat - '0' as nat) as nat
}

/// Whether `c` is one of `0` to `9` or `a` to `f`.
pub open spec fn is_hex(c: char) -> bool {
    is_digit(c) || ('a' <= c && c <= 'f')
}

/// The number that a hexadecimal digit stands for.
pub open spec fn hex_value(c: char) -> nat {
    if is_digit(c) {
        digit_value(c)
    } else {
        (c as nat - 'a' as nat + 10) as nat
    }
}

/// The decimal text of a number: no sign, no leading zero, `"0"` for zero.
pub open spec fn decimal(v: nat) -> Seq<char>
    decreases v,
{
    if v < 10 {
        seq![digit_char(v)]
    } else {
        decimal(v / 10).push(digit_char(v % 10))
    }
}

/// The number that a run of decimal digits stands for.
pub open spec fn digits_value(s: Seq<char>) -> nat
    decreases s.len(),
{
    if s.len() == 0 {
        0
    } else {
        digits_value(s.drop_last()) * 10 + digit_value(s.last())
    }
}

/// The hexadecimal text of a run of bytes: two digits for each byte, the
/// high half first.
pub open spec fn hex(bytes: Seq<u8>) -> Seq<char> {
    Seq::new(
        2 * bytes.len(),
        |i: int|
            if i % 2 == 0 {
                hex_char((bytes[i / 2] / 16) as nat)
            } else {
                hex_char((bytes[i / 2] % 16) as nat)
            },
    )
}

/// The bytes of a wire message as characters, one for one.
pub open spec fn as_text(bytes: Seq<u8>) -> Seq<char> {
    Seq::new(bytes.len(), |i: int| bytes[i] as char)
}

/// The characters of a plain text as bytes, one for one.
pub open spec fn as_bytes(text: Seq<char>) -> Seq<u8> {
    Seq::new(text.len(), |i: int| text[i] as u8)
}

/// Whether `part` stands in `text` from position `pos` on.
pub open spec fn has_at(text: Seq<char>, pos: int, part: Seq<char>) -> bool {
    &&& 0 <= pos
    &&& pos + part.len() <= text.len()
    &&& text.subrange(pos, pos + part.len()) == part
}

/// Whether a decimal digit stands at position `pos` of `text`.
pub open spec fn digit_at(text: Seq<char>, pos: int) -> bool {
    0 <= pos < text.len() && is_digit(text[pos])
}

/// Where the run of decimal digits that starts at `pos` ends.
pub open spec fn digits_end(text: Seq<char>, pos: int) -> int
    decreases text.len() - pos,
{
    if digit_at(text, pos) {
        digits_end(text, pos + 1)
    } else {
        pos
    }
}

/// Reading a fixed part: the position behind it, where it stands at `pos`.
pub open spec fn literal_at(text: Seq<char>, pos: int, part: Seq<char>) -> Option<int> {
    if has_at(text, pos, part) {
        Some(pos + part.len())
    } else {
        None
    }
}

/// Reading a number: the whole run of digits at `pos`, accepted where it is
/// not empty, has no leading zero and stands for at most `max`.
pub open spec fn decimal_at(text: Seq<char>, pos: int, max: nat) -> Option<(nat, int)> {
    let end = digits_end(text, pos);
    let run = text.subrange(pos, end);
    if 0 <= pos < end && (run[0] != '0' || end == pos + 1) && digits_value(run) <= max {
        Some((digits_value(run), end))
    } else {
        None
    }
}

/// Reading `count` bytes in hexadecimal: twice as many digits from `pos` on.
pub open spec fn hex_at(text: Seq<char>, pos: int, count: nat) -> Option<(Seq<u8>, int)> {
    if 0 <= pos && pos + 2 * count <= text.len() && (forall|i: int|
        pos <= i < pos + 2 * count ==> is_hex(#[trigger] text[i])) {
        Some(
            (
                Seq::new(
                    count,
                    |k: int|
                        (hex_value(text[pos + 2 * k]) * 16 + hex_value(
                            text[pos + 2 * k + 1],
                        )) as u8,
                ),
                pos + 2 * count,
            ),
        )
    } else {
        None
    }
}

/// A single digit stands for its own value.
pub proof fn lemma_value_of_one(s: Seq<char>)
    requires
        s.len() == 1,
    ensures
        digits_value(s) == digit_value(s[0]),
{
    reveal_with_fuel(digits_value, 2);
    assert(s.drop_last().len() == 0);
}

/// The digits of `decimal(v)` are digits, the first is no zero unless it is
/// the only one, and they stand for `v`.
pub proof fn lemma_decimal_shape(v: nat)
    ensures
        decimal(v).len() >= 1,
        forall|i: int| 0 <= i < decimal(v).len() ==> is_digit(#[trigger] decimal(v)[i]),
        decimal(v)[0] != '0' || decimal(v).len() == 1,
        digits_value(decimal(v)) == v,
        v < 10 ==> decimal(v).len() == 1,
    decreases v,
{
    if v < 10 {
        lemma_value_of_one(decimal(v));
    } else {
        lemma_decimal_shape(v / 10);
        let s = decimal(v);
        assert(s.drop_last() =~= decimal(v / 10));
        assert(s.last() == digit_char(v % 10));
        assert(s[0] == decimal(v / 10)[0]);
        assert(decimal(v / 10)[0] != '0') by {
            if decimal(v / 10).len() == 1 {
                lemma_value_of_one(decimal(v / 10));
            }
        }
    }
}

/// Two numbers with the same decimal text are the same number.
pub proof fn lemma_decimal_injective(a: nat, b: nat)
    requires
        decimal(a) == decimal(b),
    ensures
        a == b,
{
    lemma_decimal_shape(a);
    lemma_decimal_shape(b);
}

/// A run of digits stands for at least what any of its beginnings stands
/// for.
pub proof fn lemma_value_of_prefix(s: Seq<char>, k: int)
    requires
        0 <= k <= s.len(),
    ensures
        digits_value(s.subrange(0, k)) <= digits_value(s),
    decreases s.len() - k,
{
    if k == s.len() {
        assert(s.subrange(0, k) =~= s);
    } else {
        lemma_value_of_prefix(s.drop_last(), k);
        assert(s.drop_last().subrange(0, k) =~= s.subrange(0, k));
    }
}

/// A run of digits without a leading zero is the decimal text of the number
/// it stands for.
pub proof fn lemma_digits_are_decimal(s: Seq<char>)
    requires
        s.len() >= 1,
        forall|i: int| 0 <= i < s.len() ==> is_digit(#[trigger] s[i]),
        s[0] != '0' || s.len() == 1,
    ensures
        decimal(digits_value(s)) == s,
    decreases s.len(),
{
    let c = s.last();
    let front = s.drop_last();
    assert(is_digit(c));
    if s.len() == 1 {
        lemma_value_of_one(s);
        assert(decimal(digits_value(s)) =~= s);
    } else {
        assert(front[0] == s[0]);
        assert forall|i: int| 0 <= i < front.len() implies is_digit(#[trigger] front[i]) by {
            assert(front[i] == s[i]);
        }
        lemma_digits_are_decimal(front);
        lemma_value_of_prefix(front, 1);
        lemma_value_of_one(front.subrange(0, 1));
        assert(digits_value(front) >= 1);
        let v = digits_value(s);
        assert(v == digits_value(front) * 10 + digit_value(c));
        assert(v / 10 == digits_value(front));
        assert(v % 10 == digit_value(c));
        assert(decimal(v) =~= s);
    }
}

/// Where every position from `pos` up to `k` holds a digit, the run that
/// starts at `pos` ends where the run that starts at `k` ends.
pub proof fn lemma_digits_end(text: Seq<char>, pos: int, k: int)
    requires
        0 <= pos <= k <= text.len(),
        forall|j: int| pos <= j < k ==> is_digit(#[trigger] text[j]),
    ensures
        digits_end(text, pos) == digits_end(text, k),
        digits_end(text, k) >= k,
        digits_end(text, k) <= text.len(),
        forall|j: int| pos <= j < digits_end(text, pos) ==> is_digit(#[trigger] text[j]),
        !digit_at(text, digits_end(text, pos)),
    decreases text.len() - pos,
{
    if pos < k {
        lemma_digits_end(text, pos + 1, k);
    } else if digit_at(text, pos) {
        lemma_digits_end(text, pos + 1, pos + 1);
    }
}

/// Reading a number that was written gives that number back, where what
/// follows it is no digit.
pub proof fn lemma_read_written_decimal(text: Seq<char>, pos: int, v: nat, max: nat)
    requires
        has_at(text, pos, decimal(v)),
        !digit_at(text, pos + decimal(v).len()),
        v <= max,
    ensures
        decimal_at(text, pos, max) == Some((v, pos + decimal(v).len())),
{
    lemma_decimal_shape(v);
    let end = pos + decimal(v).len();
    assert forall|j: int| pos <= j < end implies is_digit(#[trigger] text[j]) by {
        assert(text[j] == text.subrange(pos, end)[j - pos]);
    }
    lemma_digits_end(text, pos, end);
    assert(digits_end(text, end) == end);
}

/// What reading a number accepts is the decimal text of the number it
/// gives, with no digit behind it.
pub proof fn lemma_decimal_read_is_written(text: Seq<char>, pos: int, max: nat)
    requires
        decimal_at(text, pos, max) is Some,
    ensures
        has_at(text, pos, decimal(decimal_at(text, pos, max).unwrap().0)),
        decimal_at(text, pos, max).unwrap().1 == pos + decimal(
            decimal_at(text, pos, max).unwrap().0,
        ).len(),
        !digit_at(text, decimal_at(text, pos, max).unwrap().1),
        decimal_at(text, pos, max).unwrap().0 <= max,
{
    let end = digits_end(text, pos);
    let run = text.subrange(pos, end);
    lemma_digits_end(text, pos, pos);
    lemma_digits_are_decimal(run);
}

/// Reading bytes that were written in hexadecimal gives them back.
pub proof fn lemma_read_written_hex(text: Seq<char>, pos: int, bytes: Seq<u8>)
    requires
        has_at(text, pos, hex(bytes)),
    ensures
        hex_at(text, pos, bytes.len()) == Some((bytes, pos + 2 * bytes.len())),
{
    let n = bytes.len();
    assert forall|i: int| pos <= i < pos + 2 * n implies is_hex(#[trigger] text[i]) by {
        assert(text[i] == text.subrange(pos, pos + 2 * n)[i - pos]);
    }
    let read = hex_at(text, pos, n).unwrap().0;
    assert forall|k: int| 0 <= k < n implies read[k] == bytes[k] by {
        assert(text[pos + 2 * k] == text.subrange(pos, pos + 2 * n)[2 * k]);
        assert(text[pos + 2 * k + 1] == text.subrange(pos, pos + 2 * n)[2 * k + 1]);
        let b = bytes[k];
        assert(hex_value(hex_char((b / 16) as nat)) == b / 16);
        assert(hex_value(hex_char((b % 16) as nat)) == b % 16);
    }
    assert(read =~= bytes);
}

/// What reading hexadecimal accepts is the hexadecimal text of the bytes it
/// gives.
pub proof fn lemma_hex_read_is_written(text: Seq<char>, pos: int, count: nat)
    requires
        hex_at(text, pos, count) is Some,
    ensures
        has_at(text, pos, hex(hex_at(text, pos, count).unwrap().0)),
        hex_at(text, pos, count).unwrap().0.len() == count,
        hex_at(text, pos, count).unwrap().1 == pos + 2 * count,
{
    let read = hex_at(text, pos, count).unwrap().0;
    let part = text.subrange(pos, pos + 2 * count);
    assert forall|i: int| 0 <= i < 2 * count implies part[i] == hex(read)[i] by {
        let k = i / 2;
        let hi = text[pos + 2 * k];
        let lo = text[pos + 2 * k + 1];
        assert(is_hex(hi) && is_hex(lo));
        assert(hex_char(hex_value(hi)) == hi);
        assert(hex_char(hex_value(lo)) == lo);
        let b = (hex_value(hi) * 16 + hex_value(lo)) as u8;
        assert(read[k] == b);
        assert(b / 16 == hex_value(hi));
        assert(b % 16 == hex_value(lo));
    }
    assert(part =~= hex(read));
}

/// Two runs of bytes with the same hexadecimal text are the same run.
pub proof fn lemma_hex_injective(a: Seq<u8>, b: Seq<u8>)
    requires
        hex(a) == hex(b),
    ensures
        a == b,
{
    assert(hex(a).len() == hex(b).len());
    assert(hex(a).subrange(0, hex(a).len() as int) =~= hex(a));
    lemma_read_written_hex(hex(a), 0, a);
    lemma_read_written_hex(hex(a), 0, b);
}

} // verus!

verus! {

/// The decimal digit `d` as a string.
fn digit_str(d: u8) -> (s: &'static str)
    requires
        d < 10,
    ensures
        s@ == seq![digit_char(d as nat)],
{
    proof {
        reveal_strlit("0");
        reveal_strlit("1");
        reveal_strlit("2");
        reveal_strlit("3");
        reveal_strlit("4");
        reveal_strlit("5");
        reveal_strlit("6");
        reveal_strlit("7");
        reveal_strlit("8");
        reveal_strlit("9");
    }
    let s = if d == 0 {
        "0"
    } else if d == 1 {
        "1"
    } else if d == 2 {
        "2"
    } else if d == 3 {
        "3"
    } else if d == 4 {
        "4"
    } else if d == 5 {
        "5"
    } else if d == 6 {
        "6"
    } else if d == 7 {
        "7"
    } else if d == 8 {
        "8"
    } else {
        "9"
    };
    assert(s@ =~= seq![digit_char(d as nat)]);
    s
}

/// The hexadecimal digit `n` as a string.
fn hex_str(n: u8) -> (s: &'static str)
    requires
        n < 16,
    ensures
        s@ == seq![hex_char(n as nat)],
{
    if n < 10 {
        digit_str(n)
    } else {
        proof {
            reveal_strlit("a");
            reveal_strlit("b");
            reveal_strlit("c");
            reveal_strlit("d");
            reveal_strlit("e");
            reveal_strlit("f");
        }
        let s = if n == 10 {
            "a"
        } else if n == 11 {
            "b"
        } else if n == 12 {
            "c"
        } else if n == 13 {
            "d"
        } else if n == 14 {
            "e"
        } else {
            "f"
        };
        assert(s@ =~= seq![hex_char(n as nat)]);
        s
    }
}

/// Appends the decimal text of `v` to `out`.
pub fn push_decimal(out: &mut String, v: u128)
    ensures
        final(out)@ == old(out)@ + decimal(v as nat),
    decreases v,
{
    if v >= 10 {
        push_decimal(out, v / 10);
    }
    let d: u8 = (v % 10) as u8;
    out.append(digit_str(d));
    assert(final(out)@ =~= old(out)@ + decimal(v as nat));
}

/// Appends the hexadecimal text of a hash to `out`.
pub fn push_hex(out: &mut String, bytes: &[u8; 32])
    ensures
        final(out)@ == old(out)@ + hex(bytes@),
{
    let mut i: usize = 0;
    while i < 32
        invariant
            i <= 32,
            out@ == old(out)@ + hex(bytes@.subrange(0, i as int)),
        decreases 32 - i,
    {
        let b: u8 = bytes[i];
        let ghost before = out@;
        out.append(hex_str(b / 16));
        out.append(hex_str(b % 16));
        proof {
            let shorter = bytes@.subrange(0, i as int);
            let longer = bytes@.subrange(0, i + 1);
            assert(longer[i as int] == b);
            assert forall|k: int| 0 <= k < 2 * i implies hex(longer)[k] == hex(shorter)[k] by {
                assert(longer[k / 2] == shorter[k / 2]);
            }
            assert(hex(longer) =~= hex(shorter) + seq![hex_char((b / 16) as nat)] + seq![
                hex_char((b % 16) as nat),
            ]);
            assert(out@ =~= old(out)@ + hex(longer));
        }
        i = i + 1;
    }
    assert(bytes@.subrange(0, 32) =~= bytes@);
}

/// Reads the fixed part `part` at `pos`: the position behind it, or `None`
/// where other bytes stand there.
pub(crate) fn read_literal(bytes: &[u8], pos: usize, part: &str) -> (r: Option<usize>)
    requires
        pos <= bytes.len(),
        part.is_ascii(),
    ensures
        match r {
            Some(end) => literal_at(as_text(bytes@), pos as int, part@) == Some(end as int),
            None => literal_at(as_text(bytes@), pos as int, part@) is None,
        },
{
    broadcast use vstd::string::is_ascii_spec_bytes;

    let wanted = part.as_bytes();
    let n = wanted.len();
    let ghost text = as_text(bytes@);
    assert(n == part@.len());
    if n > bytes.len() - pos {
        return None;
    }
    let mut j: usize = 0;
    while j < n
        invariant
            j <= n,
            n == part@.len(),
            n == wanted@.len(),
            pos + n <= bytes.len(),
            text == as_text(bytes@),
            part.is_ascii(),
            wanted@ == part.spec_bytes(),
            forall|k: int| 0 <= k < j ==> text[pos + k] == part@[k],
        decreases n - j,
    {
        if bytes[pos + j] != wanted[j] {
            proof {
                assert(part@[j as int] as u8 == wanted@[j as int]);
                if has_at(text, pos as int, part@) {
                    assert(text.subrange(pos as int, pos + n)[j as int] == part@[j as int]);
                }
            }
            return None;
        }
        proof {
            assert(part@[j as int] as u8 == wanted@[j as int]);
            vstd::utf8::is_ascii_chars_nat_bound(part@);
        }
        j = j + 1;
    }
    assert(text.subrange(pos as int, pos + n) =~= part@);
    Some(pos + n)
}

/// Reads a decimal number of at most `max` at `pos`: the number and the
/// position behind its digits.
pub fn read_decimal(bytes: &[u8], pos: usize, max: u128) -> (r: Option<(u128, usize)>)
    ensures
        r matches Some((_, end)) ==> end <= bytes.len(),
        match r {
            Some((v, end)) => decimal_at(as_text(bytes@), pos as int, max as nat) == Some(
                (v as nat, end as int),
            ),
            None => decimal_at(as_text(bytes@), pos as int, max as nat) is None,
        },
{
    let ghost text = as_text(bytes@);
    if pos > bytes.len() {
        return None;
    }
    let mut i: usize = pos;
    let mut acc: u128 = 0;
    while i < bytes.len() && 48 <= bytes[i] && bytes[i] <= 57
        invariant
            pos <= i <= bytes.len(),
            text == as_text(bytes@),
            forall|j: int| pos <= j < i ==> is_digit(#[trigger] text[j]),
            acc == digits_value(text.subrange(pos as int, i as int)),
            acc <= max,
        decreases bytes.len() - i,
    {
        let d: u128 = (bytes[i] - 48) as u128;
        proof {
            let shorter = text.subrange(pos as int, i as int);
            let longer = text.subrange(pos as int, i + 1);
            assert(longer.drop_last() =~= shorter);
            assert(longer.last() == text[i as int]);
            assert(digit_value(text[i as int]) == d);
            assert(digits_value(longer) == acc * 10 + d);
            assert(is_digit(text[i as int]));
        }
        if d > max || acc > (max - d) / 10 {
            proof {
                lemma_digits_end(text, pos as int, i + 1);
                let end = digits_end(text, pos as int);
                let run = text.subrange(pos as int, end);
                lemma_value_of_prefix(run, i + 1 - pos);
                assert(run.subrange(0, i + 1 - pos) =~= text.subrange(pos as int, i + 1));
            }
            return None;
        }
        acc = acc * 10 + d;
        i = i + 1;
    }
    proof {
        lemma_digits_end(text, pos as int, i as int);
        assert(!digit_at(text, i as int));
        assert(digits_end(text, i as int) == i);
    }
    if i == pos {
        return None;
    }
    if bytes[pos] == 48 && i > pos + 1 {
        return None;
    }
    assert(text.subrange(pos as int, i as int)[0] == text[pos as int]);
    Some((acc, i))
}

/// The number that the byte stands for as a hexadecimal digit, if it is one.
fn hex_digit(b: u8) -> (r: Option<u8>)
    ensures
        match r {
            Some(n) => is_hex(b as char) && n == hex_value(b as char),
            None => !is_hex(b as char),
        },
{
    if 48 <= b && b <= 57 {
        Some(b - 48)
    } else if 97 <= b && b <= 102 {
        Some(b - 87)
    } else {
        None
    }
}

/// Reads a hash in hexadecimal at `pos`: its 32 bytes and the position
/// behind its 64 digits.
pub fn read_hex(bytes: &[u8], pos: usize) -> (r: Option<([u8; 32], usize)>)
    ensures
        match r {
            Some((hash, end)) => hex_at(as_text(bytes@), pos as int, 32) == Some(
                (hash@, end as int),
            ),
            None => hex_at(as_text(bytes@), pos as int, 32) is None,
        },
{
    let ghost text = as_text(bytes@);
    if pos > bytes.len() || bytes.len() - pos < 64 {
        return None;
    }
    let mut hash: [u8; 32] = [0u8; 32];
    let mut k: usize = 0;
    while k < 32
        invariant
            k <= 32,
            pos + 64 <= bytes.len(),
            text == as_text(bytes@),
            forall|i: int| pos <= i < pos + 2 * k ==> is_hex(#[trigger] text[i]),
            forall|j: int|
                0 <= j < k ==> #[trigger] hash@[j] == (hex_value(text[pos + 2 * j]) * 16
                    + hex_value(text[pos + 2 * j + 1])) as u8,
        decreases 32 - k,
    {
        let hi = hex_digit(bytes[pos + 2 * k]);
        let lo = hex_digit(bytes[pos + 2 * k + 1]);
        match (hi, lo) {
            (Some(h), Some(l)) => {
                hash[k] = h * 16 + l;
            },
            _ => {
                assert(!is_hex(text[pos + 2 * k]) || !is_hex(text[pos + 2 * k + 1]));
                return None;
            },
        }
        k = k + 1;
    }
    assert(hash@ =~= hex_at(text, pos as int, 32).unwrap().0);
    Some((hash, pos + 64))
}

} // verus!
