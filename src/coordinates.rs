use vstd::prelude::*;
use crate::error::GameError;
use crate::text::{all_digits, digits_value, is_digit, trim_end, trimmed_len, unsigned_value};

verus! {

/// A zero-based cell address.
#[derive(Clone, Copy, Debug, PartialEq, Eq, Structural)]
pub struct Coordinates {
    pub row: u32,
    pub col: u32,
}

pub open spec fn is_ascii_letter(c: char) -> bool {
    ('A' <= c && c <= 'Z') || ('a' <= c && c <= 'z')
}

/// Zero-based index of a column letter, in either case.
pub open spec fn letter_index(c: char) -> nat {
    if 'A' <= c && c <= 'Z' {
        (c as nat - 'A' as nat) as nat
    } else {
        (c as nat - 'a' as nat) as nat
    }
}

/// What a label such as `A1` or `b12` addresses: a letter for the column, then
/// the 1-based row number (trailing white space ignored).
pub open spec fn parse_label(s: Seq<char>) -> Result<Coordinates, GameError> {
    if s.len() == 0 || !is_ascii_letter(s[0]) {
        Err(GameError::InvalidColumn)
    } else {
        match unsigned_value(trim_end(s).drop_first()) {
            Some(v) if 1 <= v <= u32::MAX => Ok(
                Coordinates { row: (v - 1) as u32, col: letter_index(s[0]) as u32 },
            ),
            _ => Err(GameError::InvalidRow),
        }
    }
}

/// Decodes a label such as `A1` (column letter, 1-based row) into zero-based indices.
pub fn parse_coordinates(space_name: &str) -> (r: Result<Coordinates, GameError>)
    ensures
        r == parse_label(space_name@),
{
    let n = space_name.unicode_len();
    if n == 0 {
        return Err(GameError::InvalidColumn);
    }
    let c = space_name.get_char(0);
    let col: u32 = if 'A' <= c && c <= 'Z' {
        (c as u32) - ('A' as u32)
    } else if 'a' <= c && c <= 'z' {
        (c as u32) - ('a' as u32)
    } else {
        return Err(GameError::InvalidColumn);
    };
    let e = trimmed_len(space_name);
    let ghost t = trim_end(space_name@);
    // t starts with the letter, so it is not empty
    assert(t.len() >= 1) by {
        lemma_trim_keeps_head(space_name@);
    }
    let mut i: usize = 1;
    if i < e && space_name.get_char(1) == '+' {
        i = 2;
    }
    let start = i;
    let ghost d = t.subrange(start as int, t.len() as int);
    assert(t.drop_first() =~= t.subrange(1, t.len() as int));
    assert(d =~= if t.drop_first().len() > 0 && t.drop_first()[0] == '+' {
        t.drop_first().drop_first()
    } else {
        t.drop_first()
    });
    assert(d =~= space_name@.subrange(start as int, e as int));
    if start == e {
        return Err(GameError::InvalidRow);
    }
    match decimal_in(space_name, start, e) {
        Some(v) if v > 0 => Ok(Coordinates { row: v - 1, col }),
        _ => Err(GameError::InvalidRow),
    }
}

/// The number that `s[start..end]` spells, when it is made of decimal digits
/// and fits in a `u32`.
fn decimal_in(s: &str, start: usize, end: usize) -> (r: Option<u32>)
    requires
        start <= end <= s@.len(),
    ensures
        ({
            let d = s@.subrange(start as int, end as int);
            &&& r is Some <==> all_digits(d) && digits_value(d) <= u32::MAX
            &&& r is Some ==> r.unwrap() == digits_value(d)
        }),
{
    let ghost d = s@.subrange(start as int, end as int);
    let mut i: usize = start;
    let mut acc: u64 = 0;
    let mut too_big = false;
    while i < end
        invariant
            start <= i <= end <= s@.len(),
            d == s@.subrange(start as int, end as int),
            all_digits(s@.subrange(start as int, i as int)),
            !too_big ==> acc == digits_value(s@.subrange(start as int, i as int)),
            !too_big ==> acc <= u32::MAX,
            too_big ==> digits_value(s@.subrange(start as int, i as int)) > u32::MAX,
        decreases end - i,
    {
        let ch = s.get_char(i);
        if !('0' <= ch && ch <= '9') {
            assert(d[i - start] == ch);
            return None;
        }
        let ghost before = s@.subrange(start as int, i as int);
        let ghost after = s@.subrange(start as int, i + 1);
        assert(after.drop_last() =~= before);
        assert(after.last() == ch);
        if !too_big {
            acc = acc * 10 + ((ch as u64) - ('0' as u64));
            if acc > 0xffff_ffff {
                too_big = true;
            }
        }
        i = i + 1;
    }
    assert(s@.subrange(start as int, i as int) =~= d);
    if too_big {
        None
    } else {
        Some(acc as u32)
    }
}

proof fn lemma_trim_keeps_head(s: Seq<char>)
    requires
        s.len() > 0,
        !crate::text::is_space(s[0]),
    ensures
        1 <= trim_end(s).len() <= s.len(),
        trim_end(s)[0] == s[0],
        trim_end(s) == s.subrange(0, trim_end(s).len() as int),
    decreases s.len(),
{
    if s.len() > 0 && crate::text::is_space(s.last()) {
        lemma_trim_keeps_head(s.drop_last());
        assert(s.drop_last().subrange(0, trim_end(s).len() as int) =~= s.subrange(
            0,
            trim_end(s).len() as int,
        ));
    } else {
        assert(s.subrange(0, s.len() as int) =~= s);
    }
}


/// Every label made of one ASCII letter and a decimal row number from 1 to
/// `u32::MAX` decodes: the row is the number less one, the column the letter's
/// place in the alphabet.
pub proof fn lemma_valid_label_parses(c: char, digits: Seq<char>)
    requires
        is_ascii_letter(c),
        digits.len() > 0,
        all_digits(digits),
        1 <= digits_value(digits) <= u32::MAX,
    ensures
        parse_label(seq![c] + digits) == Ok::<Coordinates, GameError>(
            Coordinates { row: (digits_value(digits) - 1) as u32, col: letter_index(c) as u32 },
        ),
{
    let s = seq![c] + digits;
    assert(is_digit(digits[digits.len() - 1]));
    assert(s.last() == digits.last());
    assert(trim_end(s) == s);
    assert(s.drop_first() =~= digits);
    assert(is_digit(digits[0]));
}

} // verus!
