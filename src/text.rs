use vstd::prelude::*;

verus! {

/// The characters that Unicode marks `White_Space`.
pub open spec fn is_space(c: char) -> bool {
    ('\t' <= c && c <= '\r') || c == ' ' || c == '\u{85}' || c == '\u{a0}' || c == '\u{1680}'
        || ('\u{2000}' <= c && c <= '\u{200a}') || c == '\u{2028}' || c == '\u{2029}'
        || c == '\u{202f}' || c == '\u{205f}' || c == '\u{3000}'
}

pub fn is_space_char(c: char) -> (r: bool)
    ensures
        r == is_space(c),
{
    ('\t' <= c && c <= '\r') || c == ' ' || c == '\u{85}' || c == '\u{a0}' || c == '\u{1680}'
        || ('\u{2000}' <= c && c <= '\u{200a}') || c == '\u{2028}' || c == '\u{2029}'
        || c == '\u{202f}' || c == '\u{205f}' || c == '\u{3000}'
}

/// `s` without its trailing white space.
pub open spec fn trim_end(s: Seq<char>) -> Seq<char>
    decreases s.len(),
{
    if s.len() > 0 && is_space(s.last()) {
        trim_end(s.drop_last())
    } else {
        s
    }
}

pub open spec fn is_digit(c: char) -> bool {
    '0' <= c && c <= '9'
}

pub open spec fn all_digits(d: Seq<char>) -> bool {
    forall|i: int| 0 <= i < d.len() ==> is_digit(#[trigger] d[i])
}

/// The number that a string of decimal digits spells.
pub open spec fn digits_value(d: Seq<char>) -> nat
    decreases d.len(),
{
    if d.len() == 0 {
        0
    } else {
        digits_value(d.drop_last()) * 10 + (d.last() as nat - '0' as nat) as nat
    }
}

/// The unsigned number that `t` spells: an optional `+`, then one or more decimal digits.
pub open spec fn unsigned_value(t: Seq<char>) -> Option<nat> {
    let d = if t.len() > 0 && t[0] == '+' {
        t.drop_first()
    } else {
        t
    };
    if d.len() > 0 && all_digits(d) {
        Some(digits_value(d))
    } else {
        None
    }
}

/// Length of `s` once its trailing white space is cut.
pub fn trimmed_len(s: &str) -> (r: usize)
    ensures
        r <= s@.len(),
        trim_end(s@) == s@.subrange(0, r as int),
{
    let mut e: usize = s.unicode_len();
    assert(s@.subrange(0, e as int) =~= s@);
    while e > 0 && is_space_char(s.get_char(e - 1))
        invariant
            e <= s@.len(),
            trim_end(s@) == trim_end(s@.subrange(0, e as int)),
        decreases e,
    {
        assert(s@.subrange(0, e as int).drop_last() =~= s@.subrange(0, e - 1));
        e = e - 1;
    }
    e
}


/// The white-space separated words of `s`, read from left to right.
pub open spec fn words(s: Seq<char>) -> Seq<Seq<char>>
    decreases s.len(),
{
    if s.len() == 0 {
        Seq::empty()
    } else {
        let p = s.drop_last();
        let c = s.last();
        if is_space(c) {
            words(p)
        } else if p.len() > 0 && !is_space(p.last()) {
            let w = words(p);
            w.update(w.len() - 1, w.last().push(c))
        } else {
            words(p).push(seq![c])
        }
    }
}

/// Splits `line` into its white-space separated words.
pub fn split_words(line: &str) -> (r: Vec<String>)
    ensures
        r@.map_values(|w: String| w@) == words(line@),
{
    let n = line.unicode_len();
    let mut v: Vec<String> = Vec::new();
    let mut start: usize = 0;
    let mut in_word = false;
    let mut i: usize = 0;
    while i < n
        invariant
            n == line@.len(),
            start <= i <= n,
            in_word ==> start < i,
            in_word ==> forall|k: int| start <= k < i ==> !is_space(#[trigger] line@[k]),
            in_word ==> (start == 0 || is_space(line@[start - 1])),
            !in_word ==> (i == 0 || is_space(line@[i - 1])),
            in_word ==> words(line@.subrange(0, i as int)) == v@.map_values(|w: String| w@).push(
                line@.subrange(start as int, i as int),
            ),
            !in_word ==> words(line@.subrange(0, i as int)) == v@.map_values(|w: String| w@),
        decreases n - i,
    {
        let c = line.get_char(i);
        let ghost p = line@.subrange(0, i as int);
        let ghost q = line@.subrange(0, i + 1);
        assert(q.drop_last() =~= p);
        assert(q.last() == c);
        if is_space_char(c) {
            if in_word {
                let ghost old_v = v@;
                let w = String::from_str(line.substring_char(start, i));
                v.push(w);
                assert(v@.map_values(|w: String| w@) =~= old_v.map_values(|w: String| w@).push(
                    line@.subrange(start as int, i as int),
                ));
                in_word = false;
            }
        } else if in_word {
            assert(p.last() == line@[i - 1]);
            assert(line@.subrange(start as int, i as int).push(c) =~= line@.subrange(
                start as int,
                i + 1,
            ));
        } else {
            start = i;
            in_word = true;
            assert(line@.subrange(start as int, i + 1) =~= seq![c]);
        }
        i = i + 1;
    }
    if in_word {
        let ghost old_v = v@;
        let w = String::from_str(line.substring_char(start, n));
        v.push(w);
        assert(v@.map_values(|w: String| w@) =~= old_v.map_values(|w: String| w@).push(
            line@.subrange(start as int, n as int),
        ));
    }
    assert(line@.subrange(0, n as int) =~= line@);
    v
}

} // verus!
