//! Text building blocks shared by the message formatters: decimal rendering
//! of unsigned integers and joining of string lists.

use vstd::prelude::*;

verus! {

/// The character that stands for the decimal digit `d`.
pub open spec fn digit_char(d: nat) -> char {
    if d == 0 {
        '0'
    } else if d == 1 {
        '1'
    } else if d == 2 {
        '2'
    } else if d == 3 {
        '3'
    } else if d == 4 {
        '4'
    } else if d == 5 {
        '5'
    } else if d == 6 {
        '6'
    } else if d == 7 {
        '7'
    } else if d == 8 {
        '8'
    } else {
        '9'
    }
}

/// The decimal numeral of `n`, most significant digit first, without
/// leading zeros (`0` is written "0").
pub open spec fn decimal(n: nat) -> Seq<char>
    decreases n,
{
    if n < 10 {
        seq![digit_char(n)]
    } else {
        decimal(n / 10).push(digit_char(n % 10))
    }
}

/// The decimal numeral of `n`, with a minus sign before it where `n` is
/// negative.
pub open spec fn signed_decimal(n: int) -> Seq<char> {
    if n < 0 {
        "-"@ + decimal((-n) as nat)
    } else {
        decimal(n as nat)
    }
}

/// The numeral of `n` in two digits; `n` is below 100.
pub open spec fn two_digits(n: nat) -> Seq<char> {
    seq![digit_char(n / 10), digit_char(n % 10)]
}

/// `parts` joined with `sep` between neighbours.
pub open spec fn joined(parts: Seq<Seq<char>>, sep: Seq<char>) -> Seq<char>
    decreases parts.len(),
{
    if parts.len() == 0 {
        Seq::empty()
    } else if parts.len() == 1 {
        parts[0]
    } else {
        joined(parts.drop_last(), sep) + sep + parts.last()
    }
}

/// The pieces that the occurrences of `sep` part `s` into; a text without
/// `sep` is one piece.
pub open spec fn pieces(s: Seq<char>, sep: char) -> Seq<Seq<char>>
    decreases s.len(),
{
    if s.len() == 0 {
        seq![Seq::empty()]
    } else {
        let earlier = pieces(s.drop_last(), sep);
        if s.last() == sep {
            earlier.push(Seq::empty())
        } else {
            earlier.drop_last().push(earlier.last().push(s.last()))
        }
    }
}

/// `line` without a carriage return at its end.
pub open spec fn without_return(line: Seq<char>) -> Seq<char> {
    if line.len() > 0 && line.last() == '\r' {
        line.drop_last()
    } else {
        line
    }
}

/// Each of `lines` without a carriage return at its end.
pub open spec fn without_returns(lines: Seq<Seq<char>>) -> Seq<Seq<char>> {
    Seq::new(lines.len(), |i: int| without_return(lines[i]))
}

/// The lines of `s`. A line ends with a line feed, or with a carriage
/// return and a line feed; neither belongs to the line. What follows the
/// last line feed is a line too, unless it is empty.
pub open spec fn lines(s: Seq<char>) -> Seq<Seq<char>> {
    let parts = pieces(s, '\n');
    let ended = without_returns(parts.drop_last());
    if parts.last().len() > 0 {
        ended.push(parts.last())
    } else {
        ended
    }
}

/// The numeral of a single decimal digit.
pub fn digit_str(d: u8) -> (r: &'static str)
    requires
        d < 10,
    ensures
        r@ == seq![digit_char(d as nat)],
{
    proof {
        reveal_strlit("0");
        reveal_strlit("1");
        reveal_strlit("2");
        reveal_strlit("3");
        reveal_strlit("4");
        reveal_strlit("5");
        reveal_strlit("6");
        reveal_strlit("7");
        reveal_strlit("8");
        reveal_strlit("9");
    }
    let r = if d == 0 {
        "0"
    } else if d == 1 {
        "1"
    } else if d == 2 {
        "2"
    } else if d == 3 {
        "3"
    } else if d == 4 {
        "4"
    } else if d == 5 {
        "5"
    } else if d == 6 {
        "6"
    } else if d == 7 {
        "7"
    } else if d == 8 {
        "8"
    } else {
        "9"
    };
    assert(r@ =~= seq![digit_char(d as nat)]);
    r
}

/// Renders `n` in decimal.
pub fn u128_to_decimal(n: u128) -> (s: String)
    ensures
        s@ == decimal(n as nat),
    decreases n,
{
    if n < 10 {
        String::from_str(digit_str(n as u8))
    } else {
        let mut s = u128_to_decimal(n / 10);
        s.append(digit_str((n % 10) as u8));
        s
    }
}

/// Renders `n` in decimal.
pub fn u64_to_decimal(n: u64) -> (s: String)
    ensures
        s@ == decimal(n as nat),
{
    u128_to_decimal(n as u128)
}

/// Renders `n` in decimal, with a minus sign where it is negative.
pub fn i64_to_decimal(n: i64) -> (s: String)
    ensures
        s@ == signed_decimal(n as int),
{
    if n < 0 {
        let magnitude: u64 = if n == i64::MIN {
            0x8000_0000_0000_0000
        } else {
            (-n) as u64
        };
        let digits = u64_to_decimal(magnitude);
        let mut s = String::from_str("-");
        s.append(digits.as_str());
        s
    } else {
        u64_to_decimal(n as u64)
    }
}

/// Renders `n`, which is below 100, in two digits.
pub fn two_digit_str(n: u8) -> (s: String)
    requires
        n < 100,
    ensures
        s@ == two_digits(n as nat),
{
    let mut s = String::from_str(digit_str(n / 10));
    s.append(digit_str(n % 10));
    assert(s@ =~= two_digits(n as nat));
    s
}

/// Joins `parts` with `sep` between neighbours.
pub fn join(parts: &Vec<String>, sep: &str) -> (s: String)
    ensures
        s@ == joined(parts.deep_view(), sep@),
{
    let mut s = String::new();
    let mut i: usize = 0;
    while i < parts.len()
        invariant
            i <= parts.len(),
            s@ == joined(parts.deep_view().take(i as int), sep@),
        decreases parts.len() - i,
    {
        proof {
            let before = parts.deep_view().take(i as int);
            let after = parts.deep_view().take(i + 1);
            assert(after.drop_last() =~= before);
            assert(after.last() == parts[i as int]@);
        }
        if i > 0 {
            s.append(sep);
        }
        s.append(parts[i].as_str());
        i = i + 1;
    }
    proof {
        assert(parts.deep_view().take(parts.len() as int) =~= parts.deep_view());
    }
    s
}

/// Parts `text` at the occurrences of `sep`.
pub fn split(text: &str, sep: char) -> (r: Vec<String>)
    ensures
        r.deep_view() == pieces(text@, sep),
        r.len() >= 1,
{
    let n = text.unicode_len();
    let mut parts: Vec<String> = Vec::new();
    let mut piece_start: usize = 0;
    let mut i: usize = 0;
    assert(text@.take(0) =~= Seq::empty());
    assert(text@.subrange(0, 0) =~= Seq::empty());
    assert(parts.deep_view().push(Seq::empty()) =~= seq![Seq::<char>::empty()]);
    while i < n
        invariant
            piece_start <= i <= n,
            n == text@.len(),
            pieces(text@.take(i as int), sep) == parts.deep_view().push(
                text@.subrange(piece_start as int, i as int),
            ),
        decreases n - i,
    {
        let ghost before = parts.deep_view();
        let ghost current = text@.subrange(piece_start as int, i as int);
        proof {
            assert(text@.take(i + 1).drop_last() =~= text@.take(i as int));
            assert(text@.take(i + 1).last() == text@[i as int]);
            assert(before.push(current).drop_last() =~= before);
            assert(before.push(current).last() == current);
        }
        if text.get_char(i) == sep {
            parts.push(String::from_str(text.substring_char(piece_start, i)));
            piece_start = i + 1;
            assert(parts.deep_view() =~= before.push(current));
            assert(text@.subrange(piece_start as int, i + 1) =~= Seq::empty());
        } else {
            assert(text@.subrange(piece_start as int, i + 1) =~= current.push(text@[i as int]));
        }
        i = i + 1;
    }
    let ghost before = parts.deep_view();
    parts.push(String::from_str(text.substring_char(piece_start, n)));
    assert(text@.take(n as int) =~= text@);
    assert(parts.deep_view() =~= before.push(text@.subrange(piece_start as int, n as int)));
    parts
}

/// The lines of `text`, without their line endings.
pub fn split_lines(text: &str) -> (r: Vec<String>)
    ensures
        r.deep_view() == lines(text@),
{
    let parts = split(text, '\n');
    let ghost all = parts.deep_view();
    let last = parts.len() - 1;
    let mut out: Vec<String> = Vec::new();
    let mut i: usize = 0;
    while i < last
        invariant
            i <= last,
            last == parts.len() - 1,
            all == parts.deep_view(),
            out.deep_view() == without_returns(all.drop_last()).take(i as int),
        decreases last - i,
    {
        let ghost before = out.deep_view();
        let line = parts[i].as_str();
        let n = line.unicode_len();
        let kept = if n > 0 && line.get_char(n - 1) == '\r' {
            line.substring_char(0, n - 1)
        } else {
            line
        };
        proof {
            assert(all.drop_last()[i as int] == line@);
            assert(line@.subrange(0, n - 1) =~= line@.drop_last());
            assert(kept@ == without_return(line@));
        }
        out.push(String::from_str(kept));
        assert(out.deep_view() =~= before.push(kept@));
        assert(out.deep_view() =~= without_returns(all.drop_last()).take(i + 1));
        i = i + 1;
    }
    assert(without_returns(all.drop_last()).take(last as int) =~= without_returns(
        all.drop_last(),
    ));
    if parts[last].as_str().unicode_len() > 0 {
        let ghost before = out.deep_view();
        out.push(String::from_str(parts[last].as_str()));
        assert(out.deep_view() =~= before.push(all.last()));
    }
    out
}

} // verus!
