//! Small text helpers: comparison of string slices and decimal numerals.

use vstd::prelude::*;

verus! {

/// Whether two string slices hold the same characters.
pub fn same_text(a: &str, b: &str) -> (r: bool)
    ensures
        r == (a@ == b@),
{
    let left = a.to_owned();
    let right = b.to_owned();
    left == right
}

/// The character of a decimal digit.
pub open spec fn digit(d: int) -> char {
    if d == 0 {
        '0'
    } else if d == 1 {
        '1'
    } else if d == 2 {
        '2'
    } else if d == 3 {
        '3'
    } else if d == 4 {
        '4'
    } else if d == 5 {
        '5'
    } else if d == 6 {
        '6'
    } else if d == 7 {
        '7'
    } else if d == 8 {
        '8'
    } else {
        '9'
    }
}

/// The decimal numeral of a natural number, without leading zeros.
pub open spec fn digits(n: nat) -> Seq<char>
    decreases n,
{
    if n < 10 {
        seq![digit(n as int)]
    } else {
        digits(n / 10).push(digit((n % 10) as int))
    }
}

/// The decimal numeral of an integer: a minus sign before the digits of a negative one.
pub open spec fn decimal(n: int) -> Seq<char> {
    if n < 0 {
        seq!['-'] + digits((-n) as nat)
    } else {
        digits(n as nat)
    }
}

fn digit_text(d: u64) -> (r: &'static str)
    requires
        d < 10,
    ensures
        r@ == seq![digit(d as int)],
{
    proof {
        reveal_strlit("0");
        reveal_strlit("1");
        reveal_strlit("2");
        reveal_strlit("3");
        reveal_strlit("4");
        reveal_strlit("5");
        reveal_strlit("6");
        reveal_strlit("7");
        reveal_strlit("8");
        reveal_strlit("9");
    }
    let r = if d == 0 {
        "0"
    } else if d == 1 {
        "1"
    } else if d == 2 {
        "2"
    } else if d == 3 {
        "3"
    } else if d == 4 {
        "4"
    } else if d == 5 {
        "5"
    } else if d == 6 {
        "6"
    } else if d == 7 {
        "7"
    } else if d == 8 {
        "8"
    } else {
        "9"
    };
    assert(r@ =~= seq![digit(d as int)]);
    r
}

fn append_digits(out: &mut String, n: u64)
    ensures
        final(out)@ == old(out)@ + digits(n as nat),
    decreases n,
{
    if n >= 10 {
        append_digits(out, n / 10);
    }
    let d = digit_text(n % 10);
    out.append(d);
    proof {
        if n >= 10 {
            assert(final(out)@ =~= old(out)@ + digits(n as nat));
        } else {
            assert(final(out)@ =~= old(out)@ + digits(n as nat));
        }
    }
}

/// Appends the decimal numeral of `n` to `out`.
pub fn append_decimal(out: &mut String, n: i64)
    ensures
        final(out)@ == old(out)@ + decimal(n as int),
{
    if n < 0 {
        proof {
            reveal_strlit("-");
        }
        out.append("-");
        let magnitude: u64 = ((-(n + 1)) as u64) + 1;
        append_digits(out, magnitude);
        assert(final(out)@ =~= old(out)@ + decimal(n as int));
    } else {
        append_digits(out, n as u64);
    }
}

/// The decimal numeral of `n`.
pub fn decimal_text(n: i64) -> (r: String)
    ensures
        r@ == decimal(n as int),
{
    let mut out = String::new();
    append_decimal(&mut out, n);
    assert(out@ =~= decimal(n as int));
    out
}

/// The parts in order, with a comma between each two.
pub open spec fn joined(parts: Seq<Seq<char>>) -> Seq<char>
    decreases parts.len(),
{
    if parts.len() == 0 {
        Seq::empty()
    } else if parts.len() == 1 {
        parts[0]
    } else {
        joined(parts.drop_last()) + ","@ + parts.last()
    }
}

/// The parts of a list whose every part could be written, in order; else the
/// message of the first part that could not.
pub open spec fn collected(parts: Seq<Result<Seq<char>, Seq<char>>>) -> Result<
    Seq<Seq<char>>,
    Seq<char>,
>
    decreases parts.len(),
{
    if parts.len() == 0 {
        Ok(Seq::empty())
    } else {
        match collected(parts.drop_last()) {
            Err(e) => Err(e),
            Ok(done) => match parts.last() {
                Ok(part) => Ok(done.push(part)),
                Err(e) => Err(e),
            },
        }
    }
}

/// A failure among the first parts of a list is the failure of the whole list.
pub proof fn lemma_collected_fails_early(parts: Seq<Result<Seq<char>, Seq<char>>>, n: int)
    requires
        0 <= n <= parts.len(),
        collected(parts.take(n)) is Err,
    ensures
        collected(parts) == collected(parts.take(n)),
    decreases parts.len(),
{
    if n == parts.len() {
        assert(parts.take(n) =~= parts);
    } else {
        assert(parts.drop_last().take(n) =~= parts.take(n));
        lemma_collected_fails_early(parts.drop_last(), n);
    }
}

/// What a list collects to once its next part is known.
pub proof fn lemma_collected_next(parts: Seq<Result<Seq<char>, Seq<char>>>, n: int)
    requires
        0 <= n < parts.len(),
    ensures
        collected(parts.take(n + 1)) == (match collected(parts.take(n)) {
            Err(e) => Err(e),
            Ok(done) => match parts[n] {
                Ok(part) => Ok(done.push(part)),
                Err(e) => Err(e),
            },
        }),
{
    assert(parts.take(n + 1).drop_last() =~= parts.take(n));
    assert(parts.take(n + 1).last() == parts[n]);
}

/// Appends one more part to a comma-separated list of which `count` parts
/// are written already.
pub(crate) fn append_part(out: &mut String, count: usize, part: &str, Ghost(head): Ghost<Seq<char>>, Ghost(
    parts,
): Ghost<Seq<Seq<char>>>)
    requires
        count == parts.len(),
        old(out)@ == head + joined(parts),
    ensures
        final(out)@ == head + joined(parts.push(part@)),
{
    if count > 0 {
        proof {
            reveal_strlit(",");
        }
        out.append(",");
    }
    out.append(part);
    proof {
        let more = parts.push(part@);
        assert(more.drop_last() =~= parts);
        assert(more.last() == part@);
        if count == 0 {
            assert(joined(parts) =~= Seq::<char>::empty());
            assert(joined(more) =~= part@);
            assert(final(out)@ =~= head + joined(more));
        } else {
            assert(joined(more) =~= joined(parts) + ","@ + part@);
            assert(final(out)@ =~= head + joined(more));
        }
    }
}

} // verus!
