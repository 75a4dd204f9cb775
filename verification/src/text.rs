//! Text of numbers and error messages.
use vstd::prelude::*;
use vstd::string::*;

verus! {

/// The character of the decimal digit `d`.
pub open spec fn digit(d: int) -> char {
    ('0' as int + d) as char
}

/// The decimal digits of `n`, most significant first, without leading zeros.
pub open spec fn decimal(n: nat) -> Seq<char>
    decreases n,
{
    if n < 10 {
        seq![digit(n as int)]
    } else {
        decimal(n / 10).push(digit((n % 10) as int))
    }
}

/// The decimal text of an integer: its digits, after a `-` when it is negative.
pub open spec fn signed_decimal(n: int) -> Seq<char> {
    if n < 0 {
        seq!['-'] + decimal((-n) as nat)
    } else {
        decimal(n as nat)
    }
}

/// Whether `needle` stands in `hay` as a run of consecutive characters.
pub open spec fn occurs(hay: Seq<char>, needle: Seq<char>) -> bool {
    exists|i: int|
        0 <= i <= hay.len() - needle.len() && #[trigger] hay.subrange(i, i + needle.len())
            == needle
}

fn digit_text(d: u64) -> (r: &'static str)
    requires
        d < 10,
    ensures
        r@ == seq![digit(d as int)],
{
    proof {
        reveal_strlit("0");
        reveal_strlit("1");
        reveal_strlit("2");
        reveal_strlit("3");
        reveal_strlit("4");
        reveal_strlit("5");
        reveal_strlit("6");
        reveal_strlit("7");
        reveal_strlit("8");
        reveal_strlit("9");
    }
    match d {
        0 => "0",
        1 => "1",
        2 => "2",
        3 => "3",
        4 => "4",
        5 => "5",
        6 => "6",
        7 => "7",
        8 => "8",
        _ => "9",
    }
}

/// Appends the decimal digits of `n`.
pub fn push_decimal(out: &mut String, n: u64)
    ensures
        final(out)@ == old(out)@ + decimal(n as nat),
    decreases n,
{
    let ghost before = out@;
    if n >= 10 {
        push_decimal(out, n / 10);
    }
    out.append(digit_text(n % 10));
    proof {
        if n >= 10 {
            assert(out@ == before + decimal(n as nat));
        }
    }
}

/// Appends the decimal text of `n`.
pub fn push_signed(out: &mut String, n: i64)
    ensures
        final(out)@ == old(out)@ + signed_decimal(n as int),
{
    let ghost before = out@;
    if n < 0 {
        proof {
            reveal_strlit("-");
        }
        out.append("-");
        let magnitude: u64 = if n == i64::MIN {
            0x8000_0000_0000_0000
        } else {
            (-n) as u64
        };
        push_decimal(out, magnitude);
        assert(out@ == before + signed_decimal(n as int));
    } else {
        push_decimal(out, n as u64);
    }
}

/// `prefix` followed by `detail`.
pub fn joined(prefix: &str, detail: &str) -> (r: String)
    ensures
        r@ == prefix@ + detail@,
{
    let mut out = prefix.to_owned();
    out.append(detail);
    out
}

/// Calls `str::contains` with a string pattern, which is true exactly when the pattern is a
/// sub-slice of the text.
#[verifier::external_body]
pub(crate) fn contains(hay: &str, needle: &str) -> (r: bool)
    ensures
        r == occurs(hay@, needle@),
{
    hay.contains(needle)
}

/// The number that decimal digits stand for.
pub open spec fn number(digits: Seq<char>) -> int
    decreases digits.len(),
{
    if digits.len() == 0 {
        0
    } else {
        number(digits.drop_last()) * 10 + (digits.last() as int - 48)
    }
}

/// Whether every character is a decimal digit.
pub open spec fn all_digits(digits: Seq<char>) -> bool {
    forall|i: int| 0 <= i < digits.len() ==> 48 <= (#[trigger] digits[i]) as int <= 57
}

/// A number reads back from its digits, and only the number zero starts with the digit zero.
pub proof fn law_decimal_reads_back(n: nat)
    ensures
        number(decimal(n)) == n,
        all_digits(decimal(n)),
        decimal(n).len() > 0,
        decimal(n)[0] as int == 48 ==> n == 0,
    decreases n,
{
    let digits = decimal(n);
    if n < 10 {
        assert(number(digits.drop_last()) == 0);
        assert(digits.last() as int == 48 + n);
    } else {
        law_decimal_reads_back(n / 10);
        let front = decimal(n / 10);
        assert(digits.drop_last() == front);
        assert(digits.last() as int == 48 + n % 10);
        assert(digits[0] == front[0]);
    }
}

/// A signed number reads back from its text, which starts with a minus sign exactly when the number
/// is negative.
pub proof fn law_signed_reads_back(n: int)
    ensures
        n >= 0 ==> all_digits(signed_decimal(n)) && number(signed_decimal(n)) == n,
        n < 0 ==> signed_decimal(n)[0] == '-' && all_digits(signed_decimal(n).skip(1)) && number(
            signed_decimal(n).skip(1),
        ) == -n,
{
    if n < 0 {
        law_decimal_reads_back((-n) as nat);
        assert(signed_decimal(n).skip(1) == decimal((-n) as nat));
    } else {
        law_decimal_reads_back(n as nat);
    }
}

/// A text occurs in another exactly when the other is something, the text and something.
pub proof fn law_occurs_between(hay: Seq<char>, needle: Seq<char>)
    ensures
        occurs(hay, needle) <==> exists|front: Seq<char>, back: Seq<char>|
            hay == #[trigger] (front + needle + back),
{
    if occurs(hay, needle) {
        let i = choose|i: int|
            0 <= i <= hay.len() - needle.len() && #[trigger] hay.subrange(i, i + needle.len())
                == needle;
        let front = hay.take(i);
        let back = hay.skip(i + needle.len());
        assert(hay == front + hay.subrange(i, i + needle.len()) + back);
    }
    if exists|front: Seq<char>, back: Seq<char>| hay == #[trigger] (front + needle + back) {
        let (front, back) = choose|front: Seq<char>, back: Seq<char>|
            hay == #[trigger] (front + needle + back);
        let i = front.len() as int;
        assert(hay.subrange(i, i + needle.len()) == needle);
    }
}

} // verus!
