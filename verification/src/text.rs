//! Small operations on text that the rest of the library is stated over.

use vstd::prelude::*;
use vstd::string::*;

verus! {

/// Whether `needle` occurs in `text` as a contiguous run of characters.
pub open spec fn occurs_in(text: Seq<char>, needle: Seq<char>) -> bool {
    exists|i: int|
        0 <= i && i + needle.len() <= text.len() && #[trigger] text.subrange(
            i,
            i + needle.len(),
        ) == needle
}

/// `text` with every occurrence of `from`, found from left to right and
/// without overlap, replaced by `to`. `from` is not empty.
pub open spec fn replaced(text: Seq<char>, from: Seq<char>, to: Seq<char>) -> Seq<char>
    decreases text.len(),
{
    if from.len() == 0 || text.len() < from.len() {
        text
    } else if text.subrange(0, from.len() as int) == from {
        to + replaced(text.subrange(from.len() as int, text.len() as int), from, to)
    } else {
        seq![text[0]] + replaced(text.subrange(1, text.len() as int), from, to)
    }
}

/// Whether `prefix` stands at the start of `text`.
pub open spec fn starts_with_chars(text: Seq<char>, prefix: Seq<char>) -> bool {
    prefix.len() <= text.len() && text.subrange(0, prefix.len() as int) == prefix
}

/// `text` with every space replaced by a full stop.
pub open spec fn dotted(text: Seq<char>) -> Seq<char> {
    Seq::new(
        text.len(),
        |i: int|
            if text[i] == ' ' {
                '.'
            } else {
                text[i]
            },
    )
}

/// The characters of each string of a list.
pub open spec fn texts(v: Seq<String>) -> Seq<Seq<char>> {
    Seq::new(v.len(), |i: int| v[i]@)
}

/// The characters of an optional string.
pub open spec fn opt_chars(s: Option<String>) -> Option<Seq<char>> {
    match s {
        Some(t) => Some(t@),
        None => None,
    }
}

/// The character that stands for a digit below ten.
pub open spec fn digit_char(d: int) -> char {
    if d == 0 {
        '0'
    } else if d == 1 {
        '1'
    } else if d == 2 {
        '2'
    } else if d == 3 {
        '3'
    } else if d == 4 {
        '4'
    } else if d == 5 {
        '5'
    } else if d == 6 {
        '6'
    } else if d == 7 {
        '7'
    } else if d == 8 {
        '8'
    } else {
        '9'
    }
}

/// The decimal numeral of a natural number, without leading zeros.
pub open spec fn decimal(n: nat) -> Seq<char>
    decreases n,
{
    if n < 10 {
        seq![digit_char(n as int)]
    } else {
        decimal(n / 10).push(digit_char((n % 10) as int))
    }
}

/// `str::contains` with a string as the pattern: true exactly when the
/// needle is a substring of the text.
#[verifier::external_body]
pub(crate) fn contains(text: &str, needle: &str) -> (b: bool)
    ensures
        b == occurs_in(text@, needle@),
{
    text.contains(needle)
}

/// `str::replace` with a string as the pattern: every match of the
/// pattern, found from left to right and without overlap, is replaced.
/// The empty pattern, which matches between all characters, is left out.
#[verifier::external_body]
pub(crate) fn replace(text: &str, from: &str, to: &str) -> (r: String)
    requires
        from@.len() > 0,
    ensures
        r@ == replaced(text@, from@, to@),
{
    text.replace(from, to)
}

/// `str::starts_with` with a string as the pattern: true exactly when the
/// text begins with it.
#[verifier::external_body]
pub(crate) fn starts_with(text: &str, prefix: &str) -> (b: bool)
    ensures
        b == starts_with_chars(text@, prefix@),
{
    text.starts_with(prefix)
}

/// Replacing one character by another, one occurrence after the other,
/// changes every place that holds the first and no other.
pub proof fn lemma_replaced_one_char(text: Seq<char>, from: char, to: char)
    ensures
        replaced(text, seq![from], seq![to]) == Seq::new(
            text.len(),
            |i: int|
                if text[i] == from {
                    to
                } else {
                    text[i]
                },
        ),
    decreases text.len(),
{
    let each = Seq::new(
        text.len(),
        |i: int|
            if text[i] == from {
                to
            } else {
                text[i]
            },
    );
    if text.len() == 0 {
        assert(replaced(text, seq![from], seq![to]) =~= each);
    } else {
        let rest = text.subrange(1, text.len() as int);
        lemma_replaced_one_char(rest, from, to);
        assert(text.subrange(0, 1) =~= seq![text[0]]);
        assert(seq![text[0]] == seq![from] <==> text[0] == from) by {
            if seq![text[0]] == seq![from] {
                assert(seq![text[0]][0] == seq![from][0]);
            }
        }
        assert(replaced(text, seq![from], seq![to]) =~= each);
    }
}

/// Whether two strings hold the same characters.
pub fn same(a: &str, b: &str) -> (r: bool)
    ensures
        r == (a@ == b@),
{
    let x = String::from_str(a);
    let y = String::from_str(b);
    x == y
}

fn digit_str(d: usize) -> (s: &'static str)
    requires
        d < 10,
    ensures
        s@ == seq![digit_char(d as int)],
{
    proof {
        reveal_strlit("0");
        reveal_strlit("1");
        reveal_strlit("2");
        reveal_strlit("3");
        reveal_strlit("4");
        reveal_strlit("5");
        reveal_strlit("6");
        reveal_strlit("7");
        reveal_strlit("8");
        reveal_strlit("9");
    }
    let s = if d == 0 {
        "0"
    } else if d == 1 {
        "1"
    } else if d == 2 {
        "2"
    } else if d == 3 {
        "3"
    } else if d == 4 {
        "4"
    } else if d == 5 {
        "5"
    } else if d == 6 {
        "6"
    } else if d == 7 {
        "7"
    } else if d == 8 {
        "8"
    } else {
        "9"
    };
    assert(s@ =~= seq![digit_char(d as int)]);
    s
}

/// The decimal numeral of `n`.
pub fn to_decimal(n: usize) -> (s: String)
    ensures
        s@ == decimal(n as nat),
{
    let mut rest: usize = n / 10;
    let mut s = String::from_str(digit_str(n % 10));
    proof {
        if n >= 10 {
            assert(decimal(n as nat) == decimal((n / 10) as nat).push(digit_char((n % 10) as int)));
            assert(decimal(n as nat) =~= decimal(rest as nat) + s@);
        }
    }
    while rest > 0
        invariant
            rest == 0 ==> s@ == decimal(n as nat),
            rest > 0 ==> decimal(n as nat) == decimal(rest as nat) + s@,
        decreases rest,
    {
        let d: usize = rest % 10;
        let next: usize = rest / 10;
        let head = String::from_str(digit_str(d));
        proof {
            if rest >= 10 {
                assert(decimal(rest as nat) == decimal(next as nat).push(digit_char(d as int)));
                assert(decimal(n as nat) =~= decimal(next as nat) + (head@ + s@));
            } else {
                assert(decimal(rest as nat) == seq![digit_char(d as int)]);
                assert(decimal(n as nat) =~= head@ + s@);
            }
        }
        s = head.concat(s.as_str());
        rest = next;
    }
    s
}

} // verus!
