//! Small pieces of text: decimal numerals and separated lists.

use vstd::prelude::*;

verus! {

/// The character that stands for the digit `d`.
pub open spec fn digit_char(d: nat) -> char
    recommends
        d < 10,
{
    if d == 0 {
        '0'
    } else if d == 1 {
        '1'
    } else if d == 2 {
        '2'
    } else if d == 3 {
        '3'
    } else if d == 4 {
        '4'
    } else if d == 5 {
        '5'
    } else if d == 6 {
        '6'
    } else if d == 7 {
        '7'
    } else if d == 8 {
        '8'
    } else {
        '9'
    }
}

/// The number a digit character stands for; zero for any other character.
pub open spec fn digit_value(c: char) -> nat {
    if c == '1' {
        1
    } else if c == '2' {
        2
    } else if c == '3' {
        3
    } else if c == '4' {
        4
    } else if c == '5' {
        5
    } else if c == '6' {
        6
    } else if c == '7' {
        7
    } else if c == '8' {
        8
    } else if c == '9' {
        9
    } else {
        0
    }
}

/// Whether `c` is one of the ten digit characters.
pub open spec fn is_digit(c: char) -> bool {
    '0' <= c <= '9'
}

/// The shortest decimal numeral for `n`: most significant digit first, no sign,
/// no leading zero except for zero itself.
pub open spec fn decimal(n: nat) -> Seq<char>
    decreases n,
{
    if n < 10 {
        seq![digit_char(n)]
    } else {
        decimal(n / 10).push(digit_char(n % 10))
    }
}

/// The number that a string of digits denotes, read most significant digit
/// first. The empty string denotes zero.
pub open spec fn decimal_value(digits: Seq<char>) -> nat
    decreases digits.len(),
{
    if digits.len() == 0 {
        0
    } else {
        10 * decimal_value(digits.drop_last()) + digit_value(digits.last())
    }
}

/// Reading a numeral back gives the number it was written for, and the numeral
/// consists of digits only, with a leading zero only when it is the single
/// digit of zero.
pub proof fn lemma_decimal_round_trip(n: nat)
    ensures
        decimal_value(decimal(n)) == n,
        decimal(n).len() >= 1,
        forall|i: int| 0 <= i < decimal(n).len() ==> is_digit(#[trigger] decimal(n)[i]),
        decimal(n)[0] == '0' <==> n == 0,
    decreases n,
{
    if n < 10 {
        assert(decimal(n).drop_last() =~= Seq::<char>::empty());
        assert(decimal_value(decimal(n).drop_last()) == 0);
    } else {
        lemma_decimal_round_trip(n / 10);
        let head = decimal(n / 10);
        assert(decimal(n).drop_last() =~= head);
        assert(decimal(n).last() == digit_char(n % 10));
        assert(decimal(n)[0] == head[0]);
    }
}

/// The one-character text of a single digit.
fn digit_text(d: u32) -> (s: &'static str)
    requires
        d < 10,
    ensures
        s@ == seq![digit_char(d as nat)],
{
    proof {
        reveal_strlit("0");
        reveal_strlit("1");
        reveal_strlit("2");
        reveal_strlit("3");
        reveal_strlit("4");
        reveal_strlit("5");
        reveal_strlit("6");
        reveal_strlit("7");
        reveal_strlit("8");
        reveal_strlit("9");
    }
    let s: &'static str = if d == 0 {
        "0"
    } else if d == 1 {
        "1"
    } else if d == 2 {
        "2"
    } else if d == 3 {
        "3"
    } else if d == 4 {
        "4"
    } else if d == 5 {
        "5"
    } else if d == 6 {
        "6"
    } else if d == 7 {
        "7"
    } else if d == 8 {
        "8"
    } else {
        "9"
    };
    assert(s@ =~= seq![digit_char(d as nat)]);
    s
}

/// Writes `n` in decimal.
pub fn decimal_text(n: u32) -> (s: String)
    ensures
        s@ == decimal(n as nat),
    decreases n,
{
    if n < 10 {
        String::from_str(digit_text(n))
    } else {
        let mut s: String = decimal_text(n / 10);
        s.append(digit_text(n % 10));
        proof {
            assert(s@ =~= decimal((n / 10) as nat).push(digit_char((n % 10) as nat)));
        }
        s
    }
}

/// The texts of a sequence of strings.
pub open spec fn texts(items: Seq<String>) -> Seq<Seq<char>> {
    Seq::new(items.len(), |i: int| items[i]@)
}

/// The items one after another, with `separator` between neighbours.
pub open spec fn joined(items: Seq<Seq<char>>, separator: Seq<char>) -> Seq<char>
    decreases items.len(),
{
    if items.len() == 0 {
        Seq::empty()
    } else if items.len() == 1 {
        items[0]
    } else {
        joined(items.drop_last(), separator) + separator + items.last()
    }
}

/// Whether `part` stands somewhere in `whole`, in one piece.
pub open spec fn occurs_in(part: Seq<char>, whole: Seq<char>) -> bool {
    exists|start: int|
        0 <= start && start + part.len() <= whole.len() && #[trigger] whole.subrange(
            start,
            start + part.len(),
        ) == part
}

/// Every item of a joined list stands in it, in one piece.
pub proof fn lemma_joined_holds_each(items: Seq<Seq<char>>, separator: Seq<char>, i: int)
    requires
        0 <= i < items.len(),
    ensures
        occurs_in(items[i], joined(items, separator)),
    decreases items.len(),
{
    let whole = joined(items, separator);
    if items.len() == 1 {
        assert(whole.subrange(0, 0 + items[i].len() as int) =~= items[i]);
    } else {
        let front = joined(items.drop_last(), separator);
        if i == items.len() - 1 {
            let start: int = (front.len() + separator.len()) as int;
            assert(whole.subrange(start, start + items[i].len()) =~= items[i]);
        } else {
            lemma_joined_holds_each(items.drop_last(), separator, i);
            assert(items.drop_last()[i] == items[i]);
            let start = choose|start: int|
                0 <= start && start + items[i].len() <= front.len() && #[trigger] front.subrange(
                    start,
                    start + items[i].len(),
                ) == items[i];
            assert(whole.subrange(start, start + items[i].len()) =~= front.subrange(
                start,
                start + items[i].len(),
            ));
        }
    }
}

/// Joins texts with `separator` between neighbours.
pub fn join(items: &Vec<String>, separator: &str) -> (out: String)
    ensures
        out@ == joined(texts(items@), separator@),
{
    let mut out: String = String::new();
    let mut i: usize = 0;
    while i < items.len()
        invariant
            i <= items.len(),
            out@ == joined(texts(items@).take(i as int), separator@),
        decreases items.len() - i,
    {
        let ghost before = texts(items@).take(i as int);
        let ghost after = texts(items@).take(i + 1);
        proof {
            assert(after.drop_last() =~= before);
            assert(after.last() == items@[i as int]@);
        }
        if i > 0 {
            out.append(separator);
        }
        out.append(items[i].as_str());
        proof {
            if i == 0 {
                assert(out@ =~= items@[0]@);
            }
        }
        i += 1;
    }
    proof {
        assert(texts(items@).take(items.len() as int) =~= texts(items@));
    }
    out
}

} // verus!
