//! Display names of tickets: the shared base followed by the ticket's number
//! in decimal, with nothing in between.

use vstd::prelude::*;
use crate::constants::NAME;

verus! {

/// The character that stands for a digit below ten.
pub open spec fn digit_char(d: nat) -> char {
    if d == 0 {
        '0'
    } else if d == 1 {
        '1'
    } else if d == 2 {
        '2'
    } else if d == 3 {
        '3'
    } else if d == 4 {
        '4'
    } else if d == 5 {
        '5'
    } else if d == 6 {
        '6'
    } else if d == 7 {
        '7'
    } else if d == 8 {
        '8'
    } else {
        '9'
    }
}

/// The decimal numeral of `n`: no sign, no leading zero, `"0"` for zero.
pub open spec fn decimal(n: nat) -> Seq<char>
    decreases n,
{
    if n < 10 {
        seq![digit_char(n)]
    } else {
        decimal(n / 10).push(digit_char(n % 10))
    }
}

/// The display name of the ticket with the given number.
pub open spec fn ticket_name_of(number: u64) -> Seq<char> {
    NAME@ + decimal(number as nat)
}

/// A name as it reads once the padding it was stored with is taken away:
/// every character but the NUL characters, in order.
pub open spec fn without_nul(name: Seq<char>) -> Seq<char> {
    name.filter(|c: char| c != '\0')
}

/// A numeral has at least one digit.
pub proof fn lemma_decimal_is_not_empty(n: nat)
    ensures
        decimal(n).len() >= 1,
        n >= 10 ==> decimal(n).len() >= 2,
    decreases n,
{
    if n >= 10 {
        lemma_decimal_is_not_empty(n / 10);
    }
}

/// Different numbers have different numerals.
pub proof fn lemma_decimal_is_injective(a: nat, b: nat)
    requires
        decimal(a) == decimal(b),
    ensures
        a == b,
    decreases a,
{
    lemma_decimal_is_not_empty(a);
    lemma_decimal_is_not_empty(b);
    if a < 10 && b < 10 {
        assert(decimal(a)[0] == digit_char(a));
        assert(decimal(b)[0] == digit_char(b));
    } else if a >= 10 && b >= 10 {
        let upper_a = decimal(a / 10);
        let upper_b = decimal(b / 10);
        assert(decimal(a).last() == digit_char(a % 10));
        assert(decimal(b).last() == digit_char(b % 10));
        assert(decimal(a).drop_last() =~= upper_a);
        assert(decimal(b).drop_last() =~= upper_b);
        lemma_decimal_is_injective(a / 10, b / 10);
        assert(a % 10 == b % 10);
    }
}

/// Tickets with different numbers have different display names: the name
/// alone tells which ticket it is.
pub proof fn lemma_ticket_names_differ(a: u64, b: u64)
    requires
        a != b,
    ensures
        ticket_name_of(a) != ticket_name_of(b),
{
    if ticket_name_of(a) == ticket_name_of(b) {
        let base = NAME@;
        assert(decimal(a as nat) =~= ticket_name_of(a).subrange(
            base.len() as int,
            ticket_name_of(a).len() as int,
        ));
        assert(decimal(b as nat) =~= ticket_name_of(b).subrange(
            base.len() as int,
            ticket_name_of(b).len() as int,
        ));
        lemma_decimal_is_injective(a as nat, b as nat);
    }
}

fn digit_str(d: u64) -> (s: &'static str)
    requires
        d < 10,
    ensures
        s@ == seq![digit_char(d as nat)],
{
    proof {
        reveal_strlit("0");
        reveal_strlit("1");
        reveal_strlit("2");
        reveal_strlit("3");
        reveal_strlit("4");
        reveal_strlit("5");
        reveal_strlit("6");
        reveal_strlit("7");
        reveal_strlit("8");
        reveal_strlit("9");
    }
    let s = if d == 0 {
        "0"
    } else if d == 1 {
        "1"
    } else if d == 2 {
        "2"
    } else if d == 3 {
        "3"
    } else if d == 4 {
        "4"
    } else if d == 5 {
        "5"
    } else if d == 6 {
        "6"
    } else if d == 7 {
        "7"
    } else if d == 8 {
        "8"
    } else {
        "9"
    };
    assert(s@ =~= seq![digit_char(d as nat)]);
    s
}

/// Appends the decimal numeral of `n` to `text`.
pub fn append_decimal(text: &mut String, n: u64)
    ensures
        final(text)@ == old(text)@ + decimal(n as nat),
    decreases n,
{
    if n >= 10 {
        append_decimal(text, n / 10);
    }
    text.append(digit_str(n % 10));
    assert(text@ =~= old(text)@ + decimal(n as nat));
}

/// Builds the display name of the ticket with the given number.
pub fn ticket_name(number: u64) -> (name: String)
    ensures
        name@ == ticket_name_of(number),
{
    let mut name = String::from_str(NAME);
    append_decimal(&mut name, number);
    name
}

/// Removes the NUL characters that pad a stored name.
pub fn strip_nul(name: &str) -> (stripped: String)
    ensures
        stripped@ == without_nul(name@),
{
    let len = name.unicode_len();
    let mut stripped = String::new();
    let mut i: usize = 0;
    proof {
        reveal(Seq::filter);
        assert(name@.subrange(0, 0) =~= Seq::<char>::empty());
    }
    while i < len
        invariant
            len == name@.len(),
            i <= len,
            stripped@ == without_nul(name@.subrange(0, i as int)),
        decreases len - i,
    {
        let c = name.get_char(i);
        proof {
            reveal(Seq::filter);
            let longer = name@.subrange(0, i + 1);
            assert(longer.drop_last() =~= name@.subrange(0, i as int));
            assert(longer.last() == c);
        }
        if c != '\0' {
            let piece = name.substring_char(i, i + 1);
            assert(piece@ =~= seq![c]);
            stripped.append(piece);
            assert(stripped@ =~= without_nul(name@.subrange(0, i + 1)));
        }
        i += 1;
    }
    assert(name@.subrange(0, len as int) =~= name@);
    stripped
}

} // verus!
