//! Identifiers as text: the name of the domain, `Id`, and the value in
//! decimal between round brackets, as in `ClientId(42)`.

use crate::domain::IdType;
use crate::id::lemma_value_round_trip;
use crate::id::Id;
use vstd::prelude::*;

verus! {

/// The character that stands for the decimal digit `d`.
pub open spec fn digit(d: nat) -> char {
    if d == 0 {
        '0'
    } else if d == 1 {
        '1'
    } else if d == 2 {
        '2'
    } else if d == 3 {
        '3'
    } else if d == 4 {
        '4'
    } else if d == 5 {
        '5'
    } else if d == 6 {
        '6'
    } else if d == 7 {
        '7'
    } else if d == 8 {
        '8'
    } else {
        '9'
    }
}

/// The decimal numeral of `n`: its digits from the most significant to the
/// least, without leading zeros, and the single digit `0` for zero.
pub open spec fn decimal(n: nat) -> Seq<char>
    decreases n,
{
    if n < 10 {
        seq![digit(n)]
    } else {
        decimal(n / 10).push(digit(n % 10))
    }
}

/// The number that the digit character `c` stands for.
pub open spec fn digit_value(c: char) -> nat {
    if c == '1' {
        1
    } else if c == '2' {
        2
    } else if c == '3' {
        3
    } else if c == '4' {
        4
    } else if c == '5' {
        5
    } else if c == '6' {
        6
    } else if c == '7' {
        7
    } else if c == '8' {
        8
    } else if c == '9' {
        9
    } else {
        0
    }
}

/// The number that the numeral `s` denotes: each digit counts ten times as
/// much as the digit after it.
pub open spec fn denoted(s: Seq<char>) -> nat
    decreases s.len(),
{
    if s.len() == 0 {
        0
    } else {
        denoted(s.drop_last()) * 10 + digit_value(s.last())
    }
}

/// The text of the identifier with the value `value` in the domain named
/// `name`.
pub open spec fn rendered(name: Seq<char>, value: u64) -> Seq<char> {
    name + seq!['I', 'd', '('] + decimal(value as nat) + seq![')']
}

/// The decimal digit `d` as a string of one character.
fn digit_str(d: u64) -> (s: &'static str)
    requires
        d < 10,
    ensures
        s@ == seq![digit(d as nat)],
{
    proof {
        reveal_strlit("0");
        reveal_strlit("1");
        reveal_strlit("2");
        reveal_strlit("3");
        reveal_strlit("4");
        reveal_strlit("5");
        reveal_strlit("6");
        reveal_strlit("7");
        reveal_strlit("8");
        reveal_strlit("9");
    }
    if d == 0 {
        "0"
    } else if d == 1 {
        "1"
    } else if d == 2 {
        "2"
    } else if d == 3 {
        "3"
    } else if d == 4 {
        "4"
    } else if d == 5 {
        "5"
    } else if d == 6 {
        "6"
    } else if d == 7 {
        "7"
    } else if d == 8 {
        "8"
    } else {
        "9"
    }
}

/// Appends the decimal numeral of `n` to `out`.
fn push_decimal(out: &mut String, n: u64)
    ensures
        final(out)@ == old(out)@ + decimal(n as nat),
    decreases n,
{
    if n >= 10 {
        push_decimal(out, n / 10);
    }
    out.append(digit_str(n % 10));
    assert(out@ =~= old(out)@ + decimal(n as nat));
}

/// The decimal numeral of `n` denotes `n`, is not empty, and starts with a
/// zero only where `n` is zero.
pub proof fn lemma_decimal_denotes(n: nat)
    ensures
        denoted(decimal(n)) == n,
        decimal(n).len() >= 1,
        n > 0 ==> decimal(n)[0] != '0',
    decreases n,
{
    if n < 10 {
        assert(decimal(n).drop_last() =~= Seq::<char>::empty());
        assert(denoted(decimal(n).drop_last()) == 0);
    } else {
        lemma_decimal_denotes(n / 10);
        assert(decimal(n).drop_last() =~= decimal(n / 10));
        assert(decimal(n)[0] == decimal(n / 10)[0]);
    }
}

/// Different numbers have different decimal numerals.
pub proof fn lemma_decimal_tells_numbers_apart(a: nat, b: nat)
    requires
        decimal(a) == decimal(b),
    ensures
        a == b,
{
    lemma_decimal_denotes(a);
    lemma_decimal_denotes(b);
}

/// Within one domain, different identifiers have different texts.
pub proof fn lemma_text_tells_identifiers_apart<T: IdType>(a: Id<T>, b: Id<T>)
    requires
        rendered(T::NAME@, a@) == rendered(T::NAME@, b@),
    ensures
        a == b,
{
    let head = T::NAME@ + seq!['I', 'd', '('];
    let da = decimal(a@ as nat);
    let db = decimal(b@ as nat);
    let ta = rendered(T::NAME@, a@);
    let tb = rendered(T::NAME@, b@);
    assert(ta.len() == head.len() + da.len() + 1);
    assert(tb.len() == head.len() + db.len() + 1);
    assert forall|i: int| 0 <= i < da.len() implies da[i] == db[i] by {
        assert(da[i] == ta[head.len() + i]);
        assert(db[i] == tb[head.len() + i]);
    }
    assert(da =~= db);
    lemma_decimal_tells_numbers_apart(a@ as nat, b@ as nat);
    lemma_value_round_trip(a);
    lemma_value_round_trip(b);
}

impl<T: IdType> Id<T> {
    /// The identifier as text: the name of its domain, then `Id`, then its
    /// value in decimal between round brackets.
    pub fn to_string(&self) -> (s: String)
        ensures
            s@ == rendered(T::NAME@, self@),
    {
        proof {
            reveal_strlit("Id(");
            reveal_strlit(")");
        }
        let mut s = String::from_str(T::NAME);
        s.append("Id(");
        push_decimal(&mut s, self.as_u64());
        s.append(")");
        assert(s@ =~= rendered(T::NAME@, self@));
        s
    }
}

} // verus!
