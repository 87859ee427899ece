//! Positional notation of natural numbers, as it appears in key expressions and
//! in status messages.
use vstd::prelude::*;

verus! {

/// The character that stands for the digit `d` of a numeral.
///
/// Digits above nine are written with letters, in upper case if `upper` is set.
pub open spec fn digit_char(d: int, upper: bool) -> char {
    if d < 10 {
        (48 + d) as char
    } else if upper {
        (55 + d) as char
    } else {
        (87 + d) as char
    }
}

/// The numeral of `n` in the given base, most significant digit first and without
/// leading zeros.
pub open spec fn numeral(n: nat, base: nat, upper: bool) -> Seq<char>
    decreases n,
{
    if base < 2 || n < base {
        seq![digit_char(n as int, upper)]
    } else {
        proof {
            assert(n / base < n) by (nonlinear_arith)
                requires
                    n >= base,
                    base >= 2,
            ;
        }
        numeral(n / base, base, upper).push(digit_char((n % base) as int, upper))
    }
}

/// Writes a single digit.
fn digit_text(d: u64, upper: bool) -> (text: &'static str)
    requires
        d < 16,
    ensures
        text@ == seq![digit_char(d as int, upper)],
{
    proof {
        reveal_strlit("0");
        reveal_strlit("1");
        reveal_strlit("2");
        reveal_strlit("3");
        reveal_strlit("4");
        reveal_strlit("5");
        reveal_strlit("6");
        reveal_strlit("7");
        reveal_strlit("8");
        reveal_strlit("9");
        reveal_strlit("A");
        reveal_strlit("B");
        reveal_strlit("C");
        reveal_strlit("D");
        reveal_strlit("E");
        reveal_strlit("F");
        reveal_strlit("a");
        reveal_strlit("b");
        reveal_strlit("c");
        reveal_strlit("d");
        reveal_strlit("e");
        reveal_strlit("f");
    }
    if d == 0 {
        "0"
    } else if d == 1 {
        "1"
    } else if d == 2 {
        "2"
    } else if d == 3 {
        "3"
    } else if d == 4 {
        "4"
    } else if d == 5 {
        "5"
    } else if d == 6 {
        "6"
    } else if d == 7 {
        "7"
    } else if d == 8 {
        "8"
    } else if d == 9 {
        "9"
    } else if upper {
        if d == 10 {
            "A"
        } else if d == 11 {
            "B"
        } else if d == 12 {
            "C"
        } else if d == 13 {
            "D"
        } else if d == 14 {
            "E"
        } else {
            "F"
        }
    } else if d == 10 {
        "a"
    } else if d == 11 {
        "b"
    } else if d == 12 {
        "c"
    } else if d == 13 {
        "d"
    } else if d == 14 {
        "e"
    } else {
        "f"
    }
}

/// Writes `n` in the given base.
pub fn to_numeral(n: u64, base: u64, upper: bool) -> (text: String)
    requires
        2 <= base <= 16,
    ensures
        text@ == numeral(n as nat, base as nat, upper),
    decreases n,
{
    if n < base {
        digit_text(n, upper).to_string()
    } else {
        assert(n / base < n) by (nonlinear_arith)
            requires
                n >= base,
                base >= 2,
        ;
        assert(n % base < base) by (nonlinear_arith)
            requires
                base >= 2,
        ;
        let mut text = to_numeral(n / base, base, upper);
        text.append(digit_text(n % base, upper));
        assert(text@ =~= numeral(n as nat, base as nat, upper));
        text
    }
}

/// Joins two pieces of text.
pub fn join(prefix: &str, rest: &str) -> (text: String)
    ensures
        text@ == prefix@ + rest@,
{
    let mut text = prefix.to_string();
    text.append(rest);
    text
}

proof fn lemma_digit_char_injective(a: int, b: int, upper: bool)
    requires
        0 <= a < 16,
        0 <= b < 16,
        digit_char(a, upper) == digit_char(b, upper),
    ensures
        a == b,
{
}

proof fn lemma_numeral_nonempty(n: nat, base: nat, upper: bool)
    ensures
        numeral(n, base, upper).len() > 0,
    decreases n,
{
}

/// Different numbers have different numerals.
pub proof fn law_numeral_injective(m: nat, n: nat, base: nat, upper: bool)
    requires
        2 <= base <= 16,
        numeral(m, base, upper) == numeral(n, base, upper),
    ensures
        m == n,
    decreases m,
{
    let s = numeral(m, base, upper);
    let t = numeral(n, base, upper);
    if m < base && n < base {
        assert(s[0] == digit_char(m as int, upper));
        assert(t[0] == digit_char(n as int, upper));
        lemma_digit_char_injective(m as int, n as int, upper);
    } else if m < base {
        lemma_division(n, base);
        lemma_numeral_nonempty(n / base, base, upper);
        assert(s.len() == 1);
        assert(t.len() > 1);
    } else if n < base {
        lemma_division(m, base);
        lemma_numeral_nonempty(m / base, base, upper);
        assert(t.len() == 1);
        assert(s.len() > 1);
    } else {
        lemma_division(m, base);
        lemma_division(n, base);
        assert(s.last() == digit_char((m % base) as int, upper));
        assert(t.last() == digit_char((n % base) as int, upper));
        assert(s.drop_last() =~= numeral(m / base, base, upper));
        assert(t.drop_last() =~= numeral(n / base, base, upper));
        lemma_digit_char_injective((m % base) as int, (n % base) as int, upper);
        law_numeral_injective(m / base, n / base, base, upper);
    }
}

proof fn lemma_division(n: nat, base: nat)
    requires
        n >= base >= 2,
    ensures
        n / base < n,
        n % base < base,
        n == base * (n / base) + n % base,
{
    assert(n / base < n) by (nonlinear_arith)
        requires
            n >= base,
            base >= 2,
    ;
    vstd::arithmetic::div_mod::lemma_fundamental_div_mod(n as int, base as int);
    vstd::arithmetic::div_mod::lemma_mod_bound(n as int, base as int);
}

/// A numeral holds digits only: no separator and no wildcard.
pub proof fn law_numeral_chars(n: nat, base: nat, upper: bool)
    requires
        2 <= base <= 16,
    ensures
        numeral(n, base, upper).len() > 0,
        forall|i: int|
            0 <= i < numeral(n, base, upper).len() ==> (#[trigger] numeral(n, base, upper)[i]) != '/'
                && numeral(n, base, upper)[i] != '*' && numeral(n, base, upper)[i] != '{',
    decreases n,
{
    if n >= base {
        lemma_division(n, base);
        law_numeral_chars(n / base, base, upper);
    }
}

/// The digits are written `0` to `9` and `A` to `F`, or `a` to `f` in lower case.
pub proof fn law_digits_are_written_as_usual(upper: bool)
    ensures
        digit_char(0, upper) == '0',
        digit_char(1, upper) == '1',
        digit_char(2, upper) == '2',
        digit_char(3, upper) == '3',
        digit_char(4, upper) == '4',
        digit_char(5, upper) == '5',
        digit_char(6, upper) == '6',
        digit_char(7, upper) == '7',
        digit_char(8, upper) == '8',
        digit_char(9, upper) == '9',
        digit_char(10, true) == 'A' && digit_char(10, false) == 'a',
        digit_char(11, true) == 'B' && digit_char(11, false) == 'b',
        digit_char(12, true) == 'C' && digit_char(12, false) == 'c',
        digit_char(13, true) == 'D' && digit_char(13, false) == 'd',
        digit_char(14, true) == 'E' && digit_char(14, false) == 'e',
        digit_char(15, true) == 'F' && digit_char(15, false) == 'f',
{
}

/// What a digit is worth.
pub open spec fn digit_value(c: char) -> int {
    if '0' <= c <= '9' {
        c as int - '0' as int
    } else if 'A' <= c <= 'F' {
        c as int - 'A' as int + 10
    } else {
        c as int - 'a' as int + 10
    }
}

/// The number that a numeral stands for in a base.
pub open spec fn numeral_value(numeral: Seq<char>, base: nat) -> int
    decreases numeral.len(),
{
    if numeral.len() == 0 {
        0
    } else {
        numeral_value(numeral.drop_last(), base) * base + digit_value(numeral.last())
    }
}

/// To read a numeral gives back the number that was written. It has no leading zeros.
pub proof fn law_numeral_reads_back(n: nat, base: nat, upper: bool)
    requires
        2 <= base <= 16,
    ensures
        numeral_value(numeral(n, base, upper), base) == n,
        n > 0 ==> numeral(n, base, upper)[0] != '0',
        n < base ==> numeral(n, base, upper).len() == 1,
    decreases n,
{
    let s = numeral(n, base, upper);
    if n < base {
        assert(s.drop_last() =~= Seq::<char>::empty());
        assert(numeral_value(s.drop_last(), base) == 0);
        assert(0 * base == 0);
    } else {
        lemma_division(n, base);
        law_numeral_reads_back(n / base, base, upper);
        lemma_numeral_nonempty(n / base, base, upper);
        assert(s.drop_last() =~= numeral(n / base, base, upper));
        assert(n / base > 0) by (nonlinear_arith)
            requires
                n >= base,
                base >= 2,
        ;
        assert((n / base) * base == base * (n / base)) by (nonlinear_arith);
        assert(s[0] == numeral(n / base, base, upper)[0]);
    }
}

} // verus!
