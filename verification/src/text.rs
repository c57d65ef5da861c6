//! Text utilities: decimal and hexadecimal rendering of integers, and
//! lexicographic comparison of strings, used for identifier generation and
//! for the ordered scans of the ledger store.

use vstd::prelude::*;

verus! {

/// The character for a single decimal digit value.
pub open spec fn digit_char(d: int) -> char
    recommends
        0 <= d < 10,
{
    if d == 0 {
        '0'
    } else if d == 1 {
        '1'
    } else if d == 2 {
        '2'
    } else if d == 3 {
        '3'
    } else if d == 4 {
        '4'
    } else if d == 5 {
        '5'
    } else if d == 6 {
        '6'
    } else if d == 7 {
        '7'
    } else if d == 8 {
        '8'
    } else {
        '9'
    }
}

/// The decimal rendering of a natural number, most significant digit first.
pub open spec fn dec_of(n: nat) -> Seq<char>
    decreases n,
{
    if n < 10 {
        seq![digit_char(n as int)]
    } else {
        dec_of(n / 10) + seq![digit_char((n % 10) as int)]
    }
}

fn digit_str(d: u128) -> (r: &'static str)
    requires
        d < 10,
    ensures
        r@ =~= seq![digit_char(d as int)],
{
    proof {
        reveal_strlit("0");
        reveal_strlit("1");
        reveal_strlit("2");
        reveal_strlit("3");
        reveal_strlit("4");
        reveal_strlit("5");
        reveal_strlit("6");
        reveal_strlit("7");
        reveal_strlit("8");
        reveal_strlit("9");
    }
    if d == 0 {
        "0"
    } else if d == 1 {
        "1"
    } else if d == 2 {
        "2"
    } else if d == 3 {
        "3"
    } else if d == 4 {
        "4"
    } else if d == 5 {
        "5"
    } else if d == 6 {
        "6"
    } else if d == 7 {
        "7"
    } else if d == 8 {
        "8"
    } else {
        "9"
    }
}

/// Decimal rendering of a `u128` amount.
pub fn dec_u128(n: u128) -> (s: String)
    ensures
        s@ == dec_of(n as nat),
    decreases n,
{
    if n < 10 {
        String::from_str(digit_str(n))
    } else {
        let mut s = dec_u128(n / 10);
        s.append(digit_str(n % 10));
        proof {
            assert(s@ =~= dec_of(n as nat));
        }
        s
    }
}

/// Decimal rendering of a `u64` counter or timestamp.
pub fn dec_u64(n: u64) -> (s: String)
    ensures
        s@ == dec_of(n as nat),
{
    let s = dec_u128(n as u128);
    s
}

/// The character for a single hexadecimal digit value.
pub open spec fn hex_char(d: int) -> char
    recommends
        0 <= d < 16,
{
    if d < 10 {
        digit_char(d)
    } else if d == 10 {
        'a'
    } else if d == 11 {
        'b'
    } else if d == 12 {
        'c'
    } else if d == 13 {
        'd'
    } else if d == 14 {
        'e'
    } else {
        'f'
    }
}

/// The lower-case hexadecimal rendering of a natural number.
pub open spec fn hex_of(n: nat) -> Seq<char>
    decreases n,
{
    if n < 16 {
        seq![hex_char(n as int)]
    } else {
        hex_of(n / 16) + seq![hex_char((n % 16) as int)]
    }
}

fn hex_digit_str(d: u64) -> (r: &'static str)
    requires
        d < 16,
    ensures
        r@ =~= seq![hex_char(d as int)],
{
    proof {
        reveal_strlit("a");
        reveal_strlit("b");
        reveal_strlit("c");
        reveal_strlit("d");
        reveal_strlit("e");
        reveal_strlit("f");
    }
    if d < 10 {
        digit_str(d as u128)
    } else if d == 10 {
        "a"
    } else if d == 11 {
        "b"
    } else if d == 12 {
        "c"
    } else if d == 13 {
        "d"
    } else if d == 14 {
        "e"
    } else {
        "f"
    }
}

/// Hexadecimal rendering of a `u64`.
pub fn hex_u64(n: u64) -> (s: String)
    ensures
        s@ == hex_of(n as nat),
    decreases n,
{
    if n < 16 {
        String::from_str(hex_digit_str(n))
    } else {
        let mut s = hex_u64(n / 16);
        s.append(hex_digit_str(n % 16));
        proof {
            assert(s@ =~= hex_of(n as nat));
        }
        s
    }
}

/// A hexadecimal rendering holds at least one character.
pub proof fn lemma_hex_of_nonempty(n: nat)
    ensures
        hex_of(n).len() >= 1,
    decreases n,
{
    if n >= 16 {
        lemma_hex_of_nonempty(n / 16);
    }
}

/// Whether a character is a decimal digit.
pub open spec fn is_dec_digit(c: char) -> bool {
    48 <= (c as u32) <= 57
}

/// Every character of a decimal rendering is a digit.
pub proof fn lemma_dec_of_digits(n: nat)
    ensures
        forall|i: int| 0 <= i < dec_of(n).len() ==> is_dec_digit(#[trigger] dec_of(n)[i]),
        dec_of(n).len() >= 1,
    decreases n,
{
    if n < 10 {
        assert(is_dec_digit(digit_char(n as int)));
    } else {
        lemma_dec_of_digits(n / 10);
        assert(is_dec_digit(digit_char((n % 10) as int)));
    }
}

/// The numeric value of a digit character.
pub open spec fn digit_val(c: char) -> int {
    (c as u32) - 48
}

/// The number a sequence of digit characters denotes.
pub open spec fn val_of(s: Seq<char>) -> int
    decreases s.len(),
{
    if s.len() == 0 {
        0
    } else {
        val_of(s.drop_last()) * 10 + digit_val(s.last())
    }
}

/// Parsing a decimal rendering recovers the number.
pub proof fn lemma_dec_of_val(n: nat)
    ensures
        val_of(dec_of(n)) == n,
    decreases n,
{
    assert(val_of(Seq::<char>::empty()) == 0);
    if n < 10 {
        assert(dec_of(n).drop_last() =~= Seq::<char>::empty());
        assert(digit_val(digit_char(n as int)) == n);
        assert(val_of(dec_of(n)) == val_of(dec_of(n).drop_last()) * 10 + digit_val(
            dec_of(n).last(),
        ));
    } else {
        lemma_dec_of_val(n / 10);
        assert(dec_of(n).drop_last() =~= dec_of(n / 10));
        assert(dec_of(n).last() == digit_char((n % 10) as int));
        assert(digit_val(digit_char((n % 10) as int)) == n % 10);
        assert(val_of(dec_of(n)) == val_of(dec_of(n).drop_last()) * 10 + digit_val(
            dec_of(n).last(),
        ));
    }
}

/// Distinct numbers have distinct decimal renderings.
pub proof fn lemma_dec_of_injective(a: nat, b: nat)
    requires
        dec_of(a) == dec_of(b),
    ensures
        a == b,
{
    lemma_dec_of_val(a);
    lemma_dec_of_val(b);
}

/// Splitting equal concatenations at the same offset gives equal parts.
pub proof fn lemma_concat_parts(p1: Seq<char>, t1: Seq<char>, p2: Seq<char>, t2: Seq<char>)
    requires
        p1 + t1 == p2 + t2,
        p1.len() == p2.len(),
    ensures
        p1 == p2,
        t1 == t2,
{
    assert((p1 + t1).len() == p1.len() + t1.len());
    assert((p2 + t2).len() == p2.len() + t2.len());
    assert forall|i: int| 0 <= i < p1.len() implies p1[i] == p2[i] by {
        assert((p1 + t1)[i] == p1[i]);
        assert((p2 + t2)[i] == p2[i]);
    }
    assert(p1 =~= p2);
    assert(t1.len() == t2.len());
    assert forall|i: int| 0 <= i < t1.len() implies t1[i] == t2[i] by {
        assert((p1 + t1)[p1.len() + i] == t1[i]);
        assert((p2 + t2)[p2.len() + i] == t2[i]);
    }
    assert(t1 =~= t2);
}

/// If equal strings each end in a non-digit separator followed by a decimal
/// rendering, the rendered numbers (and the leading parts) coincide.
pub proof fn lemma_digit_tail(p1: Seq<char>, n1: nat, p2: Seq<char>, n2: nat)
    requires
        p1.len() > 0,
        p2.len() > 0,
        !is_dec_digit(p1.last()),
        !is_dec_digit(p2.last()),
        p1 + dec_of(n1) == p2 + dec_of(n2),
    ensures
        n1 == n2,
        p1 == p2,
{
    lemma_dec_of_digits(n1);
    lemma_dec_of_digits(n2);
    let s = p1 + dec_of(n1);
    let l1 = dec_of(n1).len() as int;
    let l2 = dec_of(n2).len() as int;
    if l1 < l2 {
        // index of p1's separator, seen from the right
        let idx = s.len() - l1 - 1;
        assert(s[idx] == p1.last());
        assert((p2 + dec_of(n2))[idx] == dec_of(n2)[idx - p2.len()]);
        assert(is_dec_digit(dec_of(n2)[idx - p2.len()]));
    } else if l2 < l1 {
        let idx = s.len() - l2 - 1;
        assert(s[idx] == (p2 + dec_of(n2))[idx]);
        assert((p2 + dec_of(n2))[idx] == p2.last());
        assert(s[idx] == dec_of(n1)[idx - p1.len()]);
        assert(is_dec_digit(dec_of(n1)[idx - p1.len()]));
    } else {
        lemma_concat_parts(p1, dec_of(n1), p2, dec_of(n2));
        lemma_dec_of_injective(n1, n2);
    }
}

/// If equal strings share a prefix followed by a decimal rendering and then
/// a part that opens with a non-digit, the rendered numbers and the rests
/// coincide.
pub proof fn lemma_digit_run(
    q: Seq<char>,
    n1: nat,
    r1: Seq<char>,
    n2: nat,
    r2: Seq<char>,
)
    requires
        r1.len() > 0,
        r2.len() > 0,
        !is_dec_digit(r1[0]),
        !is_dec_digit(r2[0]),
        q + dec_of(n1) + r1 == q + dec_of(n2) + r2,
    ensures
        n1 == n2,
        r1 == r2,
{
    lemma_dec_of_digits(n1);
    lemma_dec_of_digits(n2);
    let s = q + dec_of(n1) + r1;
    let l1 = dec_of(n1).len() as int;
    let l2 = dec_of(n2).len() as int;
    if l1 < l2 {
        let idx = q.len() + l1;
        assert(s[idx] == r1[0]);
        assert((q + dec_of(n2) + r2)[idx] == dec_of(n2)[l1]);
        assert(is_dec_digit(dec_of(n2)[l1]));
    } else if l2 < l1 {
        let idx = q.len() + l2;
        assert(s[idx] == dec_of(n1)[l2]);
        assert((q + dec_of(n2) + r2)[idx] == r2[0]);
        assert(is_dec_digit(dec_of(n1)[l2]));
    } else {
        lemma_concat_parts(q + dec_of(n1), r1, q + dec_of(n2), r2);
        lemma_concat_parts(q, dec_of(n1), q, dec_of(n2));
        lemma_dec_of_injective(n1, n2);
    }
}

} // verus!
