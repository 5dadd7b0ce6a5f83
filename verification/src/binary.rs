use vstd::prelude::*;

verus! {

/// The digit that stands for the bit `b`.
pub open spec fn binary_digit(b: nat) -> char {
    if b == 0 {
        '0'
    } else {
        '1'
    }
}

/// The shortest base-2 representation of `n`, most significant digit
/// first; zero is written as the single digit `'0'`.
pub open spec fn binary_of(n: nat) -> Seq<char>
    decreases n,
{
    if n < 2 {
        seq![binary_digit(n)]
    } else {
        binary_of(n / 2).push(binary_digit(n % 2))
    }
}

/// The number that a string of binary digits denotes.
pub open spec fn binary_value(s: Seq<char>) -> nat
    decreases s.len(),
{
    if s.len() == 0 {
        0
    } else {
        2 * binary_value(s.drop_last()) + if s.last() == '1' {
            1nat
        } else {
            0nat
        }
    }
}

/// Every character is a binary digit.
pub open spec fn is_bit_string(s: Seq<char>) -> bool {
    forall|i: int| 0 <= i < s.len() ==> (s[i] == '0' || s[i] == '1')
}

/// Each `'0'` becomes `'1'` and every other character becomes `'0'`.
pub open spec fn complement(s: Seq<char>) -> Seq<char> {
    Seq::new(s.len(), |i: int| if s[i] == '0' { '1' } else { '0' })
}

/// Number of digits that the binary representation of `n` has.
pub open spec fn bit_length(n: nat) -> nat {
    binary_of(n).len()
}

/// 2 to the power `k`.
pub open spec fn doubling(k: nat) -> nat
    decreases k,
{
    if k == 0 {
        1
    } else {
        2 * doubling((k - 1) as nat)
    }
}

proof fn lemma_bit_length_under(n: nat, k: nat)
    requires
        k >= 1,
        n < doubling(k),
    ensures
        1 <= bit_length(n) <= k,
    decreases n,
{
    if n >= 2 {
        assert(k >= 2) by {
            if k == 1 {
                assert(doubling(1) == 2) by {
                    reveal_with_fuel(doubling, 2);
                }
            }
        }
        lemma_bit_length_under(n / 2, (k - 1) as nat);
    }
}

/// A number below 256 has between one and eight binary digits.
pub proof fn lemma_bit_length_of_byte(n: nat)
    requires
        n < 256,
    ensures
        1 <= bit_length(n) <= 8,
{
    assert(doubling(8) == 256) by {
        reveal_with_fuel(doubling, 9);
    }
    lemma_bit_length_under(n, 8);
}

/// The binary representation of `n` consists of binary digits and reads
/// back as `n`.
pub proof fn lemma_binary_round_trip(n: nat)
    ensures
        is_bit_string(binary_of(n)),
        binary_value(binary_of(n)) == n,
    decreases n,
{
    if n >= 2 {
        lemma_binary_round_trip(n / 2);
        let s = binary_of(n);
        assert(s.drop_last() =~= binary_of(n / 2));
        assert(s.last() == binary_digit(n % 2));
        assert(n == 2 * (n / 2) + n % 2);
    } else {
        let s = binary_of(n);
        assert(s.drop_last() =~= Seq::<char>::empty());
        assert(binary_value(Seq::<char>::empty()) == 0);
        assert(s.last() == binary_digit(n));
    }
}

/// Complementing a string of binary digits twice gives it back.
pub proof fn lemma_complement_involutive(s: Seq<char>)
    requires
        is_bit_string(s),
    ensures
        is_bit_string(complement(s)),
        complement(complement(s)) == s,
{
    assert(complement(complement(s)) =~= s);
}

/// The representation of a positive number starts with the digit '1'.
pub proof fn lemma_binary_leading_one(n: nat)
    requires
        n > 0,
    ensures
        binary_of(n)[0] == '1',
    decreases n,
{
    if n >= 2 {
        lemma_binary_leading_one(n / 2);
    }
}

/// A string of binary digits and its complement add up to the number whose
/// digits are all ones: complementing is one's-complement negation.
pub proof fn lemma_complement_value(s: Seq<char>)
    requires
        is_bit_string(s),
    ensures
        binary_value(s) + binary_value(complement(s)) + 1 == doubling(s.len()),
    decreases s.len(),
{
    let c = complement(s);
    if s.len() == 0 {
        assert(c.len() == 0);
    } else {
        let t = s.drop_last();
        assert(c.drop_last() =~= complement(t));
        lemma_complement_value(t);
        assert(s.last() == s[s.len() - 1]);
        assert(c.last() == c[c.len() - 1]);
    }
}

/// Writes `value` in base 2, as `format!("{:b}", value)` does.
pub fn binary_string(value: u8) -> (s: String)
    ensures
        s@ == binary_of(value as nat),
    decreases value,
{
    proof {
        reveal_strlit("0");
        reveal_strlit("1");
    }
    if value < 2 {
        let mut s = String::new();
        if value == 0 {
            s.append("0");
        } else {
            s.append("1");
        }
        s
    } else {
        let mut s = binary_string(value / 2);
        if value % 2 == 0 {
            s.append("0");
        } else {
            s.append("1");
        }
        s
    }
}

/// Replaces each `'0'` of `binary` by `'1'` and every other character by
/// `'0'`: on a binary magnitude this gives the one's-complement digits that
/// code a negative value.
pub fn transform_positive_negative_binary(binary: String) -> (result: String)
    ensures
        result@ == complement(binary@),
{
    let digits = binary.as_str();
    let n: usize = digits.unicode_len();
    let mut result = String::new();
    let mut i: usize = 0;
    while i < n
        invariant
            n == binary@.len(),
            digits@ == binary@,
            i <= n,
            result@ =~= complement(binary@).take(i as int),
        decreases n - i,
    {
        let c = digits.get_char(i);
        if c == '0' {
            result.append("1");
        } else {
            result.append("0");
        }
        proof {
            reveal_strlit("0");
            reveal_strlit("1");
            assert(complement(binary@).take(i + 1) =~= complement(binary@).take(i as int).push(
                complement(binary@)[i as int],
            ));
        }
        i = i + 1;
    }
    result
}

} // verus!
