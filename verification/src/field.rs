//! Arithmetic in the prime field of order 2^128 - 45 * 2^40 + 1.
//!
//! Elements are held as `u128` values in canonical form, that is below the
//! modulus.

use vstd::prelude::*;
use vstd::arithmetic::div_mod::*;

verus! {

/// The field modulus, 2^128 - 45 * 2^40 + 1.
pub const MODULUS: u128 = 340282366920938463463374557953744961537u128;

/// The modulus as a mathematical integer.
pub open spec fn modulus() -> int {
    MODULUS as int
}

/// A value is canonical when it lies in `[0, modulus)`.
pub open spec fn is_canonical(v: u128) -> bool {
    v < MODULUS
}

/// Every member of the sequence is canonical.
pub open spec fn all_canonical(s: Seq<u128>) -> bool {
    forall|i: int| 0 <= i < s.len() ==> is_canonical(#[trigger] s[i])
}

/// Sum of two integers in the field.
pub open spec fn add_mod(a: int, b: int) -> int {
    (a + b) % modulus()
}

/// Difference of two integers in the field.
pub open spec fn sub_mod(a: int, b: int) -> int {
    (a - b) % modulus()
}

/// Product of two integers in the field.
pub open spec fn mul_mod(a: int, b: int) -> int {
    (a * b) % modulus()
}

/// Addition of field elements.
pub fn field_add(a: u128, b: u128) -> (r: u128)
    requires
        is_canonical(a),
        is_canonical(b),
    ensures
        r == add_mod(a as int, b as int),
        is_canonical(r),
{
    let z: u128 = MODULUS - b;
    if a < z {
        proof {
            lemma_fundamental_div_mod_converse(a + b, modulus(), 0, a + b);
        }
        a + b
    } else {
        proof {
            lemma_fundamental_div_mod_converse(a + b, modulus(), 1, a + b - modulus());
        }
        a - z
    }
}

/// Subtraction of field elements.
pub fn field_sub(a: u128, b: u128) -> (r: u128)
    requires
        is_canonical(a),
        is_canonical(b),
    ensures
        r == sub_mod(a as int, b as int),
        is_canonical(r),
{
    if a < b {
        proof {
            lemma_fundamental_div_mod_converse(a - b, modulus(), -1, a - b + modulus());
        }
        MODULUS - b + a
    } else {
        proof {
            lemma_fundamental_div_mod_converse(a - b, modulus(), 0, a - b);
        }
        a - b
    }
}

/// One round of binary multiplication keeps the pending product unchanged
/// modulo `m`.
proof fn lemma_double_and_add(acc: int, cur: int, rem: int, m: int)
    requires
        m > 0,
        rem >= 0,
    ensures
        (((acc + (rem % 2) * cur) % m) + ((2 * cur) % m) * (rem / 2)) % m == (acc + cur * rem) % m,
{
    let x = acc + (rem % 2) * cur;
    let y = (2 * cur) * (rem / 2);
    let c = (2 * cur) % m;
    lemma_mul_mod_noop_left(2 * cur, rem / 2, m);
    assert((c * (rem / 2)) % m == y % m);
    lemma_add_mod_noop(x % m, c * (rem / 2), m);
    lemma_add_mod_noop(x, y, m);
    lemma_mod_twice(x, m);
    assert(x + y == acc + cur * rem) by (nonlinear_arith)
        requires
            x == acc + (rem % 2) * cur,
            y == (2 * cur) * (rem / 2),
            rem == 2 * (rem / 2) + rem % 2,
    ;
}

/// Multiplication of field elements, by doubling and adding over the bits of
/// the second operand.
pub fn field_mul(a: u128, b: u128) -> (r: u128)
    requires
        is_canonical(a),
        is_canonical(b),
    ensures
        r == mul_mod(a as int, b as int),
        is_canonical(r),
{
    let mut acc: u128 = 0;
    let mut cur: u128 = a;
    let mut rem: u128 = b;
    while rem > 0
        invariant
            is_canonical(acc),
            is_canonical(cur),
            (acc + cur * rem) % modulus() == (a * b) % modulus(),
        decreases rem,
    {
        let ghost acc0 = acc as int;
        let ghost cur0 = cur as int;
        let ghost rem0 = rem as int;
        proof {
            lemma_double_and_add(acc0, cur0, rem0, modulus());
        }
        if rem % 2 == 1 {
            acc = field_add(acc, cur);
            assert((rem0 % 2) * cur0 == cur0) by (nonlinear_arith)
                requires
                    rem0 % 2 == 1,
            ;
        } else {
            proof {
                lemma_fundamental_div_mod_converse(acc0, modulus(), 0, acc0);
                assert((rem0 % 2) * cur0 == 0) by (nonlinear_arith)
                    requires
                        rem0 % 2 == 0,
                ;
            }
        }
        assert(acc as int == (acc0 + (rem0 % 2) * cur0) % modulus());
        cur = field_add(cur, cur);
        assert(cur as int == (2 * cur0) % modulus());
        rem = rem / 2;
        assert(rem as int == rem0 / 2);
    }
    proof {
        lemma_fundamental_div_mod_converse(acc as int, modulus(), 0, acc as int);
    }
    acc
}

/// Tells whether every value of a slice is a canonical field element.
pub fn check_all_canonical(values: &[u128]) -> (r: bool)
    ensures
        r == all_canonical(values@),
{
    let mut i: usize = 0;
    while i < values.len()
        invariant
            i <= values.len(),
            forall|k: int| 0 <= k < i ==> is_canonical(#[trigger] values@[k]),
        decreases values.len() - i,
    {
        if values[i] >= MODULUS {
            return false;
        }
        i += 1;
    }
    true
}

} // verus!
