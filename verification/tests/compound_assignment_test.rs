//! The normalized form of a compound assignment: the target location
//! is bound once through an exclusive reference, then overwritten with
//! the checked-operation result, propagating on error.

use safe_math::{safe_add, safe_div, safe_mul, safe_rem, safe_sub};
use std::cell::Cell;

/// The target of a compound assignment is evaluated exactly once, even
/// when computing it has a side effect.
#[test]
fn test_compound_assignment_no_side_effects() {
    let counter = Cell::new(0usize);

    // Function that has side effects - increments a counter each time
    // it is called.
    let get_index = || -> usize {
        let result = counter.get();
        counter.set(result + 1);
        result
    };

    // The normalized form of `arr[get_index()] += 5` in a function
    // returning an outcome: the target location is bound once, so
    // get_index runs once, not twice.
    let test_add_assign = || -> Result<u8, ()> {
        let mut arr = [10u8, 20u8, 30u8];
        {
            let tmp = &mut arr[get_index()];
            *tmp = safe_add(*tmp, 5)?;
        }
        Ok(arr[0])
    };

    let result = test_add_assign();

    // Verify the result is correct.
    assert_eq!(result, Ok(15));

    // Verify get_index was called exactly once.
    let call_count = counter.get();
    assert_eq!(
        call_count, 1,
        "get_index should be called exactly once, but was called {call_count} times"
    );
}

#[test]
fn test_all_compound_assignments() {
    let test_compound_ops = || -> Result<(u8, u8, u8, u8, u8), ()> {
        let mut a = 10u8;
        let mut b = 20u8;
        let mut c = 6u8;
        let mut d = 15u8;
        let mut e = 17u8;

        // The normalized forms of `a += 5`, `b -= 5`, `c *= 2`,
        // `d /= 3`, `e %= 7`.
        {
            let tmp = &mut a;
            *tmp = safe_add(*tmp, 5)?; // 10 + 5 = 15
        }
        {
            let tmp = &mut b;
            *tmp = safe_sub(*tmp, 5)?; // 20 - 5 = 15
        }
        {
            let tmp = &mut c;
            *tmp = safe_mul(*tmp, 2)?; // 6 * 2 = 12
        }
        {
            let tmp = &mut d;
            *tmp = safe_div(*tmp, 3)?; // 15 / 3 = 5
        }
        {
            let tmp = &mut e;
            *tmp = safe_rem(*tmp, 7)?; // 17 % 7 = 3
        }

        Ok((a, b, c, d, e))
    };

    assert_eq!(test_compound_ops(), Ok((15, 15, 12, 5, 3)));
}

#[test]
fn test_compound_assignment_overflow() {
    let test_overflow = || -> Result<u8, ()> {
        let mut x = 255u8;
        // The normalized form of `x += 1`: this overflows and returns
        // an error.
        {
            let tmp = &mut x;
            *tmp = safe_add(*tmp, 1)?;
        }
        Ok(x)
    };

    assert!(test_overflow().is_err());
}

#[test]
fn test_compound_assignment_underflow() {
    let test_underflow = || -> Result<u8, ()> {
        let mut x = 0u8;
        // The normalized form of `x -= 1`: this underflows and returns
        // an error.
        {
            let tmp = &mut x;
            *tmp = safe_sub(*tmp, 1)?;
        }
        Ok(x)
    };

    assert!(test_underflow().is_err());
}
