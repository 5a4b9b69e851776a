//! Random names for the write test.

use vstd::prelude::*;

use crate::text::{concat_str, decimal, decimal_string, digit_char};

verus! {

/// `rand::random_range(low..=high)`: a value drawn from the thread-local generator, between
/// the bounds, both included. Which value comes back is chance; an empty range panics, so
/// `requires` rules it out. The call also panics when the operating system's random source
/// cannot seed the generator, which no argument controls and nothing here states.
#[verifier::external_body]
fn random_in_range(low: i32, high: i32) -> (r: i32)
    requires
        low <= high,
    ensures
        low <= r <= high,
{
    rand::random_range(low..=high)
}

/// How many digits a random test name has.
pub const DIGIT_COUNT: usize = 10;

/// The characters `1` to `9`.
pub open spec fn is_nonzero_digit(c: char) -> bool {
    49 <= c as u32 <= 57
}

/// The string of the digits `digits`, each written as one character.
pub fn digits_string(digits: &Vec<i32>) -> (s: String)
    requires
        forall|i: int| 0 <= i < digits@.len() ==> 0 <= #[trigger] digits@[i] <= 9,
    ensures
        s@ == digits@.map_values(|d: i32| digit_char(d as nat)),
{
    let mut s = String::new();
    let mut i: usize = 0;
    while i < digits.len()
        invariant
            i <= digits@.len(),
            forall|k: int| 0 <= k < digits@.len() ==> 0 <= #[trigger] digits@[k] <= 9,
            s@ == digits@.subrange(0, i as int).map_values(|d: i32| digit_char(d as nat)),
        decreases digits@.len() - i,
    {
        let d = digits[i];
        let piece = decimal_string(d as u64);
        assert(decimal(d as nat) == seq![digit_char(d as nat)]);
        s = concat_str(s.as_str(), piece.as_str());
        assert(digits@.subrange(0, i + 1) == digits@.subrange(0, i as int).push(d));
        i = i + 1;
    }
    assert(digits@.subrange(0, digits@.len() as int) == digits@);
    s
}

/// Ten random digits from 1 to 9, as a string.
pub fn rand_num_str() -> (s: String)
    ensures
        s@.len() == DIGIT_COUNT,
        forall|i: int| 0 <= i < s@.len() ==> is_nonzero_digit(#[trigger] s@[i]),
{
    let mut digits: Vec<i32> = Vec::new();
    let mut n: usize = 0;
    while n < DIGIT_COUNT
        invariant
            n <= DIGIT_COUNT,
            digits@.len() == n,
            forall|k: int| 0 <= k < digits@.len() ==> 1 <= #[trigger] digits@[k] <= 9,
        decreases DIGIT_COUNT - n,
    {
        let random = random_in_range(1, 9);
        digits.push(random);
        n = n + 1;
    }
    let s = digits_string(&digits);
    assert forall|i: int| 0 <= i < s@.len() implies is_nonzero_digit(#[trigger] s@[i]) by {
        assert(1 <= digits@[i] <= 9);
    }
    s
}

/// The name of the file that tests whether a folder is writable.
pub fn test_file_name(digits: &str) -> (name: String)
    ensures
        name@ == "test_"@ + digits@,
{
    concat_str("test_", digits)
}


/// The digits of a random name are the characters `1` to `9`, and a name has ten of them.
pub proof fn law_random_digits(c: char)
    ensures
        is_nonzero_digit(c) <==> ('1' <= c && c <= '9'),
        DIGIT_COUNT == 10,
{
}

/// Each digit is written as its own decimal character.
pub proof fn law_digit_char(d: nat)
    requires
        d < 10,
    ensures
        digit_char(d) as u32 == 48 + d,
        decimal(d) == seq![digit_char(d)],
{
}

} // verus!
