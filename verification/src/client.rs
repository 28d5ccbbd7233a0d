use rand::Rng;
use vstd::prelude::*;

use crate::bits::{bits_of, to_bits};

verus! {

/// Calls `rand::Rng::gen_range` on the thread-local generator. Its contract
/// claims that the value lies in `low..high`, as rand's documentation says;
/// rand panics when `low >= high`, which `requires` leaves out. Which value in
/// the range comes out is left open: it is drawn at random.
#[verifier::external_body]
fn gen_range(low: u8, high: u8) -> (r: u8)
    requires
        low < high,
    ensures
        low <= r < high,
{
    rand::thread_rng().gen_range(low, high)
}

/// A range of acceptable values for one attribute.
pub struct TargetRange {
    pub lower: u8,
    pub upper: u8,
}

impl TargetRange {
    pub fn new(lower: u8, upper: u8) -> (r: Self)
        ensures
            r.lower == lower,
            r.upper == upper,
    {
        Self { lower: lower, upper: upper }
    }

    /// A range whose bounds are drawn at random, the lower one from
    /// `lower[0]..lower[1]` and the upper one from `upper[0]..upper[1]`.
    pub fn new_random(lower: [u8; 2], upper: [u8; 2]) -> (r: Self)
        requires
            lower[0] < lower[1],
            upper[0] < upper[1],
        ensures
            lower[0] <= r.lower < lower[1],
            upper[0] <= r.upper < upper[1],
    {
        Self { lower: gen_range(lower[0], lower[1]), upper: gen_range(upper[0], upper[1]) }
    }

    /// The bits of `num`, least significant first.
    pub fn to_bits(num: u8) -> (bits: [u8; 8])
        ensures
            bits@ == bits_of(num),
    {
        to_bits(num)
    }
}

/// The attributes of a client that a proof speaks about.
pub struct Attributes {
    pub age: u8,
    pub health_rating: u8,
    pub credit_score: u8,
}

impl Attributes {
    pub fn new(age: u8, health_rating: u8, credit_score: u8) -> (r: Self)
        ensures
            r.age == age,
            r.health_rating == health_rating,
            r.credit_score == credit_score,
    {
        Self { age: age, health_rating: health_rating, credit_score: credit_score }
    }

    /// Attributes drawn at random: an age in `18..85`, a health rating in
    /// `30..100` and a credit score in `30..120`.
    pub fn new_random() -> (r: Self)
        ensures
            18 <= r.age < 85,
            30 <= r.health_rating < 100,
            30 <= r.credit_score < 120,
    {
        Self {
            age: gen_range(18, 85),
            health_rating: gen_range(30, 100),
            credit_score: gen_range(30, 120),
        }
    }

    /// The bits of `num`, least significant first.
    pub fn to_bits(num: u8) -> (bits: [u8; 8])
        ensures
            bits@ == bits_of(num),
    {
        to_bits(num)
    }
}

} // verus!
