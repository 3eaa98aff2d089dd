use vstd::prelude::*;

verus! {

/// One xorshift step with the shifts 13, 17 and 5.
pub open spec fn xorshift(x: u32) -> u32 {
    let a = x ^ (x << 13u32);
    let b = a ^ (a >> 17u32);
    b ^ (b << 5u32)
}

/// The number drawn from `seed`, which also becomes the next seed. A zero
/// seed is taken as one.
pub open spec fn next_random(seed: u32) -> u32 {
    xorshift(
        if seed == 0 {
            1
        } else {
            seed
        },
    )
}

/// Draw a pseudo-random number from `seed` with xorshift; the result is also
/// the next seed.
pub fn random_from(seed: u32) -> (r: u32)
    ensures
        r == next_random(seed),
{
    let mut x = seed;
    if x == 0 {
        x = 1;
    }
    x = x ^ (x << 13u32);
    x = x ^ (x >> 17u32);
    x = x ^ (x << 5u32);
    x
}

/// A zero seed draws what the seed one draws, and a draw is never zero, so
/// the generator never falls into the zero state; distinct seeds other than
/// zero draw distinct numbers.
pub proof fn lemma_random_seed(seed: u32, other: u32)
    ensures
        next_random(0) == next_random(1),
        next_random(seed) != 0,
        seed != 0 && other != 0 && seed != other ==> next_random(seed) != next_random(other),
{
    let x: u32 = if seed == 0 {
        1
    } else {
        seed
    };
    assert(x != 0 ==> (((x ^ (x << 13u32)) ^ ((x ^ (x << 13u32)) >> 17u32)) ^ (((x ^ (x
        << 13u32)) ^ ((x ^ (x << 13u32)) >> 17u32)) << 5u32)) != 0) by (bit_vector);
    if seed != 0 && other != 0 && seed != other {
        let y = other;
        assert(x != y ==> (((x ^ (x << 13u32)) ^ ((x ^ (x << 13u32)) >> 17u32)) ^ (((x ^ (x
            << 13u32)) ^ ((x ^ (x << 13u32)) >> 17u32)) << 5u32)) != (((y ^ (y << 13u32)) ^ ((y
            ^ (y << 13u32)) >> 17u32)) ^ (((y ^ (y << 13u32)) ^ ((y ^ (y << 13u32)) >> 17u32))
            << 5u32))) by (bit_vector);
    }
}

} // verus!
