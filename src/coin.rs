//! A random sign.

use vstd::prelude::*;
use rand::rngs::ThreadRng;

verus! {

/// rand's thread-local generator, carried through opaque.
#[verifier::external_type_specification]
#[verifier::external_body]
pub struct ExThreadRng(ThreadRng);

/// Relies on rand's `Rng::gen_range`: a draw from `0..2` is 0 or 1.
#[verifier::external_body]
fn draw_bit(rng: &mut ThreadRng) -> (r: i32)
    ensures
        0 <= r < 2,
{
    rand::Rng::gen_range(rng, 0..2)
}

/// The sign that a draw of 0 or 1 stands for: 1 for a one, -1 otherwise.
pub fn sign_of_draw(draw: i32) -> (r: i32)
    ensures
        r == (if draw == 1 { 1i32 } else { -1i32 }),
{
    if draw == 1 {
        1
    } else {
        -1
    }
}

/// 1 or -1, at random.
pub fn neg_or_pos(rng: &mut ThreadRng) -> (r: i32)
    ensures
        r == 1 || r == -1,
{
    let draw = draw_bit(rng);
    sign_of_draw(draw)
}

} // verus!
