//! Building call payloads: two distinct identifiers drawn at random from the
//! configured pool. The randomness comes from the outside generator; turning
//! two arbitrary draws into a well-formed request is verified for every pair
//! of draws.

use vstd::prelude::*;
use crate::tpcb::Request;

verus! {

/// Relies on rand::random: one uniformly drawn value from the thread-local
/// generator. Nothing can be promised of a random value.
pub assume_specification<T>[ rand::random::<T> ]() -> (r: T)
    where
        rand::distr::StandardUniform: rand::distr::Distribution<T>,
;

/// Where the payee lands for a given pair of draws: a nonzero distance
/// after the payer, wrapping around the pool.
pub open spec fn spec_payee_id(pool_size: u32, draw_a: u32, draw_b: u32) -> int {
    let payer_idx = draw_a % pool_size;
    let gap = draw_b % ((pool_size - 1) as u32) + 1;
    if payer_idx + gap < pool_size {
        payer_idx + gap + 1
    } else {
        payer_idx + gap + 1 - pool_size
    }
}

/// Map two arbitrary draws onto a well-formed request: the payer is drawn
/// from the whole pool, and the payee sits a nonzero distance after the
/// payer, wrapping around the pool, so the two are never equal whatever the
/// draws were.
pub fn make_request(pool_size: u32, amount: u32, draw_a: u32, draw_b: u32) -> (r: Request)
    requires
        pool_size >= 2,
    ensures
        r.wf(pool_size),
        r.amount == amount,
        r.payer_id == draw_a % pool_size + 1,
        r.payee_id == spec_payee_id(pool_size, draw_a, draw_b),
{
    let payer_idx = draw_a % pool_size;
    let gap = draw_b % (pool_size - 1) + 1;
    let payee_idx = if payer_idx < pool_size - gap {
        payer_idx + gap
    } else {
        payer_idx - (pool_size - gap)
    };
    Request { payer_id: payer_idx + 1, payee_id: payee_idx + 1, amount }
}

/// Build a request for `amount` between two distinct random identifiers of a
/// pool of `pool_size` accounts, numbered from one.
pub fn fresh_request(pool_size: u32, amount: u32) -> (r: Request)
    requires
        pool_size >= 2,
    ensures
        r.wf(pool_size),
        r.amount == amount,
{
    let draw_a = rand::random::<u32>();
    let draw_b = rand::random::<u32>();
    make_request(pool_size, amount, draw_a, draw_b)
}

} // verus!
