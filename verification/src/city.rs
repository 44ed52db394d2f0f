//! What a city does on each tick: ask the plant for a random amount of power.

use rand::Rng;
use vstd::prelude::*;

use crate::decimal::{lemma_volume_round_trip, spec_parse_volume};
use crate::domain::{spec_request_for, PowerRequest};

verus! {

/// Topic on which cities publish their requests.
pub const POWER_REQUEST_TOPIC: &'static str = "power-request";

/// Exclusive upper bound of a city's need.
pub const MAX_POWER_NEED: u32 = 1000;

/// `rand::thread_rng().gen_range(0..bound)`: a number drawn uniformly below
/// `bound`. Only that it lies in the range is claimed; which value comes out
/// is chance. An empty range would panic, hence the `requires`.
#[verifier::external_body]
fn random_below(bound: u32) -> (drawn: u32)
    requires
        bound > 0,
    ensures
        drawn < bound,
{
    rand::thread_rng().gen_range(0..bound)
}

/// The request a city sends on a tick: its name, and a need below
/// [`MAX_POWER_NEED`] written in decimal.
pub fn power_request(city_name: &str) -> (request: PowerRequest)
    ensures
        request.origin@ == city_name@,
        spec_parse_volume(request.volume@) is Some,
        spec_parse_volume(request.volume@)->0 < MAX_POWER_NEED,
        request@ == spec_request_for(
            city_name@,
            spec_parse_volume(request.volume@)->0 as nat,
        ),
{
    let need = random_below(MAX_POWER_NEED);
    proof {
        lemma_volume_round_trip(need as usize);
    }
    PowerRequest::for_need(city_name, need)
}

} // verus!
