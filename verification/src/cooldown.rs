use vstd::prelude::*;
use rand::Rng;

verus! {

/// The configured pacing of the mode loops: the fixed delay after every
/// iteration, and the upper bound of the randomized privacy delay.
#[derive(Clone, Copy, Debug, PartialEq, Eq, Structural)]
pub struct ServiceSettings {
    pub loop_cooldown_in_sec: u64,
    pub mining_max_cooldown_in_sec: u64,
}

/// Relies on rand::Rng::gen_range over `0..bound`: a value of the range,
/// uniformly sampled; the range must not be empty. Nothing more is assumed
/// of which value comes back.
#[verifier::external_body]
fn sample_below(bound: u64) -> (r: u64)
    requires
        bound > 0,
    ensures
        r < bound,
{
    rand::thread_rng().gen_range(0..bound)
}

/// The fixed delay applied after every mode-loop iteration.
pub fn common_loop_cooldown_secs(settings: &ServiceSettings) -> (r: u64)
    ensures
        r == settings.loop_cooldown_in_sec,
{
    settings.loop_cooldown_in_sec
}

/// The randomized privacy delay applied after a deposit submission:
/// somewhere under the configured bound, to decorrelate submission timing.
pub fn mining_cooldown_secs(settings: &ServiceSettings) -> (r: u64)
    requires
        settings.mining_max_cooldown_in_sec > 0,
    ensures
        r < settings.mining_max_cooldown_in_sec,
{
    sample_below(settings.mining_max_cooldown_in_sec)
}

} // verus!
