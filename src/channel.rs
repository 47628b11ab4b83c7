use vstd::prelude::*;
use crossbeam_channel::Sender;
use rand::rngs::StdRng;
use rand::Rng;
use rand::SeedableRng;
use crate::packet::Packet;

verus! {

/// The sending half of a crossbeam channel, held opaque.
#[verifier::external_type_specification]
#[verifier::external_body]
#[verifier::reject_recursive_types(T)]
pub struct ExSender<T>(crossbeam_channel::Sender<T>);

/// rand's seedable generator, held opaque.
#[verifier::external_type_specification]
#[verifier::external_body]
pub struct ExStdRng(rand::rngs::StdRng);

/// Relies on crossbeam_channel::Sender::send, which hands the packet to the
/// channel and reports an error only when its receiving side is gone.
/// Whether that happened depends on the other node, so nothing is promised.
#[verifier::external_body]
pub(crate) fn send_packet(channel: &Sender<Packet>, packet: Packet) -> (delivered: bool) {
    channel.send(packet).is_ok()
}

/// Relies on rand::SeedableRng::seed_from_u64 to build a generator from a seed.
#[verifier::external_body]
pub(crate) fn seeded_rng(seed: u64) -> StdRng {
    StdRng::seed_from_u64(seed)
}

/// Relies on rand::Rng::gen_range, which returns a value of the given
/// non-empty range `0..100`.
#[verifier::external_body]
pub(crate) fn draw_percent(rng: &mut StdRng) -> (r: u8)
    ensures
        r < 100,
{
    rng.gen_range(0..100u8)
}

} // verus!
