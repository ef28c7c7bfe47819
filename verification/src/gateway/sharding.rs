use crate::error::GatewayError;
use vstd::prelude::*;

verus! {

/// The shard that a partition key (a guild id) belongs to when the stream is
/// split into `num_shards` parts: the key without its low 22 bits, modulo the
/// number of shards.
pub open spec fn spec_shard_index(guild_id: u64, num_shards: u64) -> u64
    recommends
        num_shards >= 1,
{
    ((guild_id >> 22) % num_shards) as u64
}

/// Shard index of `guild_id` among `num_shards` shards.
///
/// A shard count of zero is rejected with
/// [`GatewayError::InvalidShardCount`]; every other input succeeds.
pub fn shard_index(guild_id: u64, num_shards: u64) -> (r: Result<u64, GatewayError>)
    ensures
        num_shards == 0 <==> r == Err::<u64, GatewayError>(GatewayError::InvalidShardCount),
        num_shards >= 1 ==> r == Ok::<u64, GatewayError>(spec_shard_index(guild_id, num_shards)),
        r matches Ok(i) ==> i < num_shards,
{
    if num_shards == 0 {
        Err(GatewayError::InvalidShardCount)
    } else {
        Ok((guild_id >> 22) % num_shards)
    }
}

/// The `shard` pair of the Identify payload: `(shard_id, num_shards)`.
pub fn get_sharding(guild_id: u64, num_shards: u64) -> (r: (u64, u64))
    requires
        num_shards >= 1,
    ensures
        r.0 == spec_shard_index(guild_id, num_shards),
        r.0 < num_shards,
        r.1 == num_shards,
{
    ((guild_id >> 22) % num_shards, num_shards)
}

/// The shift drops exactly the low 22 bits: the index is the key divided by
/// 2^22, reduced modulo the shard count.
pub proof fn lemma_shard_index_is_division(guild_id: u64, num_shards: u64)
    requires
        num_shards >= 1,
    ensures
        spec_shard_index(guild_id, num_shards) == (guild_id as int / 4194304) % (num_shards as int),
        spec_shard_index(guild_id, num_shards) < num_shards,
{
    assert(guild_id >> 22 == guild_id / 4194304) by (bit_vector);
}

/// Keys that agree above bit 22 land on the same shard.
pub proof fn lemma_shard_index_ignores_low_bits(a: u64, b: u64, num_shards: u64)
    requires
        num_shards >= 1,
        a >> 22 == b >> 22,
    ensures
        spec_shard_index(a, num_shards) == spec_shard_index(b, num_shards),
{
}

/// With a single shard every key maps to shard 0.
pub proof fn lemma_single_shard(guild_id: u64)
    ensures
        spec_shard_index(guild_id, 1) == 0,
{
}

} // verus!
