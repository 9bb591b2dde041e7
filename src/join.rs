use crate::bytes::{be_bytes, be_value, lemma_be_bytes_len, lemma_value_of_be_bytes, u64_to_be_bytes};
use crate::utxo::UtxoId;
use vstd::arithmetic::power::pow;
use vstd::prelude::*;

verus! {

/// Width of the timestamp in the join message.
pub const TIMESTAMP_BYTES: usize = 8;

/// Width of the join message: the identifier, then the timestamp.
pub const MESSAGE_LEN: usize = 40;

/// The bytes that a participant signs to join a room: the 32-byte
/// big-endian UTXO identifier followed by the 8-byte big-endian Unix time in
/// seconds.
pub open spec fn join_message_spec(utxo_id: nat, timestamp: nat) -> Seq<u8> {
    be_bytes(utxo_id, 32) + be_bytes(timestamp, 8)
}

/// Builds the message that binds a join request to a UTXO and a time.
pub fn join_message(utxo_id: &UtxoId, timestamp: u64) -> (r: Vec<u8>)
    ensures
        r@ == join_message_spec(utxo_id.value(), timestamp as nat),
        r@.len() == MESSAGE_LEN,
{
    let mut message = utxo_id.to_big_endian();
    let mut ts = u64_to_be_bytes(timestamp);
    message.append(&mut ts);
    message
}

/// For every identifier below 2^256 and every timestamp below 2^64, the join
/// message is 40 bytes long, its first 32 bytes read back as the identifier
/// and its last 8 as the timestamp.
pub proof fn lemma_join_message_layout(utxo_id: nat, timestamp: nat)
    requires
        utxo_id < pow(256, 32),
        timestamp < pow(256, 8),
    ensures
        join_message_spec(utxo_id, timestamp).len() == MESSAGE_LEN,
        join_message_spec(utxo_id, timestamp).subrange(0, 32) == be_bytes(utxo_id, 32),
        join_message_spec(utxo_id, timestamp).subrange(32, 40) == be_bytes(timestamp, 8),
        be_value(join_message_spec(utxo_id, timestamp).subrange(0, 32)) == utxo_id,
        be_value(join_message_spec(utxo_id, timestamp).subrange(32, 40)) == timestamp,
{
    lemma_be_bytes_len(utxo_id, 32);
    lemma_be_bytes_len(timestamp, 8);
    lemma_value_of_be_bytes(utxo_id, 32);
    lemma_value_of_be_bytes(timestamp, 8);
    let m = join_message_spec(utxo_id, timestamp);
    assert(m.subrange(0, 32) =~= be_bytes(utxo_id, 32));
    assert(m.subrange(32, 40) =~= be_bytes(timestamp, 8));
    vstd::arithmetic::div_mod::lemma_small_mod(utxo_id, pow(256, 32) as nat);
    vstd::arithmetic::div_mod::lemma_small_mod(timestamp, pow(256, 8) as nat);
}

} // verus!
