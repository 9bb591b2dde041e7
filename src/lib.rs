//! Client-side participant logic for a coin-mixing protocol: the session
//! state machine, the join handshake message, the bearer credential slot and
//! the dispatch of coordinator events, with no I/O of its own.

mod address;
mod bytes;
mod cli;
mod join;
mod keys;
mod laws;
mod session;
mod utxo;

pub use address::{
    address_accepted, address_digits, hex_decode, hex_value, is_hex_space, parse_address,
    strip_hex_prefix, ADDRESS_BYTES,
};
pub use bytes::{
    be_bytes, be_value, lemma_be_bytes_len, lemma_be_bytes_of_value, lemma_value_of_be_bytes,
    u64_to_be_bytes,
};
pub use cli::{Cli, GetUTXOs, Shuffle, UtxoSubCommand, UtxosCommand};
pub use join::{join_message, join_message_spec, lemma_join_message_layout, MESSAGE_LEN, TIMESTAMP_BYTES};
pub use utxo::{decimal_value, is_decimal, UtxoId, UTXO_ID_BYTES};
pub use keys::{
    decode_public_key, decoded_key, key_accepted, lemma_decode_idempotent, lemma_minimal_be_value,
    lemma_public_key_round_trip, minimal_be, PublicKeyParts, MAX_MODULUS_BITS, MAX_PUBLIC_EXPONENT,
    MIN_PUBLIC_EXPONENT,
};
pub use laws::{
    is_roster, lemma_credential_rotation, lemma_empty_event_keeps_state,
    lemma_phases_move_forward, lemma_poll_ends_only_on_ready, lemma_roster_round_hash_completes,
    phase_rank,
};
pub use session::{
    all_keys_accepted, authorization_value, bearer, event_result, key_fields, next_state,
    poll_state, ready_for, roster_of, run_events, run_polls, Action, ErrorEventPolicy, ErrorKind,
    EventBody, JoinRequest, OutboundCall, Phase, Request, Room, Session, SessionError,
    SessionModel, SessionStep, POLL_INTERVAL_SECS,
};
