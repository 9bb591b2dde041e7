use crate::bytes::be_bytes;
use crate::join::{join_message, join_message_spec};
use crate::keys::{decode_public_key, decoded_key, key_accepted, PublicKeyParts};
use crate::utxo::UtxoId;
use vstd::prelude::*;
use vstd::string::StringExecFns;

verus! {

/// Seconds between two readiness queries.
pub const POLL_INTERVAL_SECS: u64 = 30;

/// Where a session stands. Phases only move forward.
#[derive(Clone, Copy, Debug, PartialEq, Eq, Structural)]
pub enum Phase {
    Uninitialized,
    RoomReady,
    Joined,
    Waiting,
    Streaming,
    Completed,
    Failed,
}

/// The class of a session failure.
#[derive(Clone, Copy, Debug, PartialEq, Eq, Structural)]
pub enum ErrorKind {
    /// Unreadable key material or a malformed address.
    Configuration,
    /// An operation called out of phase order.
    State,
    /// The coordinator rejected a signature or a credential.
    Auth,
    /// A call or the event stream broke.
    Transport,
    /// A response lacks a required field or holds a malformed one.
    Protocol,
    /// A signing operation failed.
    Crypto,
}

/// The step of the session at which a failure happened.
#[derive(Clone, Copy, Debug, PartialEq, Eq, Structural)]
pub enum SessionStep {
    InitRoom,
    Join,
    WaitReady,
    Connect,
    Stream,
    ShuffleInfo,
    ShuffleRound,
    SignTx,
}

/// A session failure: its class and the step that failed.
#[derive(Clone, Copy, Debug, PartialEq, Eq, Structural)]
pub struct SessionError {
    pub kind: ErrorKind,
    pub step: SessionStep,
}

/// What a coordinator-reported error does to the session.
#[derive(Clone, Copy, Debug, PartialEq, Eq, Structural)]
pub enum ErrorEventPolicy {
    /// Report it and go on reading the stream.
    Continue,
    /// Report it and end the session as failed.
    Abort,
}

/// The per-session record: the UTXO being mixed, where its output goes and
/// the participant's encryption public key.
#[derive(Clone, Debug, PartialEq, Eq)]
pub struct Room {
    pub utxo_id: UtxoId,
    pub output_address: Vec<u8>,
    pub public_key: PublicKeyParts,
}

/// One message of the coordinator's event stream; at most one variant is
/// populated, and an empty message is `None` in the stream.
pub enum EventBody {
    /// The roster of participants' keys and the shuffle credential.
    RosterAndToken { token: String, public_keys: Vec<PublicKeyParts> },
    /// The outputs to re-encode in this round.
    EncodedRoundInput { outputs: Vec<Vec<u8>> },
    /// The final outputs of the transaction to sign.
    SigningInput { outputs: Vec<Vec<u8>> },
    /// The hash of the mixed transaction: the session succeeded.
    TransactionHash { tx_hash: Vec<u8> },
    /// An error reported by the coordinator.
    ProtocolError { error: String },
}

/// What the caller has to do after an event was handled.
pub enum Action {
    /// Nothing: read the next event.
    Skip,
    /// Hand the roster (in reverse order of arrival) to the mixing engine.
    UpdateShuffleInfo { roster: Vec<PublicKeyParts>, utxo_id: UtxoId },
    /// Have the mixing engine re-encode the outputs, then submit the result.
    ShuffleRound { outputs: Vec<Vec<u8>>, utxo_id: UtxoId },
    /// Have the mixing engine sign the outputs, then submit the signature.
    SignTx { utxo_id: UtxoId, outputs: Vec<Vec<u8>> },
    /// Report the mixed transaction's hash.
    Completed { tx_hash: Vec<u8> },
    /// Report the coordinator's error.
    CoordinatorError { error: String },
}

/// A request to the coordinator.
pub enum Request {
    JoinRoom { utxo_id: Vec<u8>, timestamp: u64, signature: Vec<u8> },
    IsReadyToShuffle,
    ConnectRoom { modulus: Vec<u8>, exponent: Vec<u8> },
    SubmitRoundResult { encoded_outputs: Vec<Vec<u8>> },
    SubmitSigningResult { signature: Vec<u8> },
}

/// A request with the `authorization` header value it is sent with.
pub struct OutboundCall {
    pub authorization: Option<String>,
    pub request: Request,
}

/// The fields of a join request, and the message to sign for it.
pub struct JoinRequest {
    pub utxo_id: Vec<u8>,
    pub timestamp: u64,
    pub message: Vec<u8>,
}

/// The abstract state of a session.
pub struct SessionModel {
    pub phase: Phase,
    pub room: Option<Room>,
    pub credential: Seq<char>,
    pub policy: ErrorEventPolicy,
}

/// The session state machine: it owns the room, the single credential slot
/// and the phase, and turns each response and event into the next state and
/// the next thing to do.
pub struct Session {
    phase: Phase,
    room: Option<Room>,
    credential: String,
    policy: ErrorEventPolicy,
}

impl View for Session {
    type V = SessionModel;

    closed spec fn view(&self) -> SessionModel {
        SessionModel {
            phase: self.phase,
            room: self.room,
            credential: self.credential@,
            policy: self.policy,
        }
    }
}

/// The `authorization` header value for a credential.
pub open spec fn bearer(token: Seq<char>) -> Seq<char> {
    "Bearer "@ + token
}

/// Builds the `authorization` header value that carries `token`.
pub fn authorization_value(token: &String) -> (r: String)
    ensures
        r@ == bearer(token@),
{
    let prefix = String::from_str("Bearer ");
    prefix.concat(token.as_str())
}

/// Whether every key of a roster is acceptable.
pub open spec fn all_keys_accepted(keys: Seq<PublicKeyParts>) -> bool {
    forall|i: int| 0 <= i < keys.len() ==> key_accepted(#[trigger] keys[i].modulus@, keys[i].exponent@)
}

/// The fields of each key of a list.
pub open spec fn key_fields(keys: Seq<PublicKeyParts>) -> Seq<(Seq<u8>, Seq<u8>)> {
    keys.map_values(|k: PublicKeyParts| (k.modulus@, k.exponent@))
}

/// The roster handed to the mixing engine: the decoded keys, last received
/// first.
pub open spec fn roster_of(keys: Seq<PublicKeyParts>) -> Seq<(Seq<u8>, Seq<u8>)> {
    Seq::new(keys.len(), |i: int| decoded_key(keys[keys.len() - 1 - i]))
}

/// Whether the session is in `phase` with its room present.
pub open spec fn ready_for(m: SessionModel, phase: Phase) -> bool {
    m.phase == phase && m.room is Some
}

/// The state after an event of the stream is handled.
pub open spec fn next_state(m: SessionModel, event: Option<EventBody>) -> SessionModel {
    if !ready_for(m, Phase::Streaming) {
        m
    } else {
        match event {
            None => m,
            Some(EventBody::RosterAndToken { token, public_keys }) => SessionModel {
                credential: token@,
                phase: if all_keys_accepted(public_keys@) {
                    Phase::Streaming
                } else {
                    Phase::Failed
                },
                ..m
            },
            Some(EventBody::TransactionHash { .. }) => SessionModel { phase: Phase::Completed, ..m },
            Some(EventBody::ProtocolError { .. }) => if m.policy == ErrorEventPolicy::Abort {
                SessionModel { phase: Phase::Failed, ..m }
            } else {
                m
            },
            Some(_) => m,
        }
    }
}

/// What handling an event returns.
pub open spec fn event_result(
    m: SessionModel,
    event: Option<EventBody>,
    r: Result<Action, SessionError>,
) -> bool {
    if !ready_for(m, Phase::Streaming) {
        r == Err::<Action, SessionError>(
            SessionError { kind: ErrorKind::State, step: SessionStep::Stream },
        )
    } else {
        let id = m.room->Some_0.utxo_id;
        match event {
            None => r matches Ok(Action::Skip),
            Some(EventBody::RosterAndToken { token, public_keys }) => if all_keys_accepted(
                public_keys@,
            ) {
                r matches Ok(Action::UpdateShuffleInfo { roster, utxo_id }) && key_fields(roster@)
                    == roster_of(public_keys@) && utxo_id == id
            } else {
                r == Err::<Action, SessionError>(
                    SessionError { kind: ErrorKind::Protocol, step: SessionStep::ShuffleInfo },
                )
            },
            Some(EventBody::EncodedRoundInput { outputs: o }) => r matches Ok(
                Action::ShuffleRound { outputs, utxo_id },
            ) && outputs == o && utxo_id == id,
            Some(EventBody::SigningInput { outputs: o }) => r matches Ok(
                Action::SignTx { utxo_id, outputs },
            ) && outputs == o && utxo_id == id,
            Some(EventBody::TransactionHash { tx_hash: h }) => r matches Ok(
                Action::Completed { tx_hash },
            ) && tx_hash == h,
            Some(EventBody::ProtocolError { error: e }) => r matches Ok(
                Action::CoordinatorError { error },
            ) && error == e,
        }
    }
}

/// The state after each event of a stream, in order.
pub open spec fn run_events(m: SessionModel, events: Seq<Option<EventBody>>) -> SessionModel
    decreases events.len(),
{
    if events.len() == 0 {
        m
    } else {
        next_state(run_events(m, events.drop_last()), events.last())
    }
}

/// The state after a readiness response.
pub open spec fn poll_state(m: SessionModel, ready: bool) -> SessionModel {
    if ready_for(m, Phase::Joined) && ready {
        SessionModel { phase: Phase::Waiting, ..m }
    } else {
        m
    }
}

/// The state after each readiness response of a sequence, in order.
pub open spec fn run_polls(m: SessionModel, responses: Seq<bool>) -> SessionModel
    decreases responses.len(),
{
    if responses.len() == 0 {
        m
    } else {
        poll_state(run_polls(m, responses.drop_last()), responses.last())
    }
}

impl JoinRequest {
    /// The join call: the request's fields with the signature over its
    /// message. It carries no credential.
    pub fn into_call(self, signature: Vec<u8>) -> (r: OutboundCall)
        ensures
            r.authorization is None,
            r.request matches Request::JoinRoom { utxo_id, timestamp, signature: sig } && utxo_id
                == self.utxo_id && timestamp == self.timestamp && sig == signature,
    {
        OutboundCall {
            authorization: None,
            request: Request::JoinRoom {
                utxo_id: self.utxo_id,
                timestamp: self.timestamp,
                signature,
            },
        }
    }
}

impl Session {
    /// A session with no room and an empty credential.
    pub fn new(policy: ErrorEventPolicy) -> (r: Session)
        ensures
            r@ == (SessionModel {
                phase: Phase::Uninitialized,
                room: None,
                credential: Seq::empty(),
                policy,
            }),
    {
        Session { phase: Phase::Uninitialized, room: None, credential: String::new(), policy }
    }

    pub fn phase(&self) -> (r: Phase)
        ensures
            r == self@.phase,
    {
        self.phase
    }

    /// The credential that the next authenticated call carries.
    pub fn credential(&self) -> (r: &String)
        ensures
            r@ == self@.credential,
    {
        &self.credential
    }

    pub fn room(&self) -> (r: &Option<Room>)
        ensures
            *r == self@.room,
    {
        &self.room
    }

    pub fn policy(&self) -> (r: ErrorEventPolicy)
        ensures
            r == self@.policy,
    {
        self.policy
    }

    /// Whether events are still to be read from the stream.
    pub fn is_streaming(&self) -> (r: bool)
        ensures
            r == (self@.phase == Phase::Streaming),
    {
        self.phase == Phase::Streaming
    }

    /// Wraps a request with the current credential as its bearer header.
    pub fn authorize(&self, request: Request) -> (r: OutboundCall)
        ensures
            r.authorization matches Some(a) && a@ == bearer(self@.credential),
            r.request == request,
    {
        OutboundCall { authorization: Some(authorization_value(&self.credential)), request }
    }

    /// Creates the room of a session that has none; the UTXO was resolved
    /// by the caller beforehand.
    pub fn init_room(
        &mut self,
        utxo_id: UtxoId,
        output_address: Vec<u8>,
        public_key: PublicKeyParts,
    ) -> (r: Result<(), SessionError>)
        ensures
            old(self)@.phase == Phase::Uninitialized && old(self)@.room is None ==> r is Ok
                && final(self)@ == (SessionModel {
                phase: Phase::RoomReady,
                room: Some(Room { utxo_id, output_address, public_key }),
                ..old(self)@
            }),
            !(old(self)@.phase == Phase::Uninitialized && old(self)@.room is None) ==> r == Err::<
                (),
                SessionError,
            >(SessionError { kind: ErrorKind::State, step: SessionStep::InitRoom })
                && final(self)@ == old(self)@,
    {
        if self.phase != Phase::Uninitialized || self.room.is_some() {
            return Err(SessionError { kind: ErrorKind::State, step: SessionStep::InitRoom });
        }
        self.room = Some(Room { utxo_id, output_address, public_key });
        self.phase = Phase::RoomReady;
        Ok(())
    }

    /// The join request for the room at Unix time `timestamp`, with the
    /// message to sign. Only a session whose room is ready may join.
    pub fn begin_join(&self, timestamp: u64) -> (r: Result<JoinRequest, SessionError>)
        ensures
            ready_for(self@, Phase::RoomReady) ==> (r matches Ok(j) && j.utxo_id@ == be_bytes(
                self@.room->Some_0.utxo_id.value(),
                32,
            ) && j.timestamp == timestamp && j.message@ == join_message_spec(
                self@.room->Some_0.utxo_id.value(),
                timestamp as nat,
            )),
            !ready_for(self@, Phase::RoomReady) ==> r == Err::<JoinRequest, SessionError>(
                SessionError { kind: ErrorKind::State, step: SessionStep::Join },
            ),
    {
        if self.phase != Phase::RoomReady {
            return Err(SessionError { kind: ErrorKind::State, step: SessionStep::Join });
        }
        match &self.room {
            None => Err(SessionError { kind: ErrorKind::State, step: SessionStep::Join }),
            Some(room) => {
                let message = join_message(&room.utxo_id, timestamp);
                let utxo_id = room.utxo_id.to_big_endian();
                Ok(JoinRequest { utxo_id, timestamp, message })
            },
        }
    }

    /// Takes the coordinator's answer to the join call: the room credential
    /// when it holds one.
    pub fn complete_join(&mut self, room_credential: Option<String>) -> (r: Result<
        (),
        SessionError,
    >)
        ensures
            !ready_for(old(self)@, Phase::RoomReady) ==> r == Err::<(), SessionError>(
                SessionError { kind: ErrorKind::State, step: SessionStep::Join },
            ) && final(self)@ == old(self)@,
            ready_for(old(self)@, Phase::RoomReady) && room_credential is None ==> r == Err::<
                (),
                SessionError,
            >(SessionError { kind: ErrorKind::Protocol, step: SessionStep::Join })
                && final(self)@ == (SessionModel { phase: Phase::Failed, ..old(self)@ }),
            ready_for(old(self)@, Phase::RoomReady) && room_credential is Some ==> r is Ok
                && final(self)@ == (SessionModel {
                phase: Phase::Joined,
                credential: room_credential->Some_0@,
                ..old(self)@
            }),
    {
        if self.phase != Phase::RoomReady || self.room.is_none() {
            return Err(SessionError { kind: ErrorKind::State, step: SessionStep::Join });
        }
        match room_credential {
            None => {
                self.phase = Phase::Failed;
                Err(SessionError { kind: ErrorKind::Protocol, step: SessionStep::Join })
            },
            Some(token) => {
                self.credential = token;
                self.phase = Phase::Joined;
                Ok(())
            },
        }
    }

    /// The readiness query, sent every `POLL_INTERVAL_SECS` seconds while the
    /// session is joined. The caller runs the wait and may stop it at any
    /// time with `abort`: the session sets no bound of its own.
    pub fn readiness_query(&self) -> (r: Result<OutboundCall, SessionError>)
        ensures
            ready_for(self@, Phase::Joined) ==> (r matches Ok(c) && c.authorization matches Some(
                a,
            ) && a@ == bearer(self@.credential) && c.request is IsReadyToShuffle),
            !ready_for(self@, Phase::Joined) ==> r == Err::<OutboundCall, SessionError>(
                SessionError { kind: ErrorKind::State, step: SessionStep::WaitReady },
            ),
    {
        if self.phase != Phase::Joined || self.room.is_none() {
            return Err(SessionError { kind: ErrorKind::State, step: SessionStep::WaitReady });
        }
        Ok(self.authorize(Request::IsReadyToShuffle))
    }

    /// Takes the answer to a readiness query: `Ok(true)` ends the wait,
    /// `Ok(false)` asks for another query.
    pub fn on_ready_response(&mut self, ready: bool) -> (r: Result<bool, SessionError>)
        ensures
            final(self)@ == poll_state(old(self)@, ready),
            ready_for(old(self)@, Phase::Joined) ==> r == Ok::<bool, SessionError>(ready),
            !ready_for(old(self)@, Phase::Joined) ==> r == Err::<bool, SessionError>(
                SessionError { kind: ErrorKind::State, step: SessionStep::WaitReady },
            ),
    {
        if self.phase != Phase::Joined || self.room.is_none() {
            return Err(SessionError { kind: ErrorKind::State, step: SessionStep::WaitReady });
        }
        if ready {
            self.phase = Phase::Waiting;
        }
        Ok(ready)
    }

    /// The call that opens the event stream, with the participant's public
    /// key.
    pub fn connect_call(&self) -> (r: Result<OutboundCall, SessionError>)
        ensures
            ready_for(self@, Phase::Waiting) ==> (r matches Ok(c) && c.authorization matches Some(
                a,
            ) && a@ == bearer(self@.credential) && (c.request matches Request::ConnectRoom {
                modulus,
                exponent,
            } && modulus@ == self@.room->Some_0.public_key.modulus@ && exponent@
                == self@.room->Some_0.public_key.exponent@)),
            !ready_for(self@, Phase::Waiting) ==> r == Err::<OutboundCall, SessionError>(
                SessionError { kind: ErrorKind::State, step: SessionStep::Connect },
            ),
    {
        if self.phase != Phase::Waiting {
            return Err(SessionError { kind: ErrorKind::State, step: SessionStep::Connect });
        }
        match &self.room {
            None => Err(SessionError { kind: ErrorKind::State, step: SessionStep::Connect }),
            Some(room) => {
                let modulus = copy_bytes(&room.public_key.modulus);
                let exponent = copy_bytes(&room.public_key.exponent);
                Ok(self.authorize(Request::ConnectRoom { modulus, exponent }))
            },
        }
    }

    /// Records that the event stream is open.
    pub fn stream_opened(&mut self) -> (r: Result<(), SessionError>)
        ensures
            ready_for(old(self)@, Phase::Waiting) ==> r is Ok && final(self)@ == (SessionModel {
                phase: Phase::Streaming,
                ..old(self)@
            }),
            !ready_for(old(self)@, Phase::Waiting) ==> r == Err::<(), SessionError>(
                SessionError { kind: ErrorKind::State, step: SessionStep::Connect },
            ) && final(self)@ == old(self)@,
    {
        if self.phase != Phase::Waiting || self.room.is_none() {
            return Err(SessionError { kind: ErrorKind::State, step: SessionStep::Connect });
        }
        self.phase = Phase::Streaming;
        Ok(())
    }
}

impl Session {
    /// Handles one event of the coordinator's stream, in arrival order: an
    /// empty event changes nothing, a roster replaces the credential and is
    /// checked key by key, round and signing inputs go to the mixing engine,
    /// a transaction hash completes the session, and a coordinator error is
    /// reported and then handled by the session's policy.
    pub fn handle_event(&mut self, event: Option<EventBody>) -> (r: Result<Action, SessionError>)
        ensures
            final(self)@ == next_state(old(self)@, event),
            event_result(old(self)@, event, r),
    {
        if self.phase != Phase::Streaming {
            return Err(SessionError { kind: ErrorKind::State, step: SessionStep::Stream });
        }
        let utxo_id = match &self.room {
            None => {
                return Err(SessionError { kind: ErrorKind::State, step: SessionStep::Stream });
            },
            Some(room) => room.utxo_id,
        };
        match event {
            None => Ok(Action::Skip),
            Some(EventBody::RosterAndToken { token, public_keys }) => {
                self.credential = token;
                match decode_roster(&public_keys) {
                    Some(roster) => Ok(Action::UpdateShuffleInfo { roster, utxo_id }),
                    None => {
                        self.phase = Phase::Failed;
                        Err(SessionError { kind: ErrorKind::Protocol, step: SessionStep::ShuffleInfo })
                    },
                }
            },
            Some(EventBody::EncodedRoundInput { outputs }) => Ok(
                Action::ShuffleRound { outputs, utxo_id },
            ),
            Some(EventBody::SigningInput { outputs }) => Ok(Action::SignTx { utxo_id, outputs }),
            Some(EventBody::TransactionHash { tx_hash }) => {
                self.phase = Phase::Completed;
                Ok(Action::Completed { tx_hash })
            },
            Some(EventBody::ProtocolError { error }) => {
                if self.policy == ErrorEventPolicy::Abort {
                    self.phase = Phase::Failed;
                }
                Ok(Action::CoordinatorError { error })
            },
        }
    }

    /// The call that submits this participant's re-encoded outputs for a
    /// round.
    pub fn round_result_call(&self, encoded_outputs: Vec<Vec<u8>>) -> (r: Result<
        OutboundCall,
        SessionError,
    >)
        ensures
            ready_for(self@, Phase::Streaming) ==> (r matches Ok(c) && c.authorization matches Some(
                a,
            ) && a@ == bearer(self@.credential) && (c.request matches Request::SubmitRoundResult {
                encoded_outputs: o,
            } && o == encoded_outputs)),
            !ready_for(self@, Phase::Streaming) ==> r == Err::<OutboundCall, SessionError>(
                SessionError { kind: ErrorKind::State, step: SessionStep::ShuffleRound },
            ),
    {
        if self.phase != Phase::Streaming || self.room.is_none() {
            return Err(SessionError { kind: ErrorKind::State, step: SessionStep::ShuffleRound });
        }
        Ok(self.authorize(Request::SubmitRoundResult { encoded_outputs }))
    }

    /// The call that submits this participant's signature of the mixed
    /// transaction.
    pub fn signing_result_call(&self, signature: Vec<u8>) -> (r: Result<
        OutboundCall,
        SessionError,
    >)
        ensures
            ready_for(self@, Phase::Streaming) ==> (r matches Ok(c) && c.authorization matches Some(
                a,
            ) && a@ == bearer(self@.credential) && (c.request matches Request::SubmitSigningResult {
                signature: sig,
            } && sig == signature)),
            !ready_for(self@, Phase::Streaming) ==> r == Err::<OutboundCall, SessionError>(
                SessionError { kind: ErrorKind::State, step: SessionStep::SignTx },
            ),
    {
        if self.phase != Phase::Streaming || self.room.is_none() {
            return Err(SessionError { kind: ErrorKind::State, step: SessionStep::SignTx });
        }
        Ok(self.authorize(Request::SubmitSigningResult { signature }))
    }

    /// Records a failure that the caller met while performing a step (a
    /// rejected signature, a broken call): the session has failed, unless it
    /// had already completed.
    pub fn abort(&mut self, kind: ErrorKind, step: SessionStep) -> (r: SessionError)
        ensures
            r == (SessionError { kind, step }),
            final(self)@ == (SessionModel {
                phase: if old(self)@.phase == Phase::Completed {
                    Phase::Completed
                } else {
                    Phase::Failed
                },
                ..old(self)@
            }),
    {
        if self.phase != Phase::Completed {
            self.phase = Phase::Failed;
        }
        SessionError { kind, step }
    }

    /// Ends the session: it succeeded only if a transaction hash arrived;
    /// otherwise it has failed. Returns the final phase.
    pub fn finish(&mut self) -> (r: Phase)
        ensures
            r == final(self)@.phase,
            final(self)@ == (SessionModel {
                phase: if old(self)@.phase == Phase::Completed {
                    Phase::Completed
                } else {
                    Phase::Failed
                },
                ..old(self)@
            }),
    {
        if self.phase != Phase::Completed {
            self.phase = Phase::Failed;
        }
        self.phase
    }
}

/// Decodes each key of a roster; `None` as soon as one is malformed.
fn decode_roster(keys: &Vec<PublicKeyParts>) -> (r: Option<Vec<PublicKeyParts>>)
    ensures
        r is Some <==> all_keys_accepted(keys@),
        r matches Some(roster) ==> key_fields(roster@) == roster_of(keys@),
{
    let mut roster: Vec<PublicKeyParts> = Vec::new();
    let mut i: usize = 0;
    while i < keys.len()
        invariant
            i <= keys.len(),
            all_keys_accepted(keys@.subrange(0, i as int)),
            key_fields(roster@) == roster_of(keys@.subrange(0, i as int)),
        decreases keys.len() - i,
    {
        match decode_public_key(&keys[i]) {
            None => {
                assert(!all_keys_accepted(keys@)) by {
                    assert(!key_accepted(keys@[i as int].modulus@, keys@[i as int].exponent@));
                }
                return None;
            },
            Some(k) => {
                let ghost old_roster = roster@;
                roster.insert(0, k);
                proof {
                    let pre = keys@.subrange(0, i as int);
                    let next = keys@.subrange(0, i + 1);
                    assert(roster@ == old_roster.insert(0, k));
                    assert(key_fields(roster@) =~= roster_of(next)) by {
                        assert(key_fields(old_roster) == roster_of(pre));
                        assert(key_fields(old_roster).len() == old_roster.len());
                        assert(roster@.len() == next.len());
                        assert(key_fields(roster@).len() == roster_of(next).len());
                        assert forall|j: int| 0 <= j < roster@.len() implies key_fields(
                            roster@,
                        )[j] == roster_of(next)[j] by {
                            if j > 0 {
                                assert(roster@[j] == old_roster[j - 1]);
                                assert(key_fields(old_roster)[j - 1] == roster_of(pre)[j - 1]);
                                assert(next[next.len() - 1 - j] == pre[pre.len() - 1 - (j - 1)]);
                            } else {
                                assert(roster@[0] == k);
                                assert(next[next.len() - 1] == keys@[i as int]);
                            }
                        }
                    }
                    assert(all_keys_accepted(next)) by {
                        assert forall|j: int| 0 <= j < next.len() implies key_accepted(
                            #[trigger] next[j].modulus@,
                            next[j].exponent@,
                        ) by {
                            if j < i {
                                assert(next[j] == pre[j]);
                            }
                        }
                    }
                }
                i = i + 1;
            },
        }
    }
    assert(keys@.subrange(0, i as int) == keys@);
    Some(roster)
}

/// A copy of a byte string.
fn copy_bytes(v: &Vec<u8>) -> (r: Vec<u8>)
    ensures
        r@ == v@,
{
    let mut out: Vec<u8> = Vec::new();
    let mut i: usize = 0;
    while i < v.len()
        invariant
            i <= v.len(),
            out@ == v@.subrange(0, i as int),
        decreases v.len() - i,
    {
        out.push(v[i]);
        i = i + 1;
        assert(out@ == v@.subrange(0, i as int));
    }
    assert(out@ == v@);
    out
}

} // verus!
