use crate::keys::PublicKeyParts;
use crate::session::{
    all_keys_accepted, bearer, next_state, poll_state, ready_for, run_events, run_polls,
    EventBody, Phase, SessionModel,
};
use vstd::prelude::*;

verus! {

/// The position of a phase in the session's order; the two ends share the
/// last one.
pub open spec fn phase_rank(p: Phase) -> nat {
    match p {
        Phase::Uninitialized => 0,
        Phase::RoomReady => 1,
        Phase::Joined => 2,
        Phase::Waiting => 3,
        Phase::Streaming => 4,
        Phase::Completed => 5,
        Phase::Failed => 5,
    }
}

/// Neither an event nor a readiness answer moves a session back: its phase
/// keeps or raises its rank, and a session that has ended stays as it is.
pub proof fn lemma_phases_move_forward(m: SessionModel, event: Option<EventBody>, ready: bool)
    ensures
        phase_rank(next_state(m, event).phase) >= phase_rank(m.phase),
        phase_rank(poll_state(m, ready).phase) >= phase_rank(m.phase),
        m.phase == Phase::Completed || m.phase == Phase::Failed ==> next_state(m, event) == m
            && poll_state(m, ready) == m,
{
}

/// An event with no populated variant leaves the whole state as it was, its
/// phase and credential included.
pub proof fn lemma_empty_event_keeps_state(m: SessionModel)
    ensures
        next_state(m, None) == m,
        next_state(m, None).phase == m.phase,
        next_state(m, None).credential == m.credential,
{
}

/// Whether an event of the stream carries a roster and a new credential.
pub open spec fn is_roster(e: Option<EventBody>) -> bool {
    e matches Some(EventBody::RosterAndToken { .. })
}

proof fn lemma_credential_kept(m: SessionModel, e: Option<EventBody>)
    requires
        !is_roster(e),
    ensures
        next_state(m, e).credential == m.credential,
        next_state(m, e).room == m.room,
{
}

proof fn lemma_run_keeps_credential(m: SessionModel, events: Seq<Option<EventBody>>)
    requires
        forall|i: int| 0 <= i < events.len() ==> !is_roster(#[trigger] events[i]),
    ensures
        run_events(m, events).credential == m.credential,
    decreases events.len(),
{
    if events.len() > 0 {
        let p = events.drop_last();
        assert forall|i: int| 0 <= i < p.len() implies !is_roster(#[trigger] p[i]) by {
            assert(p[i] == events[i]);
        }
        lemma_run_keeps_credential(m, p);
        lemma_credential_kept(run_events(m, p), events.last());
    }
}

/// After a roster event on a streaming session, the credential is the one
/// that the event carried, and it stays so over any later events that bring
/// no new roster: every authenticated call from then on carries it as its
/// bearer header.
pub proof fn lemma_credential_rotation(
    m: SessionModel,
    token: String,
    public_keys: Vec<PublicKeyParts>,
    later: Seq<Option<EventBody>>,
)
    requires
        ready_for(m, Phase::Streaming),
        forall|i: int| 0 <= i < later.len() ==> !is_roster(#[trigger] later[i]),
    ensures
        forall|k: int|
            0 <= k <= later.len() ==> (#[trigger] run_events(
                next_state(m, Some(EventBody::RosterAndToken { token, public_keys })),
                later.take(k),
            )).credential == token@ && bearer(
                run_events(
                    next_state(m, Some(EventBody::RosterAndToken { token, public_keys })),
                    later.take(k),
                ).credential,
            ) == bearer(token@),
{
    let after = next_state(m, Some(EventBody::RosterAndToken { token, public_keys }));
    assert(after.credential == token@);
    assert forall|k: int| 0 <= k <= later.len() implies (#[trigger] run_events(
        after,
        later.take(k),
    )).credential == token@ by {
        let t = later.take(k);
        assert forall|i: int| 0 <= i < t.len() implies !is_roster(#[trigger] t[i]) by {
            assert(t[i] == later[i]);
        }
        lemma_run_keeps_credential(after, t);
    }
}

/// A roster of acceptable keys, a round input and a transaction hash, in
/// that order, take a streaming session to completion; it is still
/// streaming after the first two.
pub proof fn lemma_roster_round_hash_completes(
    m: SessionModel,
    token: String,
    public_keys: Vec<PublicKeyParts>,
    outputs: Vec<Vec<u8>>,
    tx_hash: Vec<u8>,
)
    requires
        ready_for(m, Phase::Streaming),
        all_keys_accepted(public_keys@),
    ensures
        ({
            let events = seq![
                Some(EventBody::RosterAndToken { token, public_keys }),
                Some(EventBody::EncodedRoundInput { outputs }),
                Some(EventBody::TransactionHash { tx_hash }),
            ];
            &&& run_events(m, events.take(2)).phase == Phase::Streaming
            &&& run_events(m, events).phase == Phase::Completed
        }),
{
    let events = seq![
        Some(EventBody::RosterAndToken { token, public_keys }),
        Some(EventBody::EncodedRoundInput { outputs }),
        Some(EventBody::TransactionHash { tx_hash }),
    ];
    assert(events.drop_last() =~= events.take(2));
    assert(events.take(2).drop_last() =~= events.take(1));
    assert(events.take(1).drop_last() =~= Seq::<Option<EventBody>>::empty());
    let s0 = run_events(m, events.take(1).drop_last());
    assert(s0 == m);
    let s1 = next_state(m, events[0]);
    assert(events.take(1).last() == events[0]);
    assert(run_events(m, events.take(1)) == s1);
    assert(s1.phase == Phase::Streaming && s1.room == m.room);
    let s2 = next_state(s1, events[1]);
    assert(events.take(2).last() == events[1]);
    assert(run_events(m, events.take(2)) == s2);
    assert(s2 == s1);
    assert(events.last() == events[2]);
    assert(run_events(m, events) == next_state(s2, events[2]));
}

proof fn lemma_run_polls_phase(m: SessionModel, responses: Seq<bool>)
    requires
        ready_for(m, Phase::Joined),
    ensures
        run_polls(m, responses).phase == if responses.contains(true) {
            Phase::Waiting
        } else {
            Phase::Joined
        },
        run_polls(m, responses).room == m.room,
    decreases responses.len(),
{
    if responses.len() > 0 {
        let p = responses.drop_last();
        lemma_run_polls_phase(m, p);
        if p.contains(true) {
            let i = choose|i: int| 0 <= i < p.len() && p[i] == true;
            assert(responses[i] == true);
        }
        if responses.contains(true) && !responses.last() {
            let i = choose|i: int| 0 <= i < responses.len() && responses[i] == true;
            assert(p[i] == true);
        }
        if responses.last() {
            assert(responses[responses.len() - 1] == true);
        }
    }
}

/// The readiness wait ends on, and only on, a `ready` answer: after any run
/// of answers, a joined session still polls exactly when none of them was
/// `true`, and waits for the stream as soon as one was.
pub proof fn lemma_poll_ends_only_on_ready(m: SessionModel, responses: Seq<bool>)
    requires
        ready_for(m, Phase::Joined),
    ensures
        forall|k: int|
            0 <= k <= responses.len() ==> (#[trigger] run_polls(m, responses.take(k))).phase == if responses.take(
                k,
            ).contains(true) {
                Phase::Waiting
            } else {
                Phase::Joined
            },
{
    assert forall|k: int| 0 <= k <= responses.len() implies (#[trigger] run_polls(
        m,
        responses.take(k),
    )).phase == if responses.take(k).contains(true) {
        Phase::Waiting
    } else {
        Phase::Joined
    } by {
        lemma_run_polls_phase(m, responses.take(k));
    }
}

} // verus!
