use shuffle_client::{
    authorization_value, decode_public_key, join_message, u64_to_be_bytes, Action,
    ErrorEventPolicy, ErrorKind, EventBody, OutboundCall, Phase, PublicKeyParts, Request, Session,
    SessionError, SessionStep, UtxoId, MESSAGE_LEN, POLL_INTERVAL_SECS,
};

fn utxo(last: u8) -> UtxoId {
    let mut be = [0u8; 32];
    be[0] = 0xAB;
    be[31] = last;
    UtxoId::from_be_bytes(be)
}

fn key(modulus: &[u8], exponent: &[u8]) -> PublicKeyParts {
    PublicKeyParts { modulus: modulus.to_vec(), exponent: exponent.to_vec() }
}

fn own_key() -> PublicKeyParts {
    key(&[0xC5, 0x3F, 0x11], &[0x01, 0x00, 0x01])
}

fn header(call: &OutboundCall) -> String {
    call.authorization.clone().expect("authenticated call")
}

fn streaming_session(policy: ErrorEventPolicy) -> Session {
    let mut s = Session::new(policy);
    s.init_room(utxo(7), vec![0x11; 20], own_key()).unwrap();
    let join = s.begin_join(1_700_000_000).unwrap();
    let _call = join.into_call(vec![1, 2, 3]);
    s.complete_join(Some("room-token".to_string())).unwrap();
    assert_eq!(s.on_ready_response(true), Ok(true));
    s.connect_call().unwrap();
    s.stream_opened().unwrap();
    s
}

fn roster_event(token: &str) -> Option<EventBody> {
    Some(EventBody::RosterAndToken {
        token: token.to_string(),
        public_keys: vec![own_key(), key(&[0xE1, 0x07], &[0x03])],
    })
}

#[test]
fn join_message_is_id_then_timestamp() {
    let id = utxo(0x42);
    let msg = join_message(&id, 0x0102_0304_0506_0708);
    assert_eq!(msg.len(), MESSAGE_LEN);
    let mut expected = vec![0u8; 32];
    expected[0] = 0xAB;
    expected[31] = 0x42;
    expected.extend_from_slice(&[1, 2, 3, 4, 5, 6, 7, 8]);
    assert_eq!(msg, expected);
    assert_eq!(id.to_big_endian(), expected[..32].to_vec());
}

#[test]
fn join_message_of_zero_id_and_time() {
    let msg = join_message(&UtxoId::from_be_bytes([0u8; 32]), 0);
    assert_eq!(msg, vec![0u8; 40]);
}

#[test]
fn timestamp_bytes_are_big_endian() {
    assert_eq!(u64_to_be_bytes(1_700_000_000), 1_700_000_000u64.to_be_bytes().to_vec());
    assert_eq!(u64_to_be_bytes(u64::MAX), vec![0xFF; 8]);
    assert_eq!(u64_to_be_bytes(256), vec![0, 0, 0, 0, 0, 0, 1, 0]);
}

#[test]
fn public_key_round_trip_is_byte_identical() {
    let raw = key(&[0xC5, 0x3F, 0x11], &[0x01, 0x00, 0x01]);
    let k = decode_public_key(&raw).expect("valid key");
    assert_eq!(k, raw);
    assert_eq!(decode_public_key(&k), Some(k.clone()));
}

#[test]
fn public_key_leading_zeros_are_dropped() {
    let raw = key(&[0x00, 0x00, 0xC5, 0x01], &[0x00, 0x03]);
    let k = decode_public_key(&raw).expect("valid key");
    assert_eq!(k.modulus, vec![0xC5, 0x01]);
    assert_eq!(k.exponent, vec![0x03]);
}

#[test]
fn public_key_empty_modulus_reads_back_as_zero() {
    let k = decode_public_key(&key(&[], &[0x03])).expect("accepted");
    assert_eq!(k.modulus, vec![0]);
}

#[test]
fn public_key_bad_exponents_are_rejected() {
    assert_eq!(decode_public_key(&key(&[0xC5], &[0x01])), None);
    assert_eq!(decode_public_key(&key(&[0xC5], &[])), None);
    assert_eq!(decode_public_key(&key(&[0xC5], &[0x02, 0x00, 0x00, 0x00, 0x00])), None);
    assert!(decode_public_key(&key(&[0xC5], &[0x01, 0xFF, 0xFF, 0xFF, 0xFF])).is_some());
    assert!(decode_public_key(&key(&[0xC5], &[0x02])).is_some());
}

#[test]
fn public_key_modulus_size_limit() {
    assert!(decode_public_key(&key(&vec![0xFF; 512], &[0x03])).is_some());
    let mut big = vec![0x01];
    big.extend(vec![0x00; 512]);
    assert_eq!(decode_public_key(&key(&big, &[0x03])), None);
}

#[test]
fn authorization_header_carries_token() {
    assert_eq!(authorization_value(&"abc.def".to_string()), "Bearer abc.def");
    assert_eq!(authorization_value(&String::new()), "Bearer ");
}

#[test]
fn join_before_init_fails_without_call() {
    let mut s = Session::new(ErrorEventPolicy::Continue);
    let r = s.begin_join(1_700_000_000);
    assert_eq!(
        r.err(),
        Some(SessionError { kind: ErrorKind::State, step: SessionStep::Join })
    );
    assert_eq!(
        s.complete_join(Some("t".to_string())),
        Err(SessionError { kind: ErrorKind::State, step: SessionStep::Join })
    );
    assert_eq!(s.phase(), Phase::Uninitialized);
    assert_eq!(s.credential(), "");
    assert!(s.readiness_query().is_err());
    assert!(s.connect_call().is_err());
    assert!(s.round_result_call(vec![]).is_err());
}

#[test]
fn init_room_twice_is_a_state_error() {
    let mut s = Session::new(ErrorEventPolicy::Continue);
    assert_eq!(s.init_room(utxo(1), vec![1; 20], own_key()), Ok(()));
    assert_eq!(s.phase(), Phase::RoomReady);
    assert_eq!(
        s.init_room(utxo(2), vec![2; 20], own_key()),
        Err(SessionError { kind: ErrorKind::State, step: SessionStep::InitRoom })
    );
    assert_eq!(s.room().as_ref().unwrap().utxo_id, utxo(1));
}

#[test]
fn join_request_fields_and_credential() {
    let mut s = Session::new(ErrorEventPolicy::Continue);
    s.init_room(utxo(9), vec![3; 20], own_key()).unwrap();
    let join = s.begin_join(5).unwrap();
    assert_eq!(join.timestamp, 5);
    assert_eq!(join.utxo_id, utxo(9).to_big_endian());
    assert_eq!(join.message, join_message(&utxo(9), 5));
    let call = join.into_call(vec![9, 9]);
    assert!(call.authorization.is_none());
    match call.request {
        Request::JoinRoom { utxo_id, timestamp, signature } => {
            assert_eq!(utxo_id, utxo(9).to_big_endian());
            assert_eq!(timestamp, 5);
            assert_eq!(signature, vec![9, 9]);
        }
        _ => panic!("not a join request"),
    }
    s.complete_join(Some("room-token".to_string())).unwrap();
    assert_eq!(s.phase(), Phase::Joined);
    assert_eq!(header(&s.readiness_query().unwrap()), "Bearer room-token");
}

#[test]
fn missing_room_credential_is_a_protocol_error() {
    let mut s = Session::new(ErrorEventPolicy::Continue);
    s.init_room(utxo(9), vec![3; 20], own_key()).unwrap();
    assert_eq!(
        s.complete_join(None),
        Err(SessionError { kind: ErrorKind::Protocol, step: SessionStep::Join })
    );
    assert_eq!(s.phase(), Phase::Failed);
}

#[test]
fn readiness_poll_stops_on_third_answer() {
    let mut s = Session::new(ErrorEventPolicy::Continue);
    s.init_room(utxo(3), vec![3; 20], own_key()).unwrap();
    s.begin_join(1).unwrap();
    s.complete_join(Some("room".to_string())).unwrap();
    let script = [false, false, true];
    let mut queries = 0;
    let mut next = 0;
    loop {
        let call = s.readiness_query().unwrap();
        assert!(matches!(call.request, Request::IsReadyToShuffle));
        queries += 1;
        let ready = script[next];
        next += 1;
        if s.on_ready_response(ready).unwrap() {
            break;
        }
    }
    assert_eq!(queries, 3);
    assert_eq!(s.phase(), Phase::Waiting);
    assert!(s.readiness_query().is_err());
    assert_eq!(POLL_INTERVAL_SECS, 30);
}

#[test]
fn connect_call_sends_own_public_key() {
    let mut s = Session::new(ErrorEventPolicy::Continue);
    s.init_room(utxo(3), vec![3; 20], own_key()).unwrap();
    s.begin_join(1).unwrap();
    s.complete_join(Some("room".to_string())).unwrap();
    assert!(s.connect_call().is_err());
    s.on_ready_response(true).unwrap();
    let call = s.connect_call().unwrap();
    assert_eq!(header(&call), "Bearer room");
    match call.request {
        Request::ConnectRoom { modulus, exponent } => {
            assert_eq!(modulus, own_key().modulus);
            assert_eq!(exponent, own_key().exponent);
        }
        _ => panic!("not a connect request"),
    }
    s.stream_opened().unwrap();
    assert!(s.is_streaming());
}

#[test]
fn roster_round_hash_completes_with_one_submission() {
    let mut s = streaming_session(ErrorEventPolicy::Continue);
    let events = vec![
        roster_event("shuffle-token"),
        Some(EventBody::EncodedRoundInput { outputs: vec![vec![1, 2], vec![3]] }),
        Some(EventBody::TransactionHash { tx_hash: vec![0xEE; 32] }),
    ];
    let mut submissions = Vec::new();
    let mut round_between = Vec::new();
    for (i, event) in events.into_iter().enumerate() {
        match s.handle_event(event).unwrap() {
            Action::UpdateShuffleInfo { roster, utxo_id } => {
                assert_eq!(roster.len(), 2);
                assert_eq!(utxo_id, utxo(7));
            }
            Action::ShuffleRound { outputs, utxo_id } => {
                assert_eq!(outputs, vec![vec![1, 2], vec![3]]);
                assert_eq!(utxo_id, utxo(7));
                let contribution = vec![vec![9, 9, 9]];
                let call = s.round_result_call(contribution).unwrap();
                submissions.push(call);
                round_between.push(i);
            }
            Action::Completed { tx_hash } => assert_eq!(tx_hash, vec![0xEE; 32]),
            _ => panic!("unexpected action"),
        }
    }
    assert_eq!(submissions.len(), 1);
    assert_eq!(round_between, vec![1]);
    assert_eq!(s.phase(), Phase::Completed);
    assert_eq!(s.finish(), Phase::Completed);
}

#[test]
fn roster_is_handed_over_last_first() {
    let mut s = streaming_session(ErrorEventPolicy::Continue);
    match s.handle_event(roster_event("t")).unwrap() {
        Action::UpdateShuffleInfo { roster, .. } => {
            assert_eq!(roster, vec![key(&[0xE1, 0x07], &[0x03]), own_key()]);
        }
        _ => panic!("unexpected action"),
    }
}

#[test]
fn empty_event_changes_nothing() {
    let mut s = streaming_session(ErrorEventPolicy::Continue);
    let before_phase = s.phase();
    let before_token = s.credential().clone();
    assert!(matches!(s.handle_event(None), Ok(Action::Skip)));
    assert_eq!(s.phase(), before_phase);
    assert_eq!(s.credential(), &before_token);
    assert_eq!(before_token, "room-token");
}

#[test]
fn credential_rotates_after_roster() {
    let mut s = streaming_session(ErrorEventPolicy::Continue);
    assert_eq!(header(&s.round_result_call(vec![]).unwrap()), "Bearer room-token");
    s.handle_event(roster_event("shuffle-token")).unwrap();
    assert_eq!(header(&s.round_result_call(vec![vec![1]]).unwrap()), "Bearer shuffle-token");
    s.handle_event(None).unwrap();
    s.handle_event(Some(EventBody::EncodedRoundInput { outputs: vec![] })).unwrap();
    assert_eq!(header(&s.round_result_call(vec![]).unwrap()), "Bearer shuffle-token");
    s.handle_event(Some(EventBody::SigningInput { outputs: vec![vec![4]] })).unwrap();
    let call = s.signing_result_call(vec![7, 7]).unwrap();
    assert_eq!(header(&call), "Bearer shuffle-token");
    match call.request {
        Request::SubmitSigningResult { signature } => assert_eq!(signature, vec![7, 7]),
        _ => panic!("not a signing submission"),
    }
}

#[test]
fn malformed_roster_key_fails_session() {
    let mut s = streaming_session(ErrorEventPolicy::Continue);
    let event = Some(EventBody::RosterAndToken {
        token: "shuffle-token".to_string(),
        public_keys: vec![own_key(), key(&[0xC5], &[0x01])],
    });
    assert_eq!(
        s.handle_event(event).err(),
        Some(SessionError { kind: ErrorKind::Protocol, step: SessionStep::ShuffleInfo })
    );
    assert_eq!(s.phase(), Phase::Failed);
    assert_eq!(s.credential(), "shuffle-token");
    assert!(s.handle_event(None).is_err());
}

#[test]
fn signing_input_goes_to_engine() {
    let mut s = streaming_session(ErrorEventPolicy::Continue);
    match s.handle_event(Some(EventBody::SigningInput { outputs: vec![vec![5, 6]] })).unwrap() {
        Action::SignTx { utxo_id, outputs } => {
            assert_eq!(utxo_id, utxo(7));
            assert_eq!(outputs, vec![vec![5, 6]]);
        }
        _ => panic!("unexpected action"),
    }
}

#[test]
fn coordinator_error_continues_by_default() {
    let mut s = streaming_session(ErrorEventPolicy::Continue);
    let r = s.handle_event(Some(EventBody::ProtocolError { error: "boom".to_string() }));
    assert!(matches!(r, Ok(Action::CoordinatorError { ref error }) if error == "boom"));
    assert!(s.is_streaming());
}

#[test]
fn coordinator_error_aborts_under_abort_policy() {
    let mut s = streaming_session(ErrorEventPolicy::Abort);
    let r = s.handle_event(Some(EventBody::ProtocolError { error: "boom".to_string() }));
    assert!(matches!(r, Ok(Action::CoordinatorError { .. })));
    assert_eq!(s.phase(), Phase::Failed);
    assert_eq!(s.policy(), ErrorEventPolicy::Abort);
}

#[test]
fn stream_end_without_hash_fails() {
    let mut s = streaming_session(ErrorEventPolicy::Continue);
    s.handle_event(roster_event("t")).unwrap();
    assert_eq!(s.finish(), Phase::Failed);
}

#[test]
fn events_before_streaming_are_state_errors() {
    let mut s = Session::new(ErrorEventPolicy::Continue);
    assert_eq!(
        s.handle_event(None).err(),
        Some(SessionError { kind: ErrorKind::State, step: SessionStep::Stream })
    );
    assert_eq!(
        s.stream_opened(),
        Err(SessionError { kind: ErrorKind::State, step: SessionStep::Connect })
    );
    assert_eq!(s.phase(), Phase::Uninitialized);
}

#[test]
fn rejected_join_aborts_session() {
    let mut s = Session::new(ErrorEventPolicy::Continue);
    s.init_room(utxo(3), vec![3; 20], own_key()).unwrap();
    s.begin_join(1).unwrap();
    let e = s.abort(ErrorKind::Auth, SessionStep::Join);
    assert_eq!(e, SessionError { kind: ErrorKind::Auth, step: SessionStep::Join });
    assert_eq!(s.phase(), Phase::Failed);
    assert!(s.begin_join(2).is_err());
}

#[test]
fn abort_after_completion_keeps_completed() {
    let mut s = streaming_session(ErrorEventPolicy::Continue);
    s.handle_event(Some(EventBody::TransactionHash { tx_hash: vec![1] })).unwrap();
    let e = s.abort(ErrorKind::Transport, SessionStep::Stream);
    assert_eq!(e.kind, ErrorKind::Transport);
    assert_eq!(s.phase(), Phase::Completed);
}
