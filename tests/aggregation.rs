use lcp::{
    aggregate_messages, AggregationFailure, Any, EmittedState, Error, Height, StateID, Time,
    TrustingPeriodContext, UpdateClientMessage, ValidationContext, MAX_UNIX_TIMESTAMP_NANOS,
};

#[test]
fn test_update_client_message_aggregation() {
    {
        let msg0 = UpdateClientMessage {
            prev_height: Some(Height::new(1, 1)),
            prev_state_id: Some(StateID::from([1u8; 32])),
            post_height: Height::new(2, 2),
            post_state_id: StateID::from([2u8; 32]),
            timestamp: Time::from_unix_timestamp_nanos(1).unwrap(),
            context: ValidationContext::default(),
            emitted_states: vec![],
        };
        let msg1 = UpdateClientMessage {
            prev_height: Some(Height::new(2, 2)),
            prev_state_id: Some(StateID::from([2u8; 32])),
            post_height: Height::new(3, 3),
            post_state_id: StateID::from([3u8; 32]),
            timestamp: Time::from_unix_timestamp_nanos(2).unwrap(),
            context: ValidationContext::default(),
            emitted_states: vec![],
        };
        let expected = UpdateClientMessage {
            prev_height: Some(Height::new(1, 1)),
            prev_state_id: Some(StateID::from([1u8; 32])),
            post_height: Height::new(3, 3),
            post_state_id: StateID::from([3u8; 32]),
            timestamp: Time::from_unix_timestamp_nanos(2).unwrap(),
            context: ValidationContext::default(),
            emitted_states: vec![],
        };
        assert_eq!(aggregate_messages(vec![msg0, msg1]).unwrap(), expected);
    }
    {
        let msg0 = UpdateClientMessage {
            prev_height: Some(Height::new(1, 1)),
            prev_state_id: Some(StateID::from([1u8; 32])),
            post_height: Height::new(2, 2),
            post_state_id: StateID::from([2u8; 32]),
            timestamp: Time::from_unix_timestamp_nanos(1).unwrap(),
            context: ValidationContext::default(),
            emitted_states: vec![EmittedState(
                Height::new(1, 1),
                Any::new("/foo".to_string(), vec![1u8; 32]),
            )],
        };
        let msg1 = UpdateClientMessage {
            prev_height: Some(Height::new(2, 2)),
            prev_state_id: Some(StateID::from([2u8; 32])),
            post_height: Height::new(3, 3),
            post_state_id: StateID::from([3u8; 32]),
            timestamp: Time::from_unix_timestamp_nanos(2).unwrap(),
            context: ValidationContext::default(),
            emitted_states: vec![EmittedState(
                Height::new(2, 2),
                Any::new("/bar".to_string(), vec![2u8; 32]),
            )],
        };
        let expected = UpdateClientMessage {
            prev_height: Some(Height::new(1, 1)),
            prev_state_id: Some(StateID::from([1u8; 32])),
            post_height: Height::new(3, 3),
            post_state_id: StateID::from([3u8; 32]),
            timestamp: Time::from_unix_timestamp_nanos(2).unwrap(),
            context: ValidationContext::default(),
            emitted_states: vec![
                EmittedState(
                    Height::new(1, 1),
                    Any::new("/foo".to_string(), vec![1u8; 32]),
                ),
                EmittedState(
                    Height::new(2, 2),
                    Any::new("/bar".to_string(), vec![2u8; 32]),
                ),
            ],
        };
        assert_eq!(aggregate_messages(vec![msg0, msg1]).unwrap(), expected);
    }
    {
        // trusting period aggregation
        let msg0 = UpdateClientMessage {
            prev_height: Some(Height::new(1, 1)),
            prev_state_id: Some(StateID::from([1u8; 32])),
            post_height: Height::new(2, 2),
            post_state_id: StateID::from([2u8; 32]),
            timestamp: Time::from_unix_timestamp_nanos(1).unwrap(),
            context: TrustingPeriodContext::new(
                1_000_000_000,
                2_000_000_000,
                Time::from_unix_timestamp_nanos(1).unwrap(),
                Time::from_unix_timestamp_nanos(2).unwrap(),
            )
            .into(),
            emitted_states: vec![],
        };
        let msg1 = UpdateClientMessage {
            prev_height: Some(Height::new(2, 2)),
            prev_state_id: Some(StateID::from([2u8; 32])),
            post_height: Height::new(3, 3),
            post_state_id: StateID::from([3u8; 32]),
            timestamp: Time::from_unix_timestamp_nanos(2).unwrap(),
            context: TrustingPeriodContext::new(
                1_000_000_000,
                2_000_000_000,
                Time::from_unix_timestamp_nanos(2).unwrap(),
                Time::from_unix_timestamp_nanos(3).unwrap(),
            )
            .into(),
            emitted_states: vec![],
        };
        let expected = UpdateClientMessage {
            prev_height: Some(Height::new(1, 1)),
            prev_state_id: Some(StateID::from([1u8; 32])),
            post_height: Height::new(3, 3),
            post_state_id: StateID::from([3u8; 32]),
            timestamp: Time::from_unix_timestamp_nanos(2).unwrap(),
            context: TrustingPeriodContext::new(
                1_000_000_000,
                2_000_000_000,
                Time::from_unix_timestamp_nanos(2).unwrap(),
                Time::from_unix_timestamp_nanos(2).unwrap(),
            )
            .into(),
            emitted_states: vec![],
        };
        assert_eq!(aggregate_messages(vec![msg0, msg1]).unwrap(), expected);
    }
    {
        // invalid prev_state_id
        let msg0 = UpdateClientMessage {
            prev_height: Some(Height::new(1, 1)),
            prev_state_id: Some(StateID::from([1u8; 32])),
            post_height: Height::new(2, 2),
            post_state_id: StateID::from([2u8; 32]),
            timestamp: Time::from_unix_timestamp_nanos(1).unwrap(),
            context: ValidationContext::default(),
            emitted_states: vec![],
        };
        let msg1 = UpdateClientMessage {
            prev_height: Some(Height::new(2, 2)),
            prev_state_id: Some(StateID::from([3u8; 32])),
            post_height: Height::new(3, 3),
            post_state_id: StateID::from([3u8; 32]),
            timestamp: Time::from_unix_timestamp_nanos(2).unwrap(),
            context: ValidationContext::default(),
            emitted_states: vec![],
        };
        assert!(msg0.aggregate(msg1).is_err());
    }
    {
        // invalid prev_height
        let msg0 = UpdateClientMessage {
            prev_height: Some(Height::new(1, 1)),
            prev_state_id: Some(StateID::from([1u8; 32])),
            post_height: Height::new(2, 2),
            post_state_id: StateID::from([2u8; 32]),
            timestamp: Time::from_unix_timestamp_nanos(1).unwrap(),
            context: ValidationContext::default(),
            emitted_states: vec![],
        };
        let msg1 = UpdateClientMessage {
            prev_height: Some(Height::new(3, 3)),
            prev_state_id: Some(StateID::from([2u8; 32])),
            post_height: Height::new(3, 3),
            post_state_id: StateID::from([3u8; 32]),
            timestamp: Time::from_unix_timestamp_nanos(2).unwrap(),
            context: ValidationContext::default(),
            emitted_states: vec![],
        };
        assert!(msg0.aggregate(msg1).is_err());
    }
    {
        // empty messages
        assert!(aggregate_messages(vec![]).is_err());
    }
    {
        // single message
        let msg0 = UpdateClientMessage {
            prev_height: Some(Height::new(1, 1)),
            prev_state_id: Some(StateID::from([1u8; 32])),
            post_height: Height::new(2, 2),
            post_state_id: StateID::from([2u8; 32]),
            timestamp: Time::from_unix_timestamp_nanos(1).unwrap(),
            context: ValidationContext::default(),
            emitted_states: vec![],
        };
        assert_eq!(aggregate_messages(vec![msg0.clone()]).unwrap(), msg0);
    }
    {
        // three messages
        let msg0 = UpdateClientMessage {
            prev_height: Some(Height::new(1, 1)),
            prev_state_id: Some(StateID::from([1u8; 32])),
            post_height: Height::new(2, 2),
            post_state_id: StateID::from([2u8; 32]),
            timestamp: Time::from_unix_timestamp_nanos(1).unwrap(),
            context: ValidationContext::default(),
            emitted_states: vec![],
        };
        let msg1 = UpdateClientMessage {
            prev_height: Some(Height::new(2, 2)),
            prev_state_id: Some(StateID::from([2u8; 32])),
            post_height: Height::new(3, 3),
            post_state_id: StateID::from([3u8; 32]),
            timestamp: Time::from_unix_timestamp_nanos(2).unwrap(),
            context: ValidationContext::default(),
            emitted_states: vec![],
        };
        let msg2 = UpdateClientMessage {
            prev_height: Some(Height::new(3, 3)),
            prev_state_id: Some(StateID::from([3u8; 32])),
            post_height: Height::new(4, 4),
            post_state_id: StateID::from([4u8; 32]),
            timestamp: Time::from_unix_timestamp_nanos(3).unwrap(),
            context: ValidationContext::default(),
            emitted_states: vec![],
        };
        let expected = UpdateClientMessage {
            prev_height: Some(Height::new(1, 1)),
            prev_state_id: Some(StateID::from([1u8; 32])),
            post_height: Height::new(4, 4),
            post_state_id: StateID::from([4u8; 32]),
            timestamp: Time::from_unix_timestamp_nanos(3).unwrap(),
            context: ValidationContext::default(),
            emitted_states: vec![],
        };
        assert_eq!(
            aggregate_messages(vec![msg0, msg1, msg2]).unwrap(),
            expected
        );
    }
}

fn update(prev: Option<(u64, u64, u8)>, post: (u64, u64, u8), ts: u128) -> UpdateClientMessage {
    UpdateClientMessage {
        prev_height: prev.map(|p| Height::new(p.0, p.1)),
        prev_state_id: prev.map(|p| StateID::from([p.2; 32])),
        post_height: Height::new(post.0, post.1),
        post_state_id: StateID::from([post.2; 32]),
        timestamp: Time::from_unix_timestamp_nanos(ts).unwrap(),
        context: ValidationContext::default(),
        emitted_states: vec![],
    }
}

fn trusting(untrusted: u128, trusted: u128) -> ValidationContext {
    TrustingPeriodContext::new(
        1_000_000_000,
        2_000_000_000,
        Time::from_unix_timestamp_nanos(untrusted).unwrap(),
        Time::from_unix_timestamp_nanos(trusted).unwrap(),
    )
    .into()
}

#[test]
fn happy_path_composes_prev_of_first_and_post_of_last() {
    let m = aggregate_messages(vec![update(Some((1, 1, 1)), (2, 2, 2), 1), update(Some((2, 2, 2)), (3, 3, 3), 2)])
        .unwrap();
    assert_eq!(m.prev_height, Some(Height::new(1, 1)));
    assert_eq!(m.prev_state_id, Some(StateID::from([1u8; 32])));
    assert_eq!(m.post_height, Height::new(3, 3));
    assert_eq!(m.post_state_id, StateID::from([3u8; 32]));
    assert_eq!(m.timestamp, Time::from_unix_timestamp_nanos(2).unwrap());
}

#[test]
fn swapped_prev_state_id_is_rejected() {
    let mut second = update(Some((2, 2, 2)), (3, 3, 3), 2);
    second.prev_state_id = Some(StateID::from([9u8; 32]));
    let r = aggregate_messages(vec![update(Some((1, 1, 1)), (2, 2, 2), 1), second]);
    assert_eq!(r, Err(Error::MessageAggregationFailed(AggregationFailure::StateIdMismatch)));
}

#[test]
fn mismatched_prev_height_is_rejected() {
    let mut second = update(Some((2, 2, 2)), (3, 3, 3), 2);
    second.prev_height = Some(Height::new(2, 3));
    let r = update(Some((1, 1, 1)), (2, 2, 2), 1).aggregate(second);
    assert_eq!(r, Err(Error::MessageAggregationFailed(AggregationFailure::HeightMismatch)));
}

#[test]
fn empty_list_fails() {
    assert_eq!(
        aggregate_messages(vec![]),
        Err(Error::MessageAggregationFailed(AggregationFailure::Empty))
    );
}

#[test]
fn singleton_is_the_message_itself() {
    let mut m = update(Some((1, 1, 1)), (2, 2, 2), 1);
    m.emitted_states = vec![EmittedState(Height::new(1, 1), Any::new("/x".to_string(), vec![7]))];
    assert_eq!(aggregate_messages(vec![m.clone()]).unwrap(), m);
}

#[test]
fn absent_prev_reads_as_zero() {
    let first = update(None, (0, 0, 0), 1);
    let second = update(None, (1, 1, 1), 2);
    let m = first.aggregate(second).unwrap();
    assert_eq!(m.prev_height, None);
    assert_eq!(m.post_height, Height::new(1, 1));
}

#[test]
fn trusting_period_composition_takes_latest_untrusted_and_earliest_trusted() {
    let mut a = update(Some((1, 1, 1)), (2, 2, 2), 1);
    a.context = trusting(1_000_000_000, 2_000_000_000);
    let mut b = update(Some((2, 2, 2)), (3, 3, 3), 2);
    b.context = trusting(2_000_000_000, 3_000_000_000);
    let m = aggregate_messages(vec![a, b]).unwrap();
    assert_eq!(m.context, trusting(2_000_000_000, 2_000_000_000));
}

#[test]
fn trusting_period_composition_over_three() {
    let mut a = update(Some((1, 1, 1)), (2, 2, 2), 1);
    a.context = trusting(5, 9);
    let mut b = update(Some((2, 2, 2)), (3, 3, 3), 2);
    b.context = trusting(7, 4);
    let mut c = update(Some((3, 3, 3)), (4, 4, 4), 3);
    c.context = trusting(6, 8);
    let m = aggregate_messages(vec![a, b, c]).unwrap();
    assert_eq!(m.context, trusting(7, 4));
}

#[test]
fn mixed_contexts_fail() {
    let a = update(Some((1, 1, 1)), (2, 2, 2), 1);
    let mut b = update(Some((2, 2, 2)), (3, 3, 3), 2);
    b.context = trusting(1, 2);
    assert_eq!(
        a.aggregate(b),
        Err(Error::MessageAggregationFailed(AggregationFailure::ContextKindMismatch))
    );
}

#[test]
fn differing_trusting_parameters_fail() {
    let x = TrustingPeriodContext::new(1, 2, Time::from_unix_timestamp_nanos(1).unwrap(), Time::from_unix_timestamp_nanos(1).unwrap());
    let y = TrustingPeriodContext::new(3, 2, Time::from_unix_timestamp_nanos(1).unwrap(), Time::from_unix_timestamp_nanos(1).unwrap());
    let z = TrustingPeriodContext::new(1, 4, Time::from_unix_timestamp_nanos(1).unwrap(), Time::from_unix_timestamp_nanos(1).unwrap());
    assert_eq!(x.aggregate(y), Err(Error::MessageAggregationFailed(AggregationFailure::TrustingPeriodMismatch)));
    assert_eq!(x.aggregate(z), Err(Error::MessageAggregationFailed(AggregationFailure::ClockDriftMismatch)));
}

#[test]
fn emitted_states_concatenate_in_order() {
    let mut a = update(Some((1, 1, 1)), (2, 2, 2), 1);
    a.emitted_states = vec![EmittedState(Height::new(1, 1), Any::new("/a".to_string(), vec![1]))];
    let b = update(Some((2, 2, 2)), (3, 3, 3), 2);
    let mut c = update(Some((3, 3, 3)), (4, 4, 4), 3);
    c.emitted_states = vec![
        EmittedState(Height::new(3, 3), Any::new("/c".to_string(), vec![3])),
        EmittedState(Height::new(3, 4), Any::new("/d".to_string(), vec![4])),
    ];
    let m = aggregate_messages(vec![a, b, c]).unwrap();
    let urls: Vec<String> = m.emitted_states.iter().map(|e| e.1.type_url.clone()).collect();
    assert_eq!(urls, vec!["/a".to_string(), "/c".to_string(), "/d".to_string()]);
}

#[test]
fn time_past_the_maximum_is_refused() {
    assert_eq!(
        Time::from_unix_timestamp_nanos(MAX_UNIX_TIMESTAMP_NANOS + 1),
        Err(Error::TimestampOutOfRange)
    );
    assert_eq!(
        Time::from_unix_timestamp_nanos(MAX_UNIX_TIMESTAMP_NANOS).unwrap().as_unix_timestamp_nanos(),
        MAX_UNIX_TIMESTAMP_NANOS
    );
}
