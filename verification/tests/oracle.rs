use oracle_feed::mock::new_test_ext;
use oracle_feed::mock::run_to_block;
use oracle_feed::mock::ALICE;
use oracle_feed::mock::BOB;
use oracle_feed::Call;
use oracle_feed::Error;
use oracle_feed::Event;
use oracle_feed::InvalidTransaction;
use oracle_feed::OracleFeed;
use oracle_feed::TransactionSource;

#[test]
fn feed_call_works() {
    let mut ext = new_test_ext();
    assert_eq!(
        ext.oracle.feed_event(BOB, vec![1, 1], ext.timestamp),
        Err(Error::NotOperatorAccount)
    );
    assert_eq!(ext.oracle.get_most_recent_feed(), None);

    assert!(ext.oracle.feed_event(ALICE, vec![1, 1], ext.timestamp).is_ok());
    assert_eq!(ext.oracle.get_most_recent_feed().unwrap(), vec![1, 1]);
    assert_eq!(
        ext.oracle.last_deposited_event(),
        Some(Event::EventFeeded { time: 0 })
    );

    run_to_block(&mut ext, 5);
    assert!(ext.oracle.feed_event(ALICE, vec![2, 2], ext.timestamp).is_ok());
    assert_eq!(ext.oracle.get_most_recent_feed().unwrap(), vec![2, 2]);
    assert_eq!(
        ext.oracle.last_deposited_event(),
        Some(Event::EventFeeded { time: 35_000 })
    );
}

#[test]
fn remove_call_validation_works() {
    let mut ext = new_test_ext();
    run_to_block(&mut ext, 2);
    assert!(ext.oracle.feed_event(ALICE, vec![1, 1], ext.timestamp).is_ok());
    assert_eq!(
        ext.oracle.last_deposited_event(),
        Some(Event::EventFeeded { time: 32_000 })
    );
    run_to_block(&mut ext, 5);

    // Is not stale yet, so validation fails
    let call = Call::remove_stale_event { time: 32_000 };
    // invalid feed
    let call2 = Call::remove_stale_event { time: 32_001 };

    assert_eq!(
        ext.oracle
            .validate_unsigned(TransactionSource::External, ext.timestamp, ext.system_block, &call),
        Err(InvalidTransaction::Stale)
    );
    assert_eq!(ext.oracle.get_feed_at_time(32_000).unwrap(), vec![1, 1]);
    run_to_block(&mut ext, 13);

    assert_eq!(
        ext.oracle
            .validate_unsigned(TransactionSource::External, ext.timestamp, ext.system_block, &call2),
        Err(InvalidTransaction::Stale)
    );
    assert!(ext
        .oracle
        .validate_unsigned(TransactionSource::External, ext.timestamp, ext.system_block, &call)
        .is_ok());
    assert!(ext.oracle.remove_stale_event(32_000).is_ok());

    assert_eq!(ext.oracle.get_feed_at_time(31_000), None);
    assert_eq!(
        ext.oracle.last_deposited_event(),
        Some(Event::EventRemoved { time: 32_000 })
    );
}
