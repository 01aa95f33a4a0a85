use snowflake::IdError;
use snowflake::Snowflake;
use snowflake::StepOutcome;
use snowflake::decode_id;
use snowflake::generator::EPOCH_MS;
use snowflake::generator::MAX_TIMESTAMP_MS;
use snowflake::generator::SEQUENCE_MASK;

#[test]
fn loop_test() {
    let mut worker = Snowflake::new(1, 1).unwrap();
    println!("{:?}", &worker);
    for _ in 1..1000 {
        let t = &mut worker;
        assert!(t.generate_id().is_ok());
    }
}

#[test]
fn construction_validation() {
    assert_eq!(Snowflake::new(32, 1).unwrap_err(), IdError::InvalidIdentity);
    assert!(Snowflake::new(31, 1).is_ok());
    assert_eq!(Snowflake::new(1, 32).unwrap_err(), IdError::InvalidIdentity);
    assert_eq!(Snowflake::new(-1, 0).unwrap_err(), IdError::InvalidIdentity);
    assert_eq!(Snowflake::new(0, -5).unwrap_err(), IdError::InvalidIdentity);
    let g = Snowflake::new(31, 31).unwrap();
    assert_eq!(g.worker_id, 31);
    assert_eq!(g.datacenter_id, 31);
    assert_eq!(g.sequence_id, 0);
    assert_eq!(g.last_timestamp, 0);
}

#[test]
fn backwards_clock_rejected() {
    let mut g = Snowflake::new(2, 1).unwrap();
    let t1: i64 = (EPOCH_MS as i64) + 5000;
    match g.next_id_at(t1) {
        StepOutcome::Produced(_) => {}
        out => panic!("expected an id, got {:?}", out),
    }
    let seq_before: u64 = g.sequence_id;
    let last_before: u64 = g.last_timestamp;
    let out = g.next_id_at(t1 - 3);
    assert_eq!(
        out,
        StepOutcome::Rejected(IdError::ClockMovedBackwards { regression_ms: 3 })
    );
    assert_eq!(g.sequence_id, seq_before);
    assert_eq!(g.last_timestamp, last_before);
    match g.next_id_at(t1) {
        StepOutcome::Produced(id) => {
            assert_eq!(decode_id(id).sequence, 1);
        }
        out => panic!("expected an id, got {:?}", out),
    }
}

#[test]
fn sequence_rollover() {
    let mut g = Snowflake::new(1, 1).unwrap();
    let t: i64 = (EPOCH_MS as i64) + 1000;
    let mut expected: u64 = 0;
    let mut prev: i64 = -1;
    while expected <= SEQUENCE_MASK {
        match g.next_id_at(t) {
            StepOutcome::Produced(id) => {
                assert_eq!(decode_id(id).sequence, expected);
                assert!(id > prev);
                prev = id;
            }
            out => panic!("expected an id, got {:?}", out),
        }
        expected += 1;
    }
    assert_eq!(g.next_id_at(t), StepOutcome::SequenceExhausted);
    assert_eq!(g.sequence_id, SEQUENCE_MASK);
    match g.next_id_at(t + 1) {
        StepOutcome::Produced(id) => {
            let p = decode_id(id);
            assert_eq!(p.sequence, 0);
            assert_eq!(p.timestamp_ms, (t + 1) as u64);
        }
        out => panic!("expected an id at the next millisecond, got {:?}", out),
    }
}

#[test]
fn round_trip_exact() {
    let mut g = Snowflake::new(7, 3).unwrap();
    let now: i64 = (EPOCH_MS as i64) + 123456;
    match g.next_id_at(now) {
        StepOutcome::Produced(id) => {
            // (123456 << 22) | (3 << 17) | (7 << 12) | 0
            assert_eq!(id, 517812416512);
            let p = decode_id(id);
            assert_eq!(p.timestamp_ms, now as u64);
            assert_eq!(p.datacenter_id, 3);
            assert_eq!(p.worker_id, 7);
            assert_eq!(p.sequence, 0);
        }
        out => panic!("expected an id, got {:?}", out),
    }
}

#[test]
fn timestamp_out_of_range() {
    let mut g = Snowflake::new(0, 0).unwrap();
    let before_epoch: i64 = (EPOCH_MS as i64) - 1;
    assert_eq!(
        g.next_id_at(before_epoch),
        StepOutcome::Rejected(IdError::TimestampOutOfRange)
    );
    let beyond: i64 = (MAX_TIMESTAMP_MS as i64) + 1;
    assert_eq!(
        g.next_id_at(beyond),
        StepOutcome::Rejected(IdError::TimestampOutOfRange)
    );
    assert_eq!(g.sequence_id, 0);
    assert_eq!(g.last_timestamp, 0);
    match g.next_id_at(MAX_TIMESTAMP_MS as i64) {
        StepOutcome::Produced(id) => {
            assert_eq!(decode_id(id).timestamp_ms, MAX_TIMESTAMP_MS);
        }
        out => panic!("expected an id at the last encodable millisecond, got {:?}", out),
    }
}

#[test]
fn cross_instance_distinct() {
    let mut g1 = Snowflake::new(1, 0).unwrap();
    let mut g2 = Snowflake::new(2, 0).unwrap();
    let t: i64 = (EPOCH_MS as i64) + 42;
    let id1: i64 = match g1.next_id_at(t) {
        StepOutcome::Produced(id) => id,
        out => panic!("expected an id, got {:?}", out),
    };
    let id2: i64 = match g2.next_id_at(t) {
        StepOutcome::Produced(id) => id,
        out => panic!("expected an id, got {:?}", out),
    };
    assert_ne!(id1, id2);
    let p1 = decode_id(id1);
    let p2 = decode_id(id2);
    assert_eq!(p1.worker_id, 1);
    assert_eq!(p2.worker_id, 2);
    assert_eq!(p1.timestamp_ms, p2.timestamp_ms);
}

fn produce(g: &mut Snowflake, t: i64) -> i64 {
    match g.next_id_at(t) {
        StepOutcome::Produced(id) => id,
        out => panic!("expected an id, got {:?}", out),
    }
}

#[test]
fn simulated_clock_monotonic() {
    let mut g = Snowflake::new(9, 9).unwrap();
    let t: i64 = (EPOCH_MS as i64) + 777;
    let id0: i64 = produce(&mut g, t);
    let id1: i64 = produce(&mut g, t);
    let id2: i64 = produce(&mut g, t + 5);
    let id3: i64 = produce(&mut g, t + 1000);
    assert!(id0 < id1);
    assert!(id1 < id2);
    assert!(id2 < id3);
}

#[test]
fn real_clock_monotonic() {
    let mut g = Snowflake::new(5, 5).unwrap();
    let mut prev: i64 = g.generate_id().unwrap();
    assert!(prev >= 0);
    let mut n: u32 = 0;
    while n < 5000 {
        let id: i64 = g.generate_id().unwrap();
        assert!(id > prev);
        prev = id;
        n += 1;
    }
}
