use ring_queue::Ring;
use ring_queue::RingConf;
use ring_queue::RingError;
use ring_queue::RingFlags;

fn conf(count: u32, bits: u32) -> RingConf {
    RingConf { count, socket_id: 0, flag: RingFlags::from_bits(bits) }
}

fn new_ring(count: u32, bits: u32) -> Ring {
    Ring::try_create("test_ring".to_string(), &conf(count, bits)).unwrap()
}

#[test]
fn usable_capacity_is_one_less_without_exact_sizing() {
    let r = new_ring(16, 0);
    assert_eq!(r.capacity(), 15);
    let r2 = new_ring(1024, 0);
    assert_eq!(r2.capacity(), 1023);
}

#[test]
fn usable_capacity_is_the_requested_count_with_exact_sizing() {
    let r = new_ring(16, RingFlags::EXACT_SZ);
    assert_eq!(r.capacity(), 16);
    let r2 = new_ring(10, RingFlags::EXACT_SZ);
    assert_eq!(r2.capacity(), 10);
    let r3 = new_ring(1, RingFlags::EXACT_SZ);
    assert_eq!(r3.capacity(), 1);
}

#[test]
fn zero_count_is_rejected() {
    let e = Ring::try_create("z".to_string(), &conf(0, 0));
    assert_eq!(e.err(), Some(RingError::InvalidConfig));
    let e2 = Ring::try_create("z".to_string(), &conf(0, RingFlags::EXACT_SZ));
    assert_eq!(e2.err(), Some(RingError::InvalidConfig));
}

#[test]
fn non_power_of_two_count_needs_exact_sizing() {
    let e = Ring::try_create("n".to_string(), &conf(10, 0));
    assert_eq!(e.err(), Some(RingError::InvalidConfig));
    assert!(Ring::try_create("n".to_string(), &conf(10, RingFlags::EXACT_SZ)).is_ok());
}

#[test]
fn oversized_count_is_rejected() {
    let e = Ring::try_create("o".to_string(), &conf(0x8000_0000, 0));
    assert_eq!(e.err(), Some(RingError::InvalidConfig));
    let e2 = Ring::try_create("o".to_string(), &conf(0x4000_0000, RingFlags::EXACT_SZ));
    assert_eq!(e2.err(), Some(RingError::InvalidConfig));
    let e3 = Ring::try_create("o".to_string(), &conf(0xffff_ffff, RingFlags::EXACT_SZ));
    assert_eq!(e3.err(), Some(RingError::InvalidConfig));
    assert!(Ring::try_create("o".to_string(), &conf(0x1_0000, RingFlags::EXACT_SZ)).is_ok());
}

#[test]
fn conflicting_flags_are_rejected() {
    let bad = [
        RingFlags::SP_ENQ | RingFlags::MP_RTS_ENQ,
        RingFlags::SP_ENQ | RingFlags::MP_HTS_ENQ,
        RingFlags::MP_RTS_ENQ | RingFlags::MP_HTS_ENQ,
        RingFlags::SC_DEQ | RingFlags::MC_RTS_DEQ,
        RingFlags::SC_DEQ | RingFlags::MC_HTS_DEQ,
        RingFlags::MC_RTS_DEQ | RingFlags::MC_HTS_DEQ,
        0x0080,
    ];
    for &bits in bad.iter() {
        let e = Ring::try_create("c".to_string(), &conf(16, bits));
        assert_eq!(e.err(), Some(RingError::InvalidConfig));
    }
}

#[test]
fn oversized_socket_hint_is_rejected() {
    let mut c = conf(16, 0);
    c.socket_id = 0x8000_0000;
    let e = Ring::try_create("s".to_string(), &c);
    assert_eq!(e.err(), Some(RingError::InvalidConfig));
}

#[test]
fn round_trip_exact_sixteen() {
    let mut r = new_ring(16, RingFlags::EXACT_SZ);
    assert_eq!(r.capacity(), 16);
    let mut tokens: Vec<u64> = Vec::new();
    for i in 0..16u64 {
        tokens.push(100 + i);
    }
    assert!(r.enqueue_bulk(&tokens).is_ok());
    assert!(r.is_full());
    let refused = r.enqueue_bulk(&[999]);
    assert_eq!(refused.err(), Some(RingError::InsufficientSpace { available: 0 }));
    let out = r.dequeue_bulk(16).unwrap();
    assert_eq!(out, tokens);
    let empty = r.dequeue_bulk(1);
    assert_eq!(empty.err(), Some(RingError::InsufficientElements { available: 0 }));
}

#[test]
fn failed_bulk_enqueue_leaves_ring_unchanged() {
    let mut r = new_ring(8, 0);
    assert!(r.enqueue_bulk(&[1, 2, 3, 4, 5]).is_ok());
    let e = r.enqueue_bulk(&[6, 7, 8]);
    assert_eq!(e.err(), Some(RingError::InsufficientSpace { available: 2 }));
    assert_eq!(r.len(), 5);
    assert_eq!(r.dequeue_bulk(5).unwrap(), vec![1, 2, 3, 4, 5]);
}

#[test]
fn failed_bulk_dequeue_leaves_ring_unchanged() {
    let mut r = new_ring(8, 0);
    assert!(r.enqueue_bulk(&[7, 8]).is_ok());
    let e = r.dequeue_bulk(3);
    assert_eq!(e.err(), Some(RingError::InsufficientElements { available: 2 }));
    assert_eq!(r.len(), 2);
    assert_eq!(r.dequeue_bulk(2).unwrap(), vec![7, 8]);
}

#[test]
fn burst_enqueue_takes_only_what_fits() {
    let mut r = new_ring(8, 0);
    assert_eq!(r.enqueue_burst(&[1, 2, 3, 4, 5]), 5);
    assert_eq!(r.enqueue_burst(&[6, 7, 8, 9]), 2);
    assert!(r.len() <= r.capacity());
    assert!(r.is_full());
    assert_eq!(r.enqueue_burst(&[10]), 0);
    assert_eq!(r.dequeue_bulk(7).unwrap(), vec![1, 2, 3, 4, 5, 6, 7]);
}

#[test]
fn burst_dequeue_returns_at_most_what_is_there() {
    let mut r = new_ring(8, 0);
    assert_eq!(r.enqueue_burst(&[1, 2, 3]), 3);
    let out = r.dequeue_burst(10);
    assert_eq!(out, vec![1, 2, 3]);
    let none = r.dequeue_burst(4);
    assert!(none.is_empty());
}

#[test]
fn fifo_order_survives_wrap_around() {
    let mut r = new_ring(8, RingFlags::SP_ENQ | RingFlags::SC_DEQ);
    let mut next: u64 = 0;
    let mut expect: u64 = 0;
    for _round in 0..200 {
        let mut batch: Vec<u64> = Vec::new();
        for _ in 0..5 {
            batch.push(next);
            next += 1;
        }
        assert!(r.enqueue_bulk(&batch).is_ok());
        let out = r.dequeue_bulk(5).unwrap();
        for v in out {
            assert_eq!(v, expect);
            expect += 1;
        }
    }
    assert!(r.is_empty());
}

#[test]
fn tagged_elements_come_out_exactly_once_in_every_variant() {
    let prod_bits = [0, RingFlags::MP_RTS_ENQ, RingFlags::MP_HTS_ENQ];
    let cons_bits = [0, RingFlags::MC_RTS_DEQ, RingFlags::MC_HTS_DEQ];
    for &pb in prod_bits.iter() {
        for &cb in cons_bits.iter() {
            let mut r = new_ring(64, pb | cb);
            for producer in 0..3u64 {
                let mut batch: Vec<u64> = Vec::new();
                for i in 0..10u64 {
                    batch.push((producer << 32) | i);
                }
                assert!(r.enqueue_bulk(&batch).is_ok());
            }
            let mut seen: Vec<u64> = Vec::new();
            loop {
                let out = r.dequeue_burst(7);
                if out.is_empty() {
                    break;
                }
                for v in out {
                    seen.push(v);
                }
            }
            assert_eq!(seen.len(), 30);
            for producer in 0..3u64 {
                for i in 0..10u64 {
                    let tag = (producer << 32) | i;
                    let mut hits = 0;
                    for &v in seen.iter() {
                        if v == tag {
                            hits += 1;
                        }
                    }
                    assert_eq!(hits, 1);
                }
            }
        }
    }
}

#[test]
fn single_slot_ring_has_zero_capacity() {
    let mut r = new_ring(1, 0);
    assert_eq!(r.capacity(), 0);
    assert!(r.is_empty());
    assert!(r.is_full());
    assert_eq!(r.enqueue_burst(&[1]), 0);
    let e = r.enqueue_bulk(&[1]);
    assert_eq!(e.err(), Some(RingError::InsufficientSpace { available: 0 }));
    assert!(r.enqueue_bulk(&[]).is_ok());
}

#[test]
fn len_tracks_contents() {
    let mut r = new_ring(16, 0);
    assert_eq!(r.len(), 0);
    assert!(r.is_empty());
    assert!(!r.is_full());
    assert_eq!(r.enqueue_burst(&[1, 2, 3]), 3);
    assert_eq!(r.len(), 3);
    assert!(!r.is_empty());
    let _ = r.dequeue_burst(2);
    assert_eq!(r.len(), 1);
}

#[test]
fn ring_keeps_its_name() {
    let r = Ring::try_create("pkt_ring_0".to_string(), &conf(16, 0)).unwrap();
    assert_eq!(r.name(), "pkt_ring_0");
}

#[test]
fn error_descriptions() {
    assert_eq!(RingError::InvalidConfig.describe(), "invalid ring config");
    assert_eq!(
        RingError::InsufficientSpace { available: 3 }.describe(),
        "insufficient free space in ring"
    );
    assert_eq!(
        RingError::InsufficientElements { available: 0 }.describe(),
        "insufficient elements in ring"
    );
}
