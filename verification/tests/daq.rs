use battery_tester::daq::{
    milliamp_to_u32, millivolt_to_u32, DaqDataQueue, EmbassyDelayer, BATCH_LEN,
};
use battery_tester::units::{MilliAmp, MilliVolt};

#[test]
fn widening() {
    assert_eq!(milliamp_to_u32(&MilliAmp::new(65_535)), 65_535u32);
    assert_eq!(millivolt_to_u32(&MilliVolt::new(12_345)), 12_345u32);
    assert_eq!(BATCH_LEN, 10);
    assert_eq!(EmbassyDelayer::new(), EmbassyDelayer::default());
}

#[test]
fn empty_queue() {
    let q = DaqDataQueue::default_const();
    assert_eq!(q.avg_milliamps(), MilliAmp::new(0));
    assert_eq!(q.avg_millivolts(), MilliVolt::new(0));
    assert_eq!(q.get_latest_vin_v(), MilliVolt::new(0));
    assert_eq!(q.get_latest_vin_amps(), MilliAmp::new(0));
}

#[test]
fn tenth_push_reports_the_means() {
    let mut q = DaqDataQueue::default_const();
    for round in 0..3u64 {
        let base = 10_000 * round;
        for i in 0..9u16 {
            let r = q.push_at(
                MilliAmp::new(100 + i),
                MilliVolt::new(12_000 + 10 * i),
                base + 1_000 + 100 * i as u64,
            );
            assert_eq!(r, None);
        }
        let r = q.push_at(MilliAmp::new(114), MilliVolt::new(12_095), base + 1_901);
        // currents 100..=108 and 114 add up to 1050, voltages 12000..=12080 and 12095 to 120455
        assert_eq!(
            r,
            Some((MilliVolt::new(12_045), MilliAmp::new(105), (base + 1_901 + base + 1_000) / 2))
        );
    }
}

#[test]
fn means_round_down() {
    let mut q = DaqDataQueue::default_const();
    for _ in 0..9 {
        assert_eq!(q.push_at(MilliAmp::new(0), MilliVolt::new(0), 0), None);
    }
    assert_eq!(
        q.push_at(MilliAmp::new(19), MilliVolt::new(9), 7),
        Some((MilliVolt::new(0), MilliAmp::new(1), 3))
    );
}

#[test]
fn largest_samples_and_times() {
    let mut q = DaqDataQueue::default_const();
    for _ in 0..9 {
        assert_eq!(
            q.push_at(MilliAmp::new(u16::MAX), MilliVolt::new(u16::MAX), u64::MAX),
            None
        );
    }
    assert_eq!(
        q.push_at(MilliAmp::new(u16::MAX), MilliVolt::new(u16::MAX), u64::MAX),
        Some((MilliVolt::new(u16::MAX), MilliAmp::new(u16::MAX), u64::MAX))
    );
}

#[test]
fn latest_is_the_slot_at_the_write_index() {
    let mut q = DaqDataQueue::default_const();
    for i in 0..10u16 {
        q.push_at(MilliAmp::new(i + 1), MilliVolt::new(100 + i), 0);
    }
    // the write index is back at the first slot
    assert_eq!(q.get_latest_vin_amps(), MilliAmp::new(1));
    assert_eq!(q.get_latest_vin_v(), MilliVolt::new(100));
    q.push_at(MilliAmp::new(50), MilliVolt::new(500), 0);
    assert_eq!(q.get_latest_vin_amps(), MilliAmp::new(2));
    assert_eq!(q.get_latest_vin_v(), MilliVolt::new(101));
    // the means are over the ten slots, old samples included
    assert_eq!(q.avg_milliamps(), MilliAmp::new((50 + 2 + 3 + 4 + 5 + 6 + 7 + 8 + 9 + 10) / 10));
    q.reset();
    assert_eq!(q.avg_milliamps(), MilliAmp::new(0));
    assert_eq!(q.get_latest_vin_v(), MilliVolt::new(0));
    for _ in 0..9 {
        assert_eq!(q.push_at(MilliAmp::new(1), MilliVolt::new(1), 0), None);
    }
    assert!(q.push_at(MilliAmp::new(1), MilliVolt::new(1), 0).is_some());
}

#[test]
fn push_on_the_clock() {
    let mut q = DaqDataQueue::default_const();
    for _ in 0..9 {
        assert_eq!(q.push(MilliAmp::new(10), MilliVolt::new(20)), None);
    }
    wait_ms(20);
    let (v, i, t) = q.push(MilliAmp::new(10), MilliVolt::new(20)).unwrap();
    assert_eq!((v, i), (MilliVolt::new(20), MilliAmp::new(10)));
    // the batch began at the first push and ended at least 20 ms later
    let (_, _, later) = {
        for _ in 0..9 {
            assert_eq!(q.push(MilliAmp::new(0), MilliVolt::new(0)), None);
        }
        q.push(MilliAmp::new(0), MilliVolt::new(0)).unwrap()
    };
    assert!(later >= t + 10);
}

fn wait_ms(ms: u64) {
    let start = std::time::Instant::now();
    while start.elapsed() < std::time::Duration::from_millis(ms) {
        std::hint::spin_loop();
    }
}
