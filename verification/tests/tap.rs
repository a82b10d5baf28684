use timer::music::tap::{SampleRing, FFT_SIZE};

#[test]
fn ring_gives_back_the_latest_samples_in_order() {
    let mut ring: SampleRing<f32> = SampleRing::new(8, 0.0);
    assert!(ring.snapshot_latest(4).is_empty());
    for i in 0..5 {
        ring.push(i as f32);
    }
    assert_eq!(ring.snapshot_latest(3), vec![2.0, 3.0, 4.0]);
    assert_eq!(ring.snapshot_latest(100), vec![0.0, 1.0, 2.0, 3.0, 4.0]);
}

#[test]
fn ring_overwrites_the_oldest_when_full() {
    let mut ring: SampleRing<u32> = SampleRing::new(0, 0);
    let total = FFT_SIZE as u32 + 500;
    for i in 0..total {
        ring.push(i);
    }
    let all = ring.snapshot_latest(usize::MAX);
    assert_eq!(all.len(), FFT_SIZE);
    assert_eq!(all[0], 500);
    assert_eq!(*all.last().unwrap(), total - 1);
    assert_eq!(ring.snapshot_latest(2), vec![total - 2, total - 1]);
    ring.clear(0);
    assert!(ring.snapshot_latest(10).is_empty());
    ring.push(7);
    assert_eq!(ring.snapshot_latest(10), vec![7]);
}
