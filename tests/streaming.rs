use pynta_drivers::error::StreamError;
use pynta_drivers::stream::{FrameConsumer, RingStream};

/// Records what it is handed; refuses the frames listed in `refuse`.
struct Recorder {
    seen: Vec<(u64, Vec<u16>)>,
    refuse: Vec<u64>,
}

impl Recorder {
    fn new() -> Self {
        Recorder { seen: Vec::new(), refuse: Vec::new() }
    }
}

impl FrameConsumer for Recorder {
    fn consume(&mut self, index: u64, frame: &[u16]) -> Result<(), String> {
        self.seen.push((index, frame.to_vec()));
        if self.refuse.contains(&index) {
            Err(format!("frame {} refused", index))
        } else {
            Ok(())
        }
    }
}

fn indices(r: &Recorder) -> Vec<u64> {
    r.seen.iter().map(|(i, _)| *i).collect()
}

#[test]
fn a_single_buffer_is_refused() {
    assert!(matches!(RingStream::new(1, [4, 4]), Err(StreamError::TooFewBuffers)));
    assert!(matches!(RingStream::new(0, [4, 4]), Err(StreamError::TooFewBuffers)));
    let s = RingStream::new(2, [4, 4]).ok().unwrap();
    assert_eq!(s.n_buffers(), 2);
    assert_eq!(s.frames_filled(), 0);
    assert_eq!(s.frames_processed(), 0);
    assert_eq!(s.image_size(), [4, 4]);
}

#[test]
fn lapped_after_a_full_ring_reports_overflow() {
    // four buffers, four frames filled before the processor wakes
    let mut s = RingStream::new(4, [3, 2]).ok().unwrap();
    for _ in 0..4 {
        s.fill_next([0, 0]);
    }
    let mut r = Recorder::new();
    let report = s.drain(&mut r);
    assert!(report.overflow);
    assert!(report.delivered.is_empty());
    assert!(r.seen.is_empty());
    assert_eq!(s.frames_processed(), 4);
    // the stream goes on: the next frames are delivered
    s.fill_next([0, 0]);
    let report = s.drain(&mut r);
    assert!(!report.overflow);
    assert_eq!(report.delivered, vec![4]);
}

#[test]
fn lapped_by_five_frames_reports_overflow() {
    let mut s = RingStream::new(4, [3, 2]).ok().unwrap();
    for _ in 0..5 {
        s.fill_next([0, 0]);
    }
    let mut r = Recorder::new();
    let report = s.drain(&mut r);
    assert!(report.overflow);
    assert!(report.lap_warning);
    assert!(r.seen.is_empty());
    // frame 0 is gone, frame 1 is the oldest still readable
    assert!(s.frame(0).is_none());
    assert!(s.frame(1).is_none());
    assert!(s.frame(2).is_some());
}

#[test]
fn prompt_processor_sees_every_frame() {
    // eight buffers, one frame at a time, processed right away
    let mut s = RingStream::new(8, [4, 4]).ok().unwrap();
    let mut r = Recorder::new();
    for _ in 0..20 {
        s.fill_next([1, 1]);
        let report = s.drain(&mut r);
        assert!(!report.overflow);
        assert!(!report.lap_warning);
        assert!(s.frames_processed() + 1 >= s.frames_filled());
        assert!(s.frames_processed() <= s.frames_filled());
    }
    assert_eq!(indices(&r), (0..20).collect::<Vec<u64>>());
}

#[test]
fn a_failing_frame_does_not_stop_delivery() {
    let mut s = RingStream::new(16, [2, 2]).ok().unwrap();
    let mut r = Recorder::new();
    r.refuse.push(7);
    for _ in 0..12 {
        s.fill_next([2, 2]);
    }
    let report = s.drain(&mut r);
    assert!(!report.overflow);
    assert_eq!(report.delivered, (0..12).collect::<Vec<u64>>());
    assert_eq!(indices(&r), (0..12).collect::<Vec<u64>>());
    assert_eq!(report.failures.len(), 1);
    assert_eq!(report.failures[0].index, 7);
    assert_eq!(report.failures[0].message, "frame 7 refused");
}

#[test]
fn bursts_below_ring_size_deliver_each_frame_once_in_order() {
    let mut s = RingStream::new(5, [2, 1]).ok().unwrap();
    let mut r = Recorder::new();
    let mut counter = 0u16;
    for burst in [3usize, 4, 1, 0, 4, 2] {
        for _ in 0..burst {
            s.write_next(&[counter, counter + 1000]);
            counter += 1;
        }
        let report = s.drain(&mut r);
        assert!(!report.overflow);
    }
    let total = 3 + 4 + 1 + 4 + 2;
    assert_eq!(indices(&r), (0..total).collect::<Vec<u64>>());
    for (i, frame) in r.seen.iter() {
        assert_eq!(frame, &vec![*i as u16, *i as u16 + 1000]);
    }
}

#[test]
fn published_frame_reads_back_whole() {
    let mut s = RingStream::new(3, [2, 2]).ok().unwrap();
    assert!(s.frame(0).is_none());
    s.write_next(&[1, 2, 3, 4]);
    assert_eq!(s.frame(0), Some(&[1u16, 2, 3, 4][..]));
    assert!(s.frame(1).is_none());
    s.write_next(&[5, 6, 7, 8]);
    s.write_next(&[9, 10, 11, 12]);
    // frame 0's slot is the one the filler writes next: no longer readable
    assert!(s.frame(0).is_none());
    assert_eq!(s.frame(1), Some(&[5u16, 6, 7, 8][..]));
    assert_eq!(s.frame(2), Some(&[9u16, 10, 11, 12][..]));
    s.write_next(&[13, 14, 15, 16]);
    assert_eq!(s.frame(2), Some(&[9u16, 10, 11, 12][..]));
    assert_eq!(s.frame(3), Some(&[13u16, 14, 15, 16][..]));
}

#[test]
fn synthetic_frames_are_delivered_as_drawn() {
    let mut s = RingStream::new(2, [2, 1]).ok().unwrap();
    let mut r = Recorder::new();
    s.fill_next([1, 0]);
    s.drain(&mut r);
    s.fill_next([2, 1]);
    s.drain(&mut r);
    assert_eq!(r.seen[0], (0, vec![1, 16]));
    assert_eq!(r.seen[1], (1, vec![2, 2]));
}
