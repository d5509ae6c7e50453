use pynta_drivers::filler::{fill_image, pacing_delay, BufferFiller};
use pynta_drivers::processor::FrameProcessor;
use pynta_drivers::ring::ring_slot;

#[test]
fn slot_is_index_modulo_ring_size() {
    assert_eq!(ring_slot(0, 4), 0);
    assert_eq!(ring_slot(5, 4), 1);
    assert_eq!(ring_slot(11, 4), 3);
    assert_eq!(ring_slot(u64::MAX, 2), 1);
}

#[test]
fn pass_without_wrap() {
    let p = FrameProcessor::new(8);
    let pass = p.plan_pass(3);
    assert_eq!(pass.first_index, 0);
    assert_eq!(pass.slots, vec![0, 1, 2]);
    assert!(!pass.overflow);
}

#[test]
fn pass_wraps_around_the_ring() {
    let mut p = FrameProcessor::new(4);
    p.finish_pass(2, 2);
    let pass = p.plan_pass(5);
    assert_eq!(pass.first_index, 2);
    assert_eq!(pass.slots, vec![2, 3, 0]);
    assert!(!pass.overflow);
}

#[test]
fn pass_ending_on_slot_zero() {
    let mut p = FrameProcessor::new(4);
    p.finish_pass(1, 1);
    let pass = p.plan_pass(4);
    assert_eq!(pass.slots, vec![1, 2, 3]);
}

#[test]
fn pass_detects_overflow_and_reads_nothing() {
    let p = FrameProcessor::new(4);
    let pass = p.plan_pass(4);
    assert!(pass.overflow);
    assert!(pass.slots.is_empty());
    let pass = p.plan_pass(9);
    assert!(pass.overflow);
    assert!(pass.slots.is_empty());
}

#[test]
fn pass_with_nothing_new() {
    let mut p = FrameProcessor::new(4);
    p.finish_pass(3, 3);
    let pass = p.plan_pass(3);
    assert!(!pass.overflow);
    assert!(pass.slots.is_empty());
    let pass = p.plan_pass(1);
    assert!(pass.slots.is_empty());
}

#[test]
fn finish_pass_records_and_warns() {
    let mut p = FrameProcessor::new(4);
    assert!(!p.finish_pass(2, 2));
    assert_eq!(p.frames_processed(), 2);
    // read back 5: 5 + 1 - 2 >= 4
    assert!(p.finish_pass(4, 5));
    assert_eq!(p.frames_processed(), 4);
    // 6 + 1 - 4 = 3 < 4
    assert!(!p.finish_pass(6, 6));
    // an older count never moves the processor back
    assert!(!p.finish_pass(1, 6));
    assert_eq!(p.frames_processed(), 6);
}

#[test]
fn synthetic_frame_pattern() {
    // 20 columns, 18 rows; tracker at column 10, row 5, cut off at the right edge
    let mut image = vec![0u16; 20 * 18];
    fill_image(&mut image, [20, 18], 9, [10, 5]);
    for row in 0..18 {
        for col in 0..20 {
            let expected = if (5..21).contains(&row) && (10..26).contains(&col) { 16 } else { 2 };
            assert_eq!(image[row * 20 + col], expected, "row {} col {}", row, col);
        }
    }
}

#[test]
fn synthetic_background_cycles() {
    let mut image = vec![0u16; 4];
    fill_image(&mut image, [2, 2], 7, [2, 2]);
    assert_eq!(image, vec![8, 8, 8, 8]);
    fill_image(&mut image, [2, 2], 8, [2, 2]);
    assert_eq!(image, vec![1, 1, 1, 1]);
    fill_image(&mut image, [2, 2], 8, [1, 0]);
    assert_eq!(image, vec![1, 16, 1, 16]);
}

#[test]
fn empty_frame() {
    let mut image: Vec<u16> = Vec::new();
    fill_image(&mut image, [0, 5], 3, [0, 0]);
    assert!(image.is_empty());
}

#[test]
fn pacing_waits_the_rest_of_the_interval() {
    assert_eq!(pacing_delay(5000, 1200), 3800);
    assert_eq!(pacing_delay(5000, 5000), 0);
    assert_eq!(pacing_delay(5000, 9000), 0);
    assert_eq!(pacing_delay(0, 0), 0);
}

#[test]
fn filler_walks_the_ring() {
    let mut f = BufferFiller::new(3, [4, 4]);
    let mut seen = Vec::new();
    for k in 1..=7u64 {
        seen.push(f.next_slot());
        assert_eq!(f.advance(), k);
    }
    assert_eq!(seen, vec![0, 1, 2, 0, 1, 2, 0]);
    assert_eq!(f.frames_filled(), 7);
    assert_eq!(f.image_size(), [4, 4]);
    assert_eq!(f.n_buffers(), 3);
}
