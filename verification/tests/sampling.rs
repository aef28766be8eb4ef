use frame_extract::frame::convert_frame;
use frame_extract::pipeline::ExtractionState;
use frame_extract::sampler::retain;
use frame_extract::sampler::sequence_index;

fn raw_plane(height: u32, stride: usize, row_bytes: usize) -> Vec<u8> {
    // Row r holds r*10 + column in its pixel bytes and 0xEE in its padding.
    let mut v = Vec::new();
    for r in 0..height as usize {
        for c in 0..stride {
            if c < row_bytes {
                v.push((r * 10 + c) as u8);
            } else {
                v.push(0xEE);
            }
        }
    }
    v
}

fn run_pipeline(interval: usize, frames: usize) -> ExtractionState {
    let mut st = ExtractionState::new(interval);
    let raw = raw_plane(2, 8, 6);
    for _ in 0..frames {
        if st.wants_current() {
            st.record_retained(2, 2, 8, &raw).unwrap();
        } else {
            st.record_skipped();
        }
    }
    st
}

#[test]
fn retain_at_multiples_of_interval() {
    assert!(retain(0, 30));
    assert!(!retain(1, 30));
    assert!(!retain(29, 30));
    assert!(retain(30, 30));
    assert!(retain(60, 30));
    assert!(retain(0, 1));
    assert!(retain(7, 1));
}

#[test]
fn sequence_index_divides_counter() {
    assert_eq!(sequence_index(0, 30), 0);
    assert_eq!(sequence_index(30, 30), 1);
    assert_eq!(sequence_index(60, 30), 2);
    assert_eq!(sequence_index(9, 3), 3);
}

#[test]
fn retained_count_is_ceil_of_n_over_interval() {
    // ceil(10 / 3) == 4, at counters 0, 3, 6, 9.
    let frames = run_pipeline(3, 10).into_frames();
    assert_eq!(frames.len(), 4);
    for (j, f) in frames.iter().enumerate() {
        assert_eq!(f.index, j);
    }
    // ceil(9 / 3) == 3.
    assert_eq!(run_pipeline(3, 9).into_frames().len(), 3);
    // ceil(1 / 30) == 1: the first decoded frame is always retained.
    assert_eq!(run_pipeline(30, 1).into_frames().len(), 1);
}

#[test]
fn interval_one_retains_every_frame() {
    let mut st = ExtractionState::new(1);
    let raw = raw_plane(2, 8, 6);
    // Three frames from the packet stream...
    for _ in 0..3 {
        assert!(st.wants_current());
        st.record_retained(2, 2, 8, &raw).unwrap();
    }
    // ...and two more produced only by the post-stream flush: the counter
    // continues, so they are retained like any other frame.
    for _ in 0..2 {
        assert!(st.wants_current());
        st.record_retained(2, 2, 8, &raw).unwrap();
    }
    let frames = st.into_frames();
    assert_eq!(frames.len(), 5);
    for (j, f) in frames.iter().enumerate() {
        assert_eq!(f.index, j);
    }
}

#[test]
fn zero_frames_yield_empty_collection() {
    let st = ExtractionState::new(30);
    assert_eq!(st.into_frames().len(), 0);
}

#[test]
fn convert_strips_row_padding() {
    let raw = raw_plane(2, 8, 6);
    let pb = convert_frame(2, 2, 8, &raw).unwrap();
    assert_eq!(pb.width, 2);
    assert_eq!(pb.height, 2);
    assert_eq!(pb.data, vec![0, 1, 2, 3, 4, 5, 10, 11, 12, 13, 14, 15]);
}

#[test]
fn convert_keeps_tight_rows_unchanged() {
    let raw = vec![9, 8, 7, 6, 5, 4];
    let pb = convert_frame(2, 1, 6, &raw).unwrap();
    assert_eq!(pb.data, raw);
}

#[test]
fn convert_rejects_small_stride() {
    let raw = raw_plane(2, 8, 6);
    assert!(convert_frame(3, 2, 8, &raw).is_none());
}

#[test]
fn convert_rejects_short_plane() {
    let raw = vec![0u8; 15];
    assert!(convert_frame(2, 2, 8, &raw).is_none());
}

#[test]
fn convert_accepts_zero_dimensions() {
    let raw: Vec<u8> = Vec::new();
    let pb = convert_frame(0, 0, 0, &raw).unwrap();
    assert_eq!(pb.data.len(), 0);
    let pb2 = convert_frame(0, 4, 0, &raw).unwrap();
    assert_eq!(pb2.data.len(), 0);
}

#[test]
fn conversion_failure_aborts_and_leaves_state_unchanged() {
    let mut st = ExtractionState::new(2);
    let raw = raw_plane(2, 8, 6);
    st.record_retained(2, 2, 8, &raw).unwrap();
    st.record_skipped();
    // Stride smaller than a pixel row: the strict policy fails this frame's
    // task rather than silently dropping the frame.
    let err = st.record_retained(4, 2, 8, &raw).unwrap_err();
    assert_eq!(err, frame_extract::job::VideoError::Convert { counter: 2 });
    let frames = st.into_frames();
    assert_eq!(frames.len(), 1);
}
