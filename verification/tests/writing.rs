use frame_extract::frame::PixelBuffer;
use frame_extract::job::VideoError;
use frame_extract::naming::audio_file_name;
use frame_extract::naming::frame_file_name;
use frame_extract::pipeline::SampledFrame;
use frame_extract::writer::encode_entry;
use frame_extract::writer::plan_writes;
use frame_extract::writer::summarize_writes;
use frame_extract::writer::write_verdict;

const PNG_SIGNATURE: [u8; 8] = [0x89, 0x50, 0x4E, 0x47, 0x0D, 0x0A, 0x1A, 0x0A];

fn frame(index: usize, width: u32, height: u32, fill: u8) -> SampledFrame {
    let data = vec![fill; (width * height * 3) as usize];
    SampledFrame { index, buffer: PixelBuffer { width, height, data } }
}

#[test]
fn frame_names_are_deterministic() {
    assert_eq!(frame_file_name(0), "frame0.png");
    assert_eq!(frame_file_name(7), "frame7.png");
    assert_eq!(frame_file_name(10), "frame10.png");
    assert_eq!(frame_file_name(30907), "frame30907.png");
}

#[test]
fn audio_name_is_fixed_and_disjoint_from_frame_names() {
    assert_eq!(audio_file_name(), "audio.mp3");
    for i in 0..100 {
        assert_ne!(frame_file_name(i), audio_file_name());
    }
}

#[test]
fn encode_entry_produces_a_real_png() {
    let f = frame(3, 1, 1, 0xFF);
    let item = encode_entry(&f);
    assert_eq!(item.index, 3);
    assert_eq!(item.name, "frame3.png");
    let png = item.png.expect("a 1x1 RGB frame must encode");
    assert!(png.len() > 8);
    assert_eq!(&png[0..8], &PNG_SIGNATURE);
    assert_ne!(png, f.buffer.data);
}

#[test]
fn encoded_png_round_trips_to_the_same_pixels() {
    let mut data = Vec::new();
    for byte in [10u8, 20, 30, 40, 50, 60, 70, 80, 90, 100, 110, 120] {
        data.push(byte);
    }
    let f = SampledFrame { index: 0, buffer: PixelBuffer { width: 2, height: 2, data: data.clone() } };
    let item = encode_entry(&f);
    let png = item.png.expect("a 2x2 RGB frame must encode");
    let decoded = image::load_from_memory(&png).expect("the bytes are a valid PNG");
    let rgb = decoded.to_rgb8();
    assert_eq!(rgb.width(), 2);
    assert_eq!(rgb.height(), 2);
    assert_eq!(rgb.into_raw(), data);
}

#[test]
fn zero_width_frame_fails_to_encode() {
    let f = frame(0, 0, 4, 0);
    let item = encode_entry(&f);
    assert!(item.png.is_none());
}

#[test]
fn plan_keeps_order_and_indices() {
    let frames = vec![frame(0, 1, 1, 1), frame(1, 1, 1, 2), frame(2, 2, 1, 3)];
    let items = plan_writes(&frames);
    assert_eq!(items.len(), 3);
    for (j, it) in items.iter().enumerate() {
        assert_eq!(it.index, j);
        assert_eq!(it.name, format!("frame{}.png", j));
        assert!(it.png.is_some());
    }
}

#[test]
fn empty_plan_summarizes_to_success() {
    let items = plan_writes(&Vec::new());
    assert_eq!(items.len(), 0);
    let report = summarize_writes(&items, &Vec::new());
    assert!(report.is_success());
    assert_eq!(write_verdict(&report), Ok(()));
}

#[test]
fn one_engineered_failure_is_reported_alone() {
    // Five entries; entry 2 cannot encode (zero width), the rest succeed.
    let frames = vec![
        frame(0, 1, 1, 1),
        frame(1, 1, 1, 2),
        frame(2, 0, 1, 3),
        frame(3, 1, 1, 4),
        frame(4, 1, 1, 5),
    ];
    let items = plan_writes(&frames);
    let written = vec![true; 5];
    let report = summarize_writes(&items, &written);
    assert_eq!(report.outcomes.len(), 5);
    assert_eq!(report.failed, vec![2]);
    let ok_count = report.outcomes.iter().filter(|o| o.ok).count();
    assert_eq!(ok_count, 4);
    assert!(!report.is_success());
    assert_eq!(write_verdict(&report), Err(VideoError::Write { failed: 1 }));
}

#[test]
fn one_io_failure_is_reported_alone() {
    let frames = vec![frame(0, 1, 1, 1), frame(1, 1, 1, 2), frame(2, 1, 1, 3)];
    let items = plan_writes(&frames);
    // The caller could not persist entry 1.
    let written = vec![true, false, true];
    let report = summarize_writes(&items, &written);
    assert_eq!(report.failed, vec![1]);
    assert!(report.outcomes[0].ok);
    assert!(!report.outcomes[1].ok);
    assert!(report.outcomes[2].ok);
    assert_eq!(write_verdict(&report), Err(VideoError::Write { failed: 1 }));
}

#[test]
fn all_written_summarizes_to_success() {
    let frames = vec![frame(0, 1, 1, 1), frame(1, 1, 1, 2)];
    let items = plan_writes(&frames);
    let report = summarize_writes(&items, &vec![true, true]);
    assert!(report.is_success());
    assert_eq!(report.failed.len(), 0);
    assert_eq!(write_verdict(&report), Ok(()));
}
