use voicepaste::preview::{append_chunk, convert_fixture, mix_down, preview_update, resample, PreviewBuffer};

#[test]
fn draft_assembler_preserves_chunk_order() {
    let mut draft = String::new();
    append_chunk(&mut draft, "первая фраза");
    append_chunk(&mut draft, "вторая фраза");
    assert_eq!(draft, "первая фраза вторая фраза");
}

#[test]
fn blank_phrases_leave_the_draft_alone() {
    let mut draft = String::new();
    append_chunk(&mut draft, "   ");
    assert_eq!(draft, "");
    append_chunk(&mut draft, "  one ");
    append_chunk(&mut draft, "");
    assert_eq!(draft, "one");
}

#[test]
fn preview_snapshots_contain_only_samples_after_the_cursor() {
    let mut buffer = PreviewBuffer::new(16);
    buffer.push_samples(&[10, 11, 12]);
    let first = buffer.snapshot_since(0).expect("first delta");
    assert_eq!((first.start_sample, first.end_sample), (0, 3));
    assert_eq!(first.samples, vec![10, 11, 12]);

    buffer.push_samples(&[20, 21]);
    let second = buffer.snapshot_since(first.end_sample).expect("second delta");
    assert_eq!((second.start_sample, second.end_sample), (3, 5));
    assert_eq!(second.samples, vec![20, 21]);
    assert!(buffer.snapshot_since(second.end_sample).is_none());
}

#[test]
fn lagging_preview_skips_dropped_audio_instead_of_replaying_it() {
    let mut buffer = PreviewBuffer::new(3);
    buffer.push_samples(&[1, 2, 3, 4, 5]);
    let delta = buffer.snapshot_since(0).expect("retained delta");
    assert_eq!((delta.start_sample, delta.end_sample), (2, 5));
    assert_eq!(delta.samples, vec![3, 4, 5]);
}

#[test]
fn cleared_buffer_starts_over() {
    let mut buffer = PreviewBuffer::new(4);
    buffer.push_samples(&[1, 2]);
    buffer.clear();
    assert!(buffer.snapshot_since(0).is_none());
    buffer.push_samples(&[9]);
    assert!(buffer.snapshot_since(7).is_none());
    let delta = buffer.snapshot_since(0).expect("new sample");
    assert_eq!((delta.start_sample, delta.end_sample), (0, 1));
    assert_eq!(delta.samples, vec![9]);
}

#[test]
fn live_fixture_is_resampled_and_duplicated_for_microphone_format() {
    let converted = convert_fixture(&vec![3_000i16, 6_000], true, 1, 16_000, 2, 48_000)
        .expect("convert fixture");
    assert_eq!(converted.len(), 12);
    assert_eq!(&converted[..6], &[3_000; 6]);
    assert_eq!(&converted[6..], &[6_000; 6]);
}

#[test]
fn fixtures_are_mixed_down_toward_zero() {
    assert_eq!(mix_down(&vec![-3, 0, 4, 5, 7], 2), vec![-1, 4]);
    assert_eq!(resample(&vec![1, 2, 3], 48_000, 16_000, 1), vec![1]);
    assert_eq!(resample(&vec![1, 2, 3], 48_000, 0, 1), Vec::<i16>::new());
    assert_eq!(
        convert_fixture(&vec![1], false, 1, 16_000, 1, 16_000),
        Err("live-preview fixture must be 16-bit PCM".to_string())
    );
    assert_eq!(
        convert_fixture(&vec![1], true, 0, 16_000, 1, 16_000),
        Err("live-preview fixture has invalid audio metadata".to_string())
    );
    assert_eq!(convert_fixture(&vec![1], true, 2, 16_000, 1, 16_000), Ok(Vec::new()));
}

#[test]
fn preview_phrases_reach_the_draft_only_for_the_current_session() {
    let mut draft = String::from("hello");
    assert_eq!(preview_update(&mut draft, " world ", true), Some("hello world".to_string()));
    assert_eq!(draft, "hello world");
    assert_eq!(preview_update(&mut draft, "again", false), None);
    assert_eq!(draft, "hello world");
    assert_eq!(preview_update(&mut draft, "", true), None);
    assert_eq!(draft, "hello world");
}

#[test]
fn a_buffer_of_capacity_zero_keeps_every_sample_one_index_behind() {
    let mut buffer = PreviewBuffer::new(0);
    assert!(buffer.snapshot_since(0).is_none());
    buffer.push_samples(&[1, 2, 3]);
    let delta = buffer.snapshot_since(0).expect("kept samples");
    assert_eq!((delta.start_sample, delta.end_sample), (1, 3));
    assert_eq!(delta.samples, vec![1, 2, 3]);
    let last = buffer.snapshot_since(3).expect("last kept sample");
    assert_eq!((last.start_sample, last.end_sample), (3, 3));
    assert_eq!(last.samples, vec![3]);
}
