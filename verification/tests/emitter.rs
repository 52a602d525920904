use audio_decoder::emitter::{judge, resolve};
use audio_decoder::format::probe;
use audio_decoder::{
    AudioDecoderError, AudioFormatInfo, AudioInfoReport, ChannelPosition, Flow, SampleReport,
    SourcePadReport, Verdict,
};

fn position(tag: i32) -> ChannelPosition {
    ChannelPosition { tag }
}

fn layout(tags: &[i32]) -> AudioFormatInfo {
    probe(SourcePadReport {
        pipeline_alive: true,
        media_type: Some("audio/x-raw".to_string()),
        audio_info: Some(AudioInfoReport {
            channels: tags.len() as u32,
            rate: 44100,
            positions: Some(tags.iter().map(|tag| position(*tag)).collect()),
            default_positions: None,
        }),
    })
    .unwrap()
}

fn block(pts: Option<u64>, tags: &[i32]) -> SampleReport {
    SampleReport {
        has_block: true,
        pts,
        has_format: true,
        positions: Some(tags.iter().map(|tag| position(*tag)).collect()),
    }
}

fn backend(text: &str) -> AudioDecoderError {
    AudioDecoderError::Backend(text.to_string())
}

#[test]
fn a_failed_pull_is_a_failure() {
    let stereo = layout(&[0, 1]);
    let verdict = judge(Some(&stereo), None, None);
    assert_eq!(verdict, Verdict::Failed(AudioDecoderError::InvalidSample));
    assert_eq!(verdict.flow(), Flow::Error);
    assert_eq!(
        judge(None, Some(5000), None),
        Verdict::Failed(AudioDecoderError::InvalidSample)
    );
}

#[test]
fn a_sample_without_a_block_is_invalid() {
    let stereo = layout(&[0, 1]);
    let mut sample = block(Some(0), &[0]);
    sample.has_block = false;
    let verdict = judge(Some(&stereo), None, Some(sample));
    assert_eq!(verdict, Verdict::Failed(AudioDecoderError::InvalidSample));
    assert_eq!(verdict.flow(), Flow::Error);
}

#[test]
fn a_sample_without_a_format_is_an_engine_failure() {
    let stereo = layout(&[0, 1]);
    let mut sample = block(Some(0), &[0]);
    sample.has_format = false;
    assert_eq!(
        judge(Some(&stereo), None, Some(sample)),
        Verdict::Failed(backend("Could not get caps from sample"))
    );
}

#[test]
fn a_sample_without_positions_is_an_engine_failure() {
    let stereo = layout(&[0, 1]);
    let mut sample = block(Some(0), &[0]);
    sample.positions = None;
    assert_eq!(
        judge(Some(&stereo), None, Some(sample)),
        Verdict::Failed(backend("AudioInfo failed"))
    );
}

#[test]
fn the_checks_of_a_sample_come_in_order() {
    let stereo = layout(&[0, 1]);
    let sample = SampleReport { has_block: false, pts: None, has_format: false, positions: None };
    assert_eq!(
        judge(Some(&stereo), Some(5000), Some(sample)),
        Verdict::Failed(AudioDecoderError::InvalidSample)
    );
    let sample = SampleReport { has_block: true, pts: None, has_format: false, positions: None };
    assert_eq!(
        judge(Some(&stereo), Some(5000), Some(sample)),
        Verdict::Failed(backend("Could not get caps from sample"))
    );
    // Missing positions are found before the block is held against the offset.
    let sample = SampleReport { has_block: true, pts: Some(0), has_format: true, positions: None };
    assert_eq!(
        judge(Some(&stereo), Some(5000), Some(sample)),
        Verdict::Failed(backend("AudioInfo failed"))
    );
}

#[test]
fn a_block_is_delivered_under_the_index_of_its_position() {
    let stereo = layout(&[0, 1]);
    assert_eq!(judge(Some(&stereo), None, Some(block(Some(0), &[0]))), Verdict::Deliver(vec![0]));
    assert_eq!(judge(Some(&stereo), None, Some(block(Some(0), &[1]))), Verdict::Deliver(vec![1]));
    let verdict = judge(Some(&stereo), None, Some(block(None, &[1, 0, 1])));
    assert_eq!(verdict, Verdict::Deliver(vec![1, 0, 1]));
    assert_eq!(verdict.flow(), Flow::Continue);
}

#[test]
fn a_mono_block_is_delivered_as_channel_zero() {
    let mono = layout(&[-2]);
    assert_eq!(judge(Some(&mono), None, Some(block(Some(7), &[-2]))), Verdict::Deliver(vec![0]));
}

#[test]
fn a_block_without_positions_to_deliver_delivers_nothing() {
    let stereo = layout(&[0, 1]);
    assert_eq!(judge(Some(&stereo), None, Some(block(Some(0), &[]))), Verdict::Deliver(vec![]));
}

#[test]
fn a_block_before_the_start_offset_is_trimmed() {
    let stereo = layout(&[0, 1]);
    let verdict = judge(Some(&stereo), Some(5000), Some(block(Some(4_999_999_999), &[0])));
    assert_eq!(verdict, Verdict::Trimmed);
    assert_eq!(verdict.flow(), Flow::Continue);
    assert_eq!(
        judge(Some(&stereo), Some(5000), Some(block(Some(5_000_000_000), &[0]))),
        Verdict::Deliver(vec![0])
    );
    assert_eq!(judge(Some(&stereo), Some(5000), Some(block(None, &[0]))), Verdict::Trimmed);
}

#[test]
fn a_trimmed_block_is_not_held_against_the_layout() {
    let stereo = layout(&[0, 1]);
    assert_eq!(judge(Some(&stereo), Some(5000), Some(block(Some(0), &[9]))), Verdict::Trimmed);
    assert_eq!(judge(None, Some(5000), Some(block(Some(0), &[0]))), Verdict::Trimmed);
}

#[test]
fn a_block_at_an_unknown_position_is_an_engine_failure() {
    let stereo = layout(&[0, 1]);
    assert_eq!(
        judge(Some(&stereo), None, Some(block(Some(0), &[2]))),
        Verdict::Failed(backend("Unknown channel position"))
    );
    assert_eq!(
        judge(Some(&stereo), None, Some(block(Some(0), &[0, 2]))),
        Verdict::Failed(backend("Unknown channel position"))
    );
}

#[test]
fn a_block_before_the_format_is_known_is_an_engine_failure() {
    assert_eq!(
        judge(None, None, Some(block(Some(0), &[0]))),
        Verdict::Failed(backend("Unknown channel position"))
    );
}

#[test]
fn resolve_maps_positions_to_indices() {
    let surround = layout(&[0, 1, 2, 3]);
    assert_eq!(resolve(&surround, &vec![position(3), position(0)]), Some(vec![3, 0]));
    assert_eq!(resolve(&surround, &vec![]), Some(vec![]));
    assert_eq!(resolve(&surround, &vec![position(0), position(4)]), None);
}
