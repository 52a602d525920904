use audio_decoder::wiring::{
    KEEP_POSITIONS, SINK_EMIT_SIGNALS, SINK_MAX_BUFFERS, SINK_SYNC, SINK_WAIT_ON_EOS,
};
use audio_decoder::{AudioDecoderError, NormalizeStep, SetupStep, SinkStep, CREDIT_THRESHOLD};

fn backend(text: &str) -> AudioDecoderError {
    AudioDecoderError::Backend(text.to_string())
}

#[test]
fn sinks_are_configured_for_pulling() {
    assert!(!SINK_SYNC);
    assert!(SINK_EMIT_SIGNALS);
    assert_eq!(SINK_MAX_BUFFERS, 50);
    assert!(SINK_WAIT_ON_EOS);
    assert!(KEEP_POSITIONS);
    assert!(CREDIT_THRESHOLD <= SINK_MAX_BUFFERS);
}

#[test]
fn setup_runs_in_order_with_a_seek() {
    let mut steps = vec![SetupStep::first()];
    while let Some(next) = steps.last().unwrap().next(true) {
        steps.push(next);
    }
    assert_eq!(
        steps,
        vec![
            SetupStep::CreateSource,
            SetupStep::SetUri,
            SetupStep::AddSource,
            SetupStep::LinkSource,
            SetupStep::WatchPads,
            SetupStep::TakeBus,
            SetupStep::WatchBus,
            SetupStep::Pause,
            SetupStep::AwaitPaused,
            SetupStep::Seek,
            SetupStep::Play,
        ]
    );
}

#[test]
fn setup_leaves_the_seek_out_without_a_start_offset() {
    let mut steps = vec![SetupStep::first()];
    while let Some(next) = steps.last().unwrap().next(false) {
        steps.push(next);
    }
    assert_eq!(steps.len(), 10);
    assert!(!steps.contains(&SetupStep::Seek));
    assert_eq!(SetupStep::AwaitPaused.next(false), Some(SetupStep::Play));
    assert_eq!(SetupStep::Seek.next(false), Some(SetupStep::Play));
    assert_eq!(SetupStep::Play.next(true), None);
}

#[test]
fn setup_failures_stand_for_their_errors() {
    assert_eq!(SetupStep::CreateSource.fail("x"), backend("uridecodebin creation failed"));
    assert_eq!(SetupStep::SetUri.fail("bad uri"), backend("bad uri"));
    assert_eq!(SetupStep::AddSource.fail("no room"), backend("no room"));
    assert_eq!(SetupStep::LinkSource.fail("no link"), backend("no link"));
    assert_eq!(SetupStep::WatchPads.fail("w"), backend("w"));
    assert_eq!(
        SetupStep::TakeBus.fail("x"),
        backend("Pipeline without bus. Shouldn't happen!")
    );
    assert_eq!(SetupStep::WatchBus.fail("w"), backend("w"));
    assert_eq!(SetupStep::Pause.fail("x"), AudioDecoderError::StateChangeFailed);
    assert_eq!(SetupStep::AwaitPaused.fail("x"), backend("Error retrieving pipeline state"));
    assert_eq!(SetupStep::Seek.fail("seek refused"), backend("seek refused"));
    assert_eq!(SetupStep::Play.fail("x"), AudioDecoderError::StateChangeFailed);
}

#[test]
fn setup_creates_the_source_element() {
    assert_eq!(SetupStep::CreateSource.element(), Some("uridecodebin"));
    assert_eq!(SetupStep::SetUri.element(), None);
    assert_eq!(SetupStep::Play.element(), None);
}

#[test]
fn normalize_runs_in_order() {
    let mut steps = vec![NormalizeStep::first()];
    while let Some(next) = steps.last().unwrap().next() {
        steps.push(next);
    }
    assert_eq!(
        steps,
        vec![
            NormalizeStep::CreateConvert,
            NormalizeStep::CreateResample,
            NormalizeStep::CreateFilter,
            NormalizeStep::CreateDeinterleave,
            NormalizeStep::WatchChannelPads,
            NormalizeStep::DescribeOutput,
            NormalizeStep::ConstrainOutput,
            NormalizeStep::AddStages,
            NormalizeStep::LinkStages,
            NormalizeStep::SyncStages,
            NormalizeStep::FindInput,
            NormalizeStep::LinkInput,
        ]
    );
}

#[test]
fn normalize_failures_stand_for_their_errors() {
    assert_eq!(NormalizeStep::CreateConvert.fail("x"), backend("audioconvert creation failed"));
    assert_eq!(NormalizeStep::CreateResample.fail("x"), backend("audioresample creation failed"));
    assert_eq!(NormalizeStep::CreateFilter.fail("x"), backend("capsfilter creation failed"));
    assert_eq!(
        NormalizeStep::CreateDeinterleave.fail("x"),
        backend("deinterleave creation failed")
    );
    assert_eq!(NormalizeStep::WatchChannelPads.fail("w"), backend("w"));
    assert_eq!(NormalizeStep::DescribeOutput.fail("x"), backend("AudioInfo failed"));
    assert_eq!(NormalizeStep::ConstrainOutput.fail("x"), backend("AudioInfo failed"));
    assert_eq!(NormalizeStep::AddStages.fail("add"), backend("add"));
    assert_eq!(NormalizeStep::LinkStages.fail("link"), backend("link"));
    assert_eq!(NormalizeStep::SyncStages.fail("sync"), backend("sync"));
    assert_eq!(NormalizeStep::FindInput.fail("x"), backend("Get static pad sink failed"));
    assert_eq!(
        NormalizeStep::LinkInput.fail("wrong hierarchy"),
        backend("Sink pad link failed: wrong hierarchy")
    );
}

#[test]
fn normalize_creates_four_elements() {
    assert_eq!(NormalizeStep::CreateConvert.element(), Some("audioconvert"));
    assert_eq!(NormalizeStep::CreateResample.element(), Some("audioresample"));
    assert_eq!(NormalizeStep::CreateFilter.element(), Some("capsfilter"));
    assert_eq!(NormalizeStep::CreateDeinterleave.element(), Some("deinterleave"));
    assert_eq!(NormalizeStep::AddStages.element(), None);
}

#[test]
fn sink_runs_in_order() {
    let mut steps = vec![SinkStep::first()];
    while let Some(next) = steps.last().unwrap().next() {
        steps.push(next);
    }
    assert_eq!(
        steps,
        vec![
            SinkStep::CreateQueue,
            SinkStep::CreateSink,
            SinkStep::InstallEmitter,
            SinkStep::AddStages,
            SinkStep::LinkStages,
            SinkStep::SyncStages,
            SinkStep::FindInput,
            SinkStep::LinkInput,
        ]
    );
}

#[test]
fn sink_failures_stand_for_their_errors() {
    assert_eq!(SinkStep::CreateQueue.fail("x"), backend("queue creation failed"));
    assert_eq!(SinkStep::CreateSink.fail("x"), backend("appsink creation failed"));
    assert_eq!(SinkStep::InstallEmitter.fail("i"), backend("i"));
    assert_eq!(SinkStep::AddStages.fail("add"), backend("add"));
    assert_eq!(SinkStep::LinkStages.fail("link"), backend("link"));
    assert_eq!(SinkStep::SyncStages.fail("sync"), backend("sync"));
    assert_eq!(SinkStep::FindInput.fail("x"), backend("Could not get static pad sink"));
    assert_eq!(SinkStep::LinkInput.fail("refused"), backend("Sink pad link failed: refused"));
    assert_eq!(SinkStep::LinkInput.fail(""), backend("Sink pad link failed: "));
}

#[test]
fn sink_creates_two_elements() {
    assert_eq!(SinkStep::CreateQueue.element(), Some("queue"));
    assert_eq!(SinkStep::CreateSink.element(), Some("appsink"));
    assert_eq!(SinkStep::LinkInput.element(), None);
}
