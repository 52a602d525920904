use audio_decoder::bus::bus_error;
use audio_decoder::{AudioDecoderError, Callback};

#[test]
fn only_eos_and_error_are_terminal() {
    assert!(Callback::Eos.is_terminal());
    assert!(Callback::Error(AudioDecoderError::InvalidSample).is_terminal());
    assert!(!Callback::Ready(2).is_terminal());
    assert!(!Callback::Progress(0).is_terminal());
}

#[test]
fn backend_errors_carry_their_text() {
    assert_eq!(
        AudioDecoderError::backend("queue creation failed"),
        AudioDecoderError::Backend("queue creation failed".to_string())
    );
    assert_eq!(
        AudioDecoderError::backend_with("Sink pad link failed: ", "no"),
        AudioDecoderError::Backend("Sink pad link failed: no".to_string())
    );
    assert_eq!(AudioDecoderError::backend(""), AudioDecoderError::Backend(String::new()));
}

#[test]
fn bus_failures_carry_the_engine_account() {
    assert_eq!(
        bus_error(Some("decoder crashed".to_string())),
        AudioDecoderError::Backend("decoder crashed".to_string())
    );
    assert_eq!(bus_error(None), AudioDecoderError::Backend("Unknown".to_string()));
}
