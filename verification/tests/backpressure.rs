use audio_decoder::backpressure::{Admission, CreditWindow, CREDIT_THRESHOLD};
use audio_decoder::GStreamerAudioDecoder;
use std::sync::mpsc;
use std::sync::Mutex;

#[test]
fn threshold_is_forty() {
    assert_eq!(CREDIT_THRESHOLD, 40);
}

#[test]
fn window_grants_forty_blocks_then_waits() {
    let mut window = CreditWindow::new();
    for taken in 0..CREDIT_THRESHOLD {
        assert_eq!(window.in_flight(), taken);
        assert_eq!(window.reserve(), Admission::Granted);
    }
    assert_eq!(window.in_flight(), 40);
    assert_eq!(window.reserve(), Admission::AwaitCredit);
    assert_eq!(window.in_flight(), 40);
    window.credit();
    assert_eq!(window.in_flight(), 0);
    assert_eq!(window.reserve(), Admission::Granted);
    assert_eq!(window.in_flight(), 1);
}

#[test]
fn refused_reservation_changes_nothing() {
    let mut window = CreditWindow::new();
    for _ in 0..40 {
        window.reserve();
    }
    for _ in 0..5 {
        assert_eq!(window.reserve(), Admission::AwaitCredit);
        assert_eq!(window.in_flight(), 40);
    }
}

#[test]
fn never_more_than_forty_in_a_row_without_credit() {
    // A consumer that grants a credit whenever the emitter waits: count the
    // longest run of granted blocks between two credits.
    let mut window = CreditWindow::new();
    let mut run = 0u32;
    let mut longest = 0u32;
    let mut granted = 0u32;
    while granted < 1000 {
        match window.reserve() {
            Admission::Granted => {
                run += 1;
                granted += 1;
                if run > longest {
                    longest = run;
                }
            }
            Admission::AwaitCredit => {
                window.credit();
                run = 0;
            }
        }
    }
    assert_eq!(longest, 40);
}

#[test]
fn early_credit_opens_a_fresh_window() {
    let mut window = CreditWindow::new();
    for _ in 0..7 {
        window.reserve();
    }
    window.credit();
    assert_eq!(window.in_flight(), 0);
    for _ in 0..40 {
        assert_eq!(window.reserve(), Admission::Granted);
    }
    assert_eq!(window.reserve(), Admission::AwaitCredit);
}

#[test]
fn decoder_hands_out_fresh_windows() {
    let decoder = GStreamerAudioDecoder::new();
    let mut window = decoder.window();
    assert_eq!(window.in_flight(), 0);
    assert_eq!(window.reserve(), Admission::Granted);
    assert_eq!(decoder.window().in_flight(), 0);
}

#[test]
fn resume_with_a_credit_starts_the_window_over() {
    let mut window = CreditWindow::new();
    for _ in 0..40 {
        window.reserve();
    }
    assert_eq!(window.resume(true), Admission::Granted);
    assert_eq!(window.in_flight(), 1);
}

#[test]
fn resume_without_a_credit_changes_nothing() {
    let mut window = CreditWindow::new();
    for _ in 0..40 {
        window.reserve();
    }
    assert_eq!(window.resume(false), Admission::AwaitCredit);
    assert_eq!(window.in_flight(), 40);
}

#[test]
fn acquire_does_not_wait_below_the_threshold() {
    // No credit is ever sent: a wait would never end.
    let (_consumer, credits) = mpsc::channel::<()>();
    let credits = Mutex::new(credits);
    let mut window = CreditWindow::new();
    for taken in 1..=40 {
        assert_eq!(window.acquire(&credits), Admission::Granted);
        assert_eq!(window.in_flight(), taken);
    }
}

#[test]
fn acquire_consumes_one_credit_at_the_threshold() {
    let (consumer, credits) = mpsc::channel::<()>();
    let credits = Mutex::new(credits);
    let mut window = CreditWindow::new();
    for _ in 0..40 {
        window.acquire(&credits);
    }
    consumer.send(()).unwrap();
    consumer.send(()).unwrap();
    assert_eq!(window.acquire(&credits), Admission::Granted);
    assert_eq!(window.in_flight(), 1);
    // The second credit is still there: forty blocks later it is used.
    for _ in 0..39 {
        assert_eq!(window.acquire(&credits), Admission::Granted);
    }
    assert_eq!(window.in_flight(), 40);
    assert_eq!(window.acquire(&credits), Admission::Granted);
    assert_eq!(window.in_flight(), 1);
    assert!(credits.lock().unwrap().try_recv().is_err());
}

#[test]
fn acquire_grants_nothing_once_the_consumer_is_gone() {
    let (consumer, credits) = mpsc::channel::<()>();
    let credits = Mutex::new(credits);
    let mut window = CreditWindow::new();
    for _ in 0..40 {
        assert_eq!(window.acquire(&credits), Admission::Granted);
    }
    drop(consumer);
    assert_eq!(window.acquire(&credits), Admission::AwaitCredit);
    assert_eq!(window.in_flight(), 40);
}
