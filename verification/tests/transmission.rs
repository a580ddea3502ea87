use icmp_echo::transmit::Ipv4Address;
use icmp_echo::transmit::ScriptedTransport;
use icmp_echo::transmit::SendAttempt;
use icmp_echo::transmit::SendError;
use icmp_echo::transmit::TransmitError;
use icmp_echo::transmit::record_outcome;
use icmp_echo::transmit::transmit;

#[test]
fn denied_channel_fails_fast_before_any_send() {
    let mut transport = ScriptedTransport::new(false, true, 5);
    let r = transmit(&mut transport, Ipv4Address::new(8, 8, 8, 8));
    assert_eq!(r, Err(TransmitError::ChannelUnavailable));
    assert_eq!(transport.opens, 1);
    assert_eq!(transport.sends, 0);
}

#[test]
fn accepted_send_reports_success() {
    let mut transport = ScriptedTransport::new(true, true, 3);
    let r = transmit(&mut transport, Ipv4Address::new(8, 8, 8, 8));
    let outcome = r.expect("channel was available");
    assert!(outcome.succeeded);
    assert_eq!(outcome.elapsed_micros, 3);
    assert_eq!(transport.sends, 1);
    assert_eq!(outcome.describe(), "echo request sent");
}

#[test]
fn rejected_send_reports_failure_with_diagnostic() {
    let mut transport = ScriptedTransport::new(true, false, 7);
    let r = transmit(&mut transport, Ipv4Address::new(8, 8, 8, 8));
    // The outcome is still returned, not dropped, so failures can be counted.
    let outcome = r.expect("channel was available");
    assert!(!outcome.succeeded);
    assert_eq!(outcome.elapsed_micros, 7);
    assert_eq!(transport.sends, 1);
    assert_eq!(outcome.describe(), "echo request send failed");
}

#[test]
fn elapsed_time_is_kept_in_the_outcome() {
    for micros in [0u64, 1, 250, u64::MAX] {
        let mut transport = ScriptedTransport::new(true, true, micros);
        let outcome = transmit(&mut transport, Ipv4Address::new(8, 8, 8, 8)).unwrap();
        assert_eq!(outcome.elapsed_micros, micros);
    }
}

#[test]
fn record_outcome_maps_errors_to_failed() {
    let attempt = SendAttempt { result: Err(SendError::SendFailed), elapsed_micros: 9 };
    let outcome = record_outcome(attempt);
    assert!(!outcome.succeeded);
    assert_eq!(outcome.elapsed_micros, 9);
}

#[test]
fn record_outcome_maps_ok_to_succeeded() {
    let attempt = SendAttempt { result: Ok(()), elapsed_micros: 0 };
    let outcome = record_outcome(attempt);
    assert!(outcome.succeeded);
    assert_eq!(outcome.elapsed_micros, 0);
}
