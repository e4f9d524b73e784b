use weight_wb::weight::{
    info_request, next_emulated_weight, parse_decimal, parse_weight_response, trim_bounds,
    weight_request, Action, AwakeError, Decimal, EngineState, Event, Lifecycle, ScaleError,
};

fn response(sign: u8, digits: &[u8; 6]) -> Vec<u8> {
    let mut r = vec![0x30u8; 45];
    r[14] = sign;
    r[15..21].copy_from_slice(digits);
    r
}

fn as_f64(d: Decimal) -> f64 {
    d.units as f64 / 10f64.powi(d.frac_digits as i32)
}

#[test]
fn negative_weight_parses() {
    let d = parse_weight_response(&response(0x2d, b"012.50")).unwrap();
    assert_eq!(d, Decimal { units: -1250, frac_digits: 2 });
    assert_eq!(as_f64(d), -12.5);
}

#[test]
fn positive_weight_parses() {
    let d = parse_weight_response(&response(0x20, b"  3.25")).unwrap();
    assert_eq!(d, Decimal { units: 325, frac_digits: 2 });
    let d = parse_weight_response(&response(0x20, b"20    ")).unwrap();
    assert_eq!(d, Decimal { units: 20, frac_digits: 0 });
}

#[test]
fn malformed_weights_fail() {
    assert!(matches!(parse_weight_response(&response(0x2b, b"012.50")), Err(ScaleError::FailedToParse)));
    assert!(matches!(parse_weight_response(&response(0x20, b"01a.50")), Err(ScaleError::FailedToParse)));
    assert!(matches!(parse_weight_response(&response(0x20, b"1.2.30")), Err(ScaleError::FailedToParse)));
    assert!(matches!(parse_weight_response(&response(0x20, b"      ")), Err(ScaleError::FailedToParse)));
    assert!(matches!(parse_weight_response(&response(0x20, b"1 2.00")), Err(ScaleError::FailedToParse)));
    assert!(matches!(parse_weight_response(&response(0x20, &[0xc3, 0xa4, 0x31, 0x32, 0x33, 0x34])), Err(ScaleError::FailedToParse)));
    assert!(matches!(parse_weight_response(&[0x20; 44]), Err(ScaleError::FailedToParse)));
}

#[test]
fn decimals_parse() {
    assert_eq!(parse_decimal(b"-0.5"), Some(Decimal { units: -5, frac_digits: 1 }));
    assert_eq!(parse_decimal(b"+7"), Some(Decimal { units: 7, frac_digits: 0 }));
    assert_eq!(parse_decimal(b".25"), Some(Decimal { units: 25, frac_digits: 2 }));
    assert_eq!(parse_decimal(b"4."), Some(Decimal { units: 4, frac_digits: 0 }));
    assert_eq!(parse_decimal(b""), None);
    assert_eq!(parse_decimal(b"-"), None);
    assert_eq!(parse_decimal(b"."), None);
    assert_eq!(parse_decimal(b"1e3"), None);
    assert_eq!(parse_decimal(b"inf"), None);
    assert_eq!(parse_decimal(b"999999999999999999"), Some(Decimal { units: 999_999_999_999_999_999, frac_digits: 0 }));
}

#[test]
fn trimming() {
    assert_eq!(trim_bounds(b" \t12 \n"), (2, 4));
    assert_eq!(trim_bounds(b"   "), (3, 3));
    assert_eq!(trim_bounds(b"x"), (0, 1));
}

#[test]
fn requests() {
    assert_eq!(info_request(), vec![0x04, 0x05]);
    assert_eq!(weight_request(), vec![0x13]);
}

#[test]
fn scripted_port_reports_negative_weight() {
    let mut s = EngineState::initial();
    assert_eq!(s.action(), Action::OpenPort);
    let script = vec![
        (Event::Opened, Action::WriteInfoRequest),
        (Event::Written, Action::ReadInfoResponse),
        (Event::Read(vec![0x00]), Action::WriteWeightRequest),
        (Event::Written, Action::ReadWeightResponse),
    ];
    for (e, a) in script {
        let t = s.step(e);
        assert_eq!(t.action, a);
        assert!(t.publish.is_none());
        s = t.state;
    }
    let t = s.step(Event::Read(response(0x2d, b"012.50")));
    assert_eq!(t.action, Action::WaitPause);
    let d = match t.publish {
        Some(Ok(d)) => d,
        other => panic!("unexpected reading {:?}", other),
    };
    assert_eq!(as_f64(d), -12.5);
    let t = t.state.step(Event::TimedOut);
    assert_eq!(t.state, EngineState::SendInfo);
    assert_eq!(t.action, Action::WriteInfoRequest);
}

#[test]
fn failures_reopen_the_port() {
    let t = EngineState::AwaitInfo.step(Event::IoFailed(String::from("timed out")));
    assert_eq!(t.state, EngineState::Opening);
    assert_eq!(t.action, Action::OpenPort);
    assert!(matches!(t.publish, Some(Err(ScaleError::IO(ref m))) if m == "timed out"));
    let t = EngineState::AwaitWeight.step(Event::Read(response(0x41, b"012.50")));
    assert_eq!(t.state, EngineState::Opening);
    assert!(matches!(t.publish, Some(Err(ScaleError::FailedToParse))));
}

#[test]
fn failed_open_backs_off() {
    let t = EngineState::Opening.step(Event::OpenFailed(String::from("no such file")));
    assert_eq!(t.state, EngineState::Backoff);
    assert_eq!(t.action, Action::WaitBackoff);
    assert!(matches!(t.publish, Some(Err(ScaleError::SerialPort(_)))));
    let t = EngineState::Backoff.step(Event::TimedOut);
    assert_eq!(t.action, Action::OpenPort);
}

#[test]
fn cancel_during_backoff_stops() {
    let t = EngineState::Backoff.step(Event::Cancelled);
    assert_eq!(t.state, EngineState::Stopped);
    assert_eq!(t.action, Action::Stop);
    assert!(t.publish.is_none());
    let t = EngineState::Stopped.step(Event::Opened);
    assert_eq!(t.state, EngineState::Stopped);
    for s in [EngineState::SendInfo, EngineState::AwaitWeight, EngineState::Pause] {
        assert_eq!(s.step(Event::Cancelled).action, Action::Stop);
    }
}

#[test]
fn unexpected_events_change_nothing() {
    let t = EngineState::Pause.step(Event::Written);
    assert_eq!(t.state, EngineState::Pause);
    assert_eq!(t.action, Action::WaitPause);
    assert!(t.publish.is_none());
}

#[test]
fn lifecycle_moves_forward() {
    let mut l = Lifecycle::new();
    assert_eq!(l.check(), Ok(()));
    assert_eq!(l.wait_outcome(true), Ok(()));
    assert_eq!(l.wait_outcome(false), Err(AwakeError));
    l.cancel();
    assert_eq!(l, Lifecycle::StopRequested);
    assert!(l.is_cancelled());
    assert_eq!(l.check(), Err(AwakeError));
    assert_eq!(l.wait_outcome(true), Err(AwakeError));
    l.finish();
    l.cancel();
    assert_eq!(l, Lifecycle::Stopped);
}

#[test]
fn emulated_weight_ramps_and_wraps() {
    assert_eq!(next_emulated_weight(420), 421);
    assert_eq!(next_emulated_weight(500), 501);
    assert_eq!(next_emulated_weight(501), 420);
}
