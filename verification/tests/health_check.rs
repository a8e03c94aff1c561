use podtest::health::{HealthAction, HealthCheck, HealthError, HealthEvent, HttpStatus, Probe};

fn start(max: u32) -> (HealthCheck, Vec<String>, HealthAction) {
    let (h, lines, a) = HealthCheck::start(
        "http://localhost:3000/up".to_string(),
        "/up".to_string(),
        10,
        max,
    );
    (h, lines.iter().map(|l| l.render()).collect(), a)
}

fn answered(code: u16, body: &str) -> HealthEvent {
    HealthEvent::Probed(Probe::Answered { status: HttpStatus::new(code).unwrap(), body: Ok(body.to_string()) })
}

#[test]
fn passes_on_first_success() {
    let (mut h, lines, a) = start(5);
    assert_eq!(lines.len(), 2);
    assert!(lines[0].ends_with(" http://localhost:3000/up"));
    assert!(lines[1].ends_with(" 1/5"));
    assert!(matches!(a, HealthAction::Probe { ref url, timeout_secs: 10 } if url == "http://localhost:3000/up"));
    let (lines, a) = h.step(answered(200, "ok"));
    assert!(matches!(a, HealthAction::Done(Ok(()))));
    assert_eq!(lines[0].detail.as_deref(), Some("status_code=200 OK, content=ok"));
    assert_eq!(lines[1].label, "Health check passed:");
    assert_eq!(lines[1].detail.as_deref(), Some("/up endpoint returned 200"));
    assert!(h.is_finished());
}

#[test]
fn retries_after_failures_then_passes() {
    let (mut h, _, _) = start(3);
    let (lines, a) = h.step(HealthEvent::Probed(Probe::TimedOut));
    assert_eq!(lines[0].detail.as_deref(), Some("1/3 timed out after 10 seconds"));
    assert!(matches!(a, HealthAction::Sleep { secs: 1 }));
    let (lines, a) = h.step(HealthEvent::Slept);
    assert_eq!(lines[0].detail.as_deref(), Some("2/3"));
    assert!(matches!(a, HealthAction::Probe { .. }));
    let (_, a) = h.step(answered(503, "down"));
    assert!(matches!(a, HealthAction::Sleep { secs: 1 }));
    let (_, a) = h.step(HealthEvent::Slept);
    assert!(matches!(a, HealthAction::Probe { .. }));
    let (_, a) = h.step(answered(204, ""));
    assert!(matches!(a, HealthAction::Done(Ok(()))));
}

#[test]
fn gives_up_after_last_attempt() {
    let (mut h, _, _) = start(2);
    let (lines, _) = h.step(HealthEvent::Probed(Probe::Failed { error: "refused".to_string() }));
    assert_eq!(lines[0].hue, Some(podtest::report::Hue::Red));
    assert_eq!(lines[0].detail.as_deref(), Some("1/2 failed: refused"));
    h.step(HealthEvent::Slept);
    let (_, a) = h.step(HealthEvent::Probed(Probe::TimedOut));
    match a {
        HealthAction::Done(Err(e)) => {
            assert!(matches!(e, HealthError::TimedOut(2)));
            assert_eq!(e.message(), "Health check timed out after 2 attempts");
        }
        _ => panic!("expected the check to end"),
    }
}

#[test]
fn last_bad_status_is_reported() {
    let (mut h, _, _) = start(1);
    let (_, a) = h.step(answered(500, "boom"));
    match a {
        HealthAction::Done(Err(e)) => {
            assert_eq!(e.message(), "Health check failed with status 500 Internal Server Error")
        }
        _ => panic!("expected the check to end"),
    }
}

#[test]
fn last_request_error_is_reported() {
    let (mut h, _, _) = start(1);
    let (_, a) = h.step(HealthEvent::Probed(Probe::Failed { error: "refused".to_string() }));
    match a {
        HealthAction::Done(Err(e)) => assert_eq!(e.message(), "Health check failed: refused"),
        _ => panic!("expected the check to end"),
    }
}

#[test]
fn unreadable_body_ends_at_once() {
    let (mut h, _, _) = start(5);
    let event = HealthEvent::Probed(Probe::Answered {
        status: HttpStatus::new(200).unwrap(),
        body: Err("decode error".to_string()),
    });
    let (lines, a) = h.step(event);
    assert!(lines.is_empty());
    match a {
        HealthAction::Done(Err(e)) => assert_eq!(e.message(), "decode error"),
        _ => panic!("expected the check to end"),
    }
}

#[test]
fn no_attempts_allowed() {
    let (h, lines, a) = start(0);
    assert_eq!(lines.len(), 1);
    assert!(h.is_finished());
    match a {
        HealthAction::Done(Err(e)) => assert_eq!(e.message(), "Health check failed after 0 attempts"),
        _ => panic!("expected the check to end"),
    }
}

#[test]
fn response_content_is_cut_to_a_hundred_characters() {
    let (mut h, _, _) = start(1);
    let body: String = std::iter::repeat('a').take(250).collect();
    let (lines, _) = h.step(answered(404, &body));
    let expected = format!("status_code=404 Not Found, content={}", "a".repeat(100));
    assert_eq!(lines[0].detail.as_deref(), Some(expected.as_str()));
}

#[test]
fn never_probes_more_than_allowed() {
    for max in 1..6u32 {
        let (mut h, _, mut a) = start(max);
        let mut probes = 1;
        loop {
            match a {
                HealthAction::Probe { .. } => {
                    let (_, next) = h.step(HealthEvent::Probed(Probe::TimedOut));
                    a = next;
                }
                HealthAction::Sleep { .. } => {
                    let (_, next) = h.step(HealthEvent::Slept);
                    if matches!(next, HealthAction::Probe { .. }) {
                        probes += 1;
                    }
                    a = next;
                }
                HealthAction::Done(_) => break,
            }
        }
        assert_eq!(probes, max);
    }
}
