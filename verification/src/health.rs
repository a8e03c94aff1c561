//! The health check: probe an HTTP endpoint up to a number of times, one
//! second apart, until it answers with a success status.
use vstd::prelude::*;
use crate::report::{Hue, Line, LineView, say_with, views, emit_with};
use crate::text::{append, decimal, decimal_string, push_char, take_chars};

verus! {

// ---------------------------------------------------------------------------
// HTTP status codes
// ---------------------------------------------------------------------------

/// An HTTP status code, a number from 100 to 999.
pub struct HttpStatus {
    code: u16,
}

impl HttpStatus {
    #[verifier::type_invariant]
    spec fn in_range(self) -> bool {
        100 <= self.code <= 999
    }

    /// The number of this status.
    pub closed spec fn number(self) -> u16 {
        self.code
    }

    /// The status with number `code`, if `code` is a valid status number.
    pub fn new(code: u16) -> (r: Option<HttpStatus>)
        ensures
            r is Some <==> 100 <= code <= 999,
            r matches Some(s) ==> s.number() == code,
    {
        if 100 <= code && code <= 999 {
            Some(HttpStatus { code })
        } else {
            None
        }
    }

    /// The number of this status.
    pub fn code(&self) -> (c: u16)
        ensures
            c == self.number(),
            100 <= c <= 999,
    {
        proof {
            use_type_invariant(self);
        }
        self.code
    }
}

/// The reason phrase that the `http` crate's table holds for `code`.
pub uninterp spec fn reason_phrase(code: u16) -> Option<Seq<char>>;

/// The canonical reason phrase of a status, by
/// `reqwest::StatusCode::canonical_reason`.
///
/// Trusted: the phrase is `reason_phrase(code)`, the name of the crate's
/// table entry; nothing is claimed of its text.
#[verifier::external_body]
fn canonical_reason(code: u16) -> (r: Option<String>)
    requires
        100 <= code <= 999,
    ensures
        match r {
            Some(s) => reason_phrase(code) == Some(s@),
            None => reason_phrase(code) == None::<Seq<char>>,
        },
{
    match reqwest::StatusCode::from_u16(code) {
        Ok(s) => s.canonical_reason().map(String::from),
        Err(_) => None,
    }
}

/// Whether a status is a success, by `reqwest::StatusCode::is_success`.
///
/// Trusted: the crate defines success as a number from 200 to 299.
#[verifier::external_body]
fn status_is_success(code: u16) -> (r: bool)
    requires
        100 <= code <= 999,
    ensures
        r == (200 <= code && code < 300),
{
    match reqwest::StatusCode::from_u16(code) {
        Ok(s) => s.is_success(),
        Err(_) => false,
    }
}

/// A status as `reqwest::StatusCode` displays it: the number, a space, and
/// the reason phrase or `<unknown status code>`.
pub open spec fn status_text(code: u16) -> Seq<char> {
    decimal(code as nat) + seq![' '] + match reason_phrase(code) {
        Some(r) => r,
        None => "<unknown status code>"@,
    }
}

/// Whether `code` is a success status (200 to 299).
pub open spec fn is_success(code: u16) -> bool {
    200 <= code && code < 300
}

impl HttpStatus {
    /// The status as it is displayed.
    pub fn text(&self) -> (r: String)
        ensures
            r@ == status_text(self.number()),
    {
        let code = self.code();
        let mut r = decimal_string(code as u64);
        push_char(&mut r, ' ');
        match canonical_reason(code) {
            Some(reason) => append(&mut r, reason.as_str()),
            None => append(&mut r, "<unknown status code>"),
        }
        r
    }

    /// Whether the status is a success.
    pub fn is_success(&self) -> (r: bool)
        ensures
            r == is_success(self.number()),
    {
        status_is_success(self.code())
    }
}

// ---------------------------------------------------------------------------
// Events, actions and errors
// ---------------------------------------------------------------------------

/// What came of one request to the endpoint.
pub enum Probe {
    /// The endpoint answered with `status`; `body` is its text, or the
    /// error met while reading it.
    Answered { status: HttpStatus, body: Result<String, String> },
    /// The request failed before an answer came.
    Failed { error: String },
    /// No answer came within the timeout.
    TimedOut,
}

/// The mathematical content of a [`Probe`].
pub enum ProbeView {
    Answered { status: u16, body: Result<Seq<char>, Seq<char>> },
    Failed { error: Seq<char> },
    TimedOut,
}

impl View for Probe {
    type V = ProbeView;

    open spec fn view(&self) -> ProbeView {
        match self {
            Probe::Answered { status, body } => ProbeView::Answered {
                status: status.number(),
                body: match body {
                    Ok(t) => Ok(t@),
                    Err(e) => Err(e@),
                },
            },
            Probe::Failed { error } => ProbeView::Failed { error: error@ },
            Probe::TimedOut => ProbeView::TimedOut,
        }
    }
}

/// What the host reports back to the health check.
pub enum HealthEvent {
    /// The probe asked for has been made.
    Probed(Probe),
    /// The pause asked for is over.
    Slept,
}

/// The mathematical content of a [`HealthEvent`].
pub enum HealthEventView {
    Probed(ProbeView),
    Slept,
}

impl View for HealthEvent {
    type V = HealthEventView;

    open spec fn view(&self) -> HealthEventView {
        match self {
            HealthEvent::Probed(p) => HealthEventView::Probed(p@),
            HealthEvent::Slept => HealthEventView::Slept,
        }
    }
}

/// Why a health check failed.
pub enum HealthError {
    /// The last attempt was answered with a status that is not a success.
    BadStatus(HttpStatus),
    /// The last attempt failed with this error.
    RequestFailed(String),
    /// The last attempt timed out; the number of attempts made.
    TimedOut(u32),
    /// No attempt was allowed; the number of attempts allowed.
    NeverTried(u32),
    /// The body of an answer could not be read.
    Body(String),
}

/// The mathematical content of a [`HealthError`].
pub enum HealthErrorView {
    BadStatus(u16),
    RequestFailed(Seq<char>),
    TimedOut(u32),
    NeverTried(u32),
    Body(Seq<char>),
}

impl View for HealthError {
    type V = HealthErrorView;

    open spec fn view(&self) -> HealthErrorView {
        match self {
            HealthError::BadStatus(s) => HealthErrorView::BadStatus(s.number()),
            HealthError::RequestFailed(e) => HealthErrorView::RequestFailed(e@),
            HealthError::TimedOut(n) => HealthErrorView::TimedOut(*n),
            HealthError::NeverTried(n) => HealthErrorView::NeverTried(*n),
            HealthError::Body(e) => HealthErrorView::Body(e@),
        }
    }
}

/// The message a health-check error is reported with.
pub open spec fn health_error_message(e: HealthErrorView) -> Seq<char> {
    match e {
        HealthErrorView::BadStatus(s) => "Health check failed with status "@ + status_text(s),
        HealthErrorView::RequestFailed(m) => "Health check failed: "@ + m,
        HealthErrorView::TimedOut(n) => "Health check timed out after "@ + decimal(n as nat)
            + " attempts"@,
        HealthErrorView::NeverTried(n) => "Health check failed after "@ + decimal(n as nat)
            + " attempts"@,
        HealthErrorView::Body(m) => m,
    }
}

impl HealthError {
    /// The message this error is reported with.
    pub fn message(&self) -> (r: String)
        ensures
            r@ == health_error_message(self@),
    {
        match self {
            HealthError::BadStatus(s) => {
                let mut r = String::from_str("Health check failed with status ");
                let t = s.text();
                append(&mut r, t.as_str());
                r
            },
            HealthError::RequestFailed(m) => {
                let mut r = String::from_str("Health check failed: ");
                append(&mut r, m.as_str());
                r
            },
            HealthError::TimedOut(n) => {
                let mut r = String::from_str("Health check timed out after ");
                let d = decimal_string(*n as u64);
                append(&mut r, d.as_str());
                append(&mut r, " attempts");
                r
            },
            HealthError::NeverTried(n) => {
                let mut r = String::from_str("Health check failed after ");
                let d = decimal_string(*n as u64);
                append(&mut r, d.as_str());
                append(&mut r, " attempts");
                r
            },
            HealthError::Body(m) => m.clone(),
        }
    }
}

/// What the health check asks the host to do next.
pub enum HealthAction {
    /// Send a GET request to `url` and wait at most `timeout_secs` seconds.
    Probe { url: String, timeout_secs: u64 },
    /// Wait `secs` seconds.
    Sleep { secs: u64 },
    /// The check is over.
    Done(Result<(), HealthError>),
}

/// The mathematical content of a [`HealthAction`].
pub enum HealthActionView {
    Probe { url: Seq<char>, timeout_secs: u64 },
    Sleep { secs: u64 },
    Done(Result<(), HealthErrorView>),
}

impl View for HealthAction {
    type V = HealthActionView;

    open spec fn view(&self) -> HealthActionView {
        match self {
            HealthAction::Probe { url, timeout_secs } => HealthActionView::Probe {
                url: url@,
                timeout_secs: *timeout_secs,
            },
            HealthAction::Sleep { secs } => HealthActionView::Sleep { secs: *secs },
            HealthAction::Done(r) => HealthActionView::Done(
                match r {
                    Ok(()) => Ok(()),
                    Err(e) => Err(e@),
                },
            ),
        }
    }
}

// ---------------------------------------------------------------------------
// The machine
// ---------------------------------------------------------------------------

/// Where a health check stands.
#[derive(Clone, Copy, Debug, PartialEq, Eq, Structural)]
pub enum HealthStage {
    /// A probe has been asked for.
    Probing,
    /// A pause has been asked for.
    Pausing,
    /// The check is over.
    Finished,
}

/// A health check in progress.
pub struct HealthCheck {
    attempts: u32,
    max_attempts: u32,
    timeout_secs: u64,
    url: String,
    path: String,
    stage: HealthStage,
}

/// The mathematical content of a [`HealthCheck`].
pub struct HealthView {
    /// Probes asked for so far.
    pub attempts: u32,
    /// Probes allowed.
    pub max_attempts: u32,
    pub timeout_secs: u64,
    pub url: Seq<char>,
    /// The endpoint's path, as the messages name it.
    pub path: Seq<char>,
    pub stage: HealthStage,
}

impl View for HealthCheck {
    type V = HealthView;

    closed spec fn view(&self) -> HealthView {
        HealthView {
            attempts: self.attempts,
            max_attempts: self.max_attempts,
            timeout_secs: self.timeout_secs,
            url: self.url@,
            path: self.path@,
            stage: self.stage,
        }
    }
}

/// The health check's invariant: a probe is pending only as one of the
/// `max_attempts` allowed, and a pause only while another probe is allowed.
pub open spec fn health_inv(s: HealthView) -> bool {
    &&& s.stage == HealthStage::Probing ==> 1 <= s.attempts <= s.max_attempts
    &&& s.stage == HealthStage::Pausing ==> 1 <= s.attempts < s.max_attempts
}

/// Whether the check, in state `s`, waits for the event `e`.
pub open spec fn health_awaits(s: HealthView, e: HealthEventView) -> bool {
    match s.stage {
        HealthStage::Probing => e is Probed,
        HealthStage::Pausing => e is Slept,
        HealthStage::Finished => false,
    }
}

/// The line announcing probe `n` of `max`.
pub open spec fn attempt_line(n: u32, max: u32) -> LineView {
    say_with(
        Some(Hue::Yellow),
        "Health check attempt:"@,
        decimal(n as nat) + "/"@ + decimal(max as nat),
    )
}

/// `s` cut to its first hundred characters.
pub open spec fn first_hundred(s: Seq<char>) -> Seq<char> {
    s.take(if s.len() > 100 { 100 } else { s.len() as int })
}

/// The first lines and action of a check of `url` allowing `max` probes.
pub open spec fn health_start(
    url: Seq<char>,
    path: Seq<char>,
    timeout_secs: u64,
    max: u32,
) -> (HealthView, Seq<LineView>, HealthActionView) {
    let intro = say_with(Some(Hue::Yellow), "Testing health check endpoint:"@, url);
    let s = HealthView {
        attempts: 0,
        max_attempts: max,
        timeout_secs,
        url,
        path,
        stage: HealthStage::Finished,
    };
    if max == 0 {
        (s, seq![intro], HealthActionView::Done(Err(HealthErrorView::NeverTried(max))))
    } else {
        (
            HealthView { attempts: 1, stage: HealthStage::Probing, ..s },
            seq![intro, attempt_line(1, max)],
            HealthActionView::Probe { url, timeout_secs },
        )
    }
}

/// After a failed probe: give up if it was the last, else pause a second.
pub open spec fn after_failure(s: HealthView, err: HealthErrorView) -> (
    HealthView,
    HealthActionView,
) {
    if s.attempts >= s.max_attempts {
        (HealthView { stage: HealthStage::Finished, ..s }, HealthActionView::Done(Err(err)))
    } else {
        (HealthView { stage: HealthStage::Pausing, ..s }, HealthActionView::Sleep { secs: 1 })
    }
}

/// One step of the check: the next state, the lines to print and the next
/// action, for the event `e` in the state `s`.
pub open spec fn health_next(s: HealthView, e: HealthEventView) -> (
    HealthView,
    Seq<LineView>,
    HealthActionView,
) {
    let count = decimal(s.attempts as nat) + "/"@ + decimal(s.max_attempts as nat);
    match e {
        HealthEventView::Probed(ProbeView::Answered { status, body: Err(m) }) => (
            HealthView { stage: HealthStage::Finished, ..s },
            seq![],
            HealthActionView::Done(Err(HealthErrorView::Body(m))),
        ),
        HealthEventView::Probed(ProbeView::Answered { status, body: Ok(text) }) => {
            let answer = say_with(
                Some(Hue::Yellow),
                "Health check response:"@,
                "status_code="@ + status_text(status) + ", content="@ + first_hundred(text),
            );
            if is_success(status) {
                (
                    HealthView { stage: HealthStage::Finished, ..s },
                    seq![
                        answer,
                        say_with(
                            Some(Hue::Green),
                            "Health check passed:"@,
                            s.path + " endpoint returned 200"@,
                        ),
                    ],
                    HealthActionView::Done(Ok(())),
                )
            } else {
                let (t, a) = after_failure(s, HealthErrorView::BadStatus(status));
                (t, seq![answer], a)
            }
        },
        HealthEventView::Probed(ProbeView::Failed { error }) => {
            let (t, a) = after_failure(s, HealthErrorView::RequestFailed(error));
            (
                t,
                seq![
                    say_with(Some(Hue::Red), "Health check attempt:"@, count + " failed: "@ + error),
                ],
                a,
            )
        },
        HealthEventView::Probed(ProbeView::TimedOut) => {
            let (t, a) = after_failure(s, HealthErrorView::TimedOut(s.max_attempts));
            (
                t,
                seq![
                    say_with(
                        Some(Hue::Yellow),
                        "Health check attempt:"@,
                        count + " timed out after "@ + decimal(s.timeout_secs as nat)
                            + " seconds"@,
                    ),
                ],
                a,
            )
        },
        HealthEventView::Slept => {
            let n = (s.attempts + 1) as u32;
            (
                HealthView { attempts: n, stage: HealthStage::Probing, ..s },
                seq![attempt_line(n, s.max_attempts)],
                HealthActionView::Probe { url: s.url, timeout_secs: s.timeout_secs },
            )
        },
    }
}

fn count_string(n: u32, max: u32) -> (r: String)
    ensures
        r@ == decimal(n as nat) + "/"@ + decimal(max as nat),
{
    let mut r = decimal_string(n as u64);
    append(&mut r, "/");
    let m = decimal_string(max as u64);
    append(&mut r, m.as_str());
    r
}

impl HealthCheck {
    /// Whether the check waits for `e`.
    pub fn awaits(&self, e: &HealthEvent) -> (r: bool)
        ensures
            r == health_awaits(self@, e@),
    {
        match (self.stage, e) {
            (HealthStage::Probing, HealthEvent::Probed(_)) => true,
            (HealthStage::Pausing, HealthEvent::Slept) => true,
            _ => false,
        }
    }

    /// Where the check stands.
    pub fn stage(&self) -> (r: HealthStage)
        ensures
            r == self@.stage,
    {
        self.stage
    }

    /// Whether the check is over.
    pub fn is_finished(&self) -> (r: bool)
        ensures
            r == (self@.stage == HealthStage::Finished),
    {
        self.stage == HealthStage::Finished
    }

    /// Starts a check of `url` (whose path is `path`) allowing `max_attempts`
    /// probes of at most `timeout_secs` seconds each.
    pub fn start(url: String, path: String, timeout_secs: u64, max_attempts: u32) -> (r: (
        HealthCheck,
        Vec<Line>,
        HealthAction,
    ))
        ensures
            (r.0@, views(r.1@), r.2@) == health_start(url@, path@, timeout_secs, max_attempts),
            health_inv(r.0@),
    {
        let mut lines: Vec<Line> = Vec::new();
        emit_with(
            &mut lines,
            Some(Hue::Yellow),
            String::from_str("Testing health check endpoint:"),
            url.clone(),
        );
        if max_attempts == 0 {
            let s = HealthCheck {
                attempts: 0,
                max_attempts,
                timeout_secs,
                url,
                path,
                stage: HealthStage::Finished,
            };
            assert(views(lines@) =~= health_start(url@, path@, timeout_secs, max_attempts).1);
            (s, lines, HealthAction::Done(Err(HealthError::NeverTried(max_attempts))))
        } else {
            emit_with(
                &mut lines,
                Some(Hue::Yellow),
                String::from_str("Health check attempt:"),
                count_string(1, max_attempts),
            );
            let u = url.clone();
            let s = HealthCheck {
                attempts: 1,
                max_attempts,
                timeout_secs,
                url,
                path,
                stage: HealthStage::Probing,
            };
            assert(views(lines@) =~= health_start(u@, s.path@, timeout_secs, max_attempts).1);
            (s, lines, HealthAction::Probe { url: u, timeout_secs })
        }
    }

    fn after_failure(&mut self, err: HealthError) -> (a: HealthAction)
        ensures
            (final(self)@, a@) == after_failure(old(self)@, err@),
    {
        if self.attempts >= self.max_attempts {
            self.stage = HealthStage::Finished;
            HealthAction::Done(Err(err))
        } else {
            self.stage = HealthStage::Pausing;
            HealthAction::Sleep { secs: 1 }
        }
    }

    /// Takes the event `e` and returns the lines to print and what to do next.
    pub fn step(&mut self, e: HealthEvent) -> (r: (Vec<Line>, HealthAction))
        requires
            health_inv(old(self)@),
            health_awaits(old(self)@, e@),
        ensures
            (final(self)@, views(r.0@), r.1@) == health_next(old(self)@, e@),
            health_inv(final(self)@),
    {
        let ghost s0 = self@;
        let mut lines: Vec<Line> = Vec::new();
        match e {
            HealthEvent::Probed(Probe::Answered { status, body }) => {
                match body {
                    Err(m) => {
                        self.stage = HealthStage::Finished;
                        assert(views(lines@) =~= health_next(s0, e@).1);
                        (lines, HealthAction::Done(Err(HealthError::Body(m))))
                    },
                    Ok(text) => {
                        let mut detail = String::from_str("status_code=");
                        let st = status.text();
                        append(&mut detail, st.as_str());
                        append(&mut detail, ", content=");
                        let head = take_chars(text.as_str(), 100);
                        append(&mut detail, head.as_str());
                        emit_with(
                            &mut lines,
                            Some(Hue::Yellow),
                            String::from_str("Health check response:"),
                            detail,
                        );
                        if status.is_success() {
                            let mut passed = self.path.clone();
                            append(&mut passed, " endpoint returned 200");
                            emit_with(
                                &mut lines,
                                Some(Hue::Green),
                                String::from_str("Health check passed:"),
                                passed,
                            );
                            self.stage = HealthStage::Finished;
                            assert(views(lines@) =~= health_next(s0, e@).1);
                            (lines, HealthAction::Done(Ok(())))
                        } else {
                            let a = self.after_failure(HealthError::BadStatus(status));
                            assert(views(lines@) =~= health_next(s0, e@).1);
                            (lines, a)
                        }
                    },
                }
            },
            HealthEvent::Probed(Probe::Failed { error }) => {
                let mut detail = count_string(self.attempts, self.max_attempts);
                append(&mut detail, " failed: ");
                append(&mut detail, error.as_str());
                emit_with(
                    &mut lines,
                    Some(Hue::Red),
                    String::from_str("Health check attempt:"),
                    detail,
                );
                let a = self.after_failure(HealthError::RequestFailed(error));
                assert(views(lines@) =~= health_next(s0, e@).1);
                (lines, a)
            },
            HealthEvent::Probed(Probe::TimedOut) => {
                let mut detail = count_string(self.attempts, self.max_attempts);
                append(&mut detail, " timed out after ");
                let t = decimal_string(self.timeout_secs);
                append(&mut detail, t.as_str());
                append(&mut detail, " seconds");
                emit_with(
                    &mut lines,
                    Some(Hue::Yellow),
                    String::from_str("Health check attempt:"),
                    detail,
                );
                let a = self.after_failure(HealthError::TimedOut(self.max_attempts));
                assert(views(lines@) =~= health_next(s0, e@).1);
                (lines, a)
            },
            HealthEvent::Slept => {
                self.attempts = self.attempts + 1;
                self.stage = HealthStage::Probing;
                emit_with(
                    &mut lines,
                    Some(Hue::Yellow),
                    String::from_str("Health check attempt:"),
                    count_string(self.attempts, self.max_attempts),
                );
                assert(views(lines@) =~= health_next(s0, e@).1);
                (lines, HealthAction::Probe { url: self.url.clone(), timeout_secs: self.timeout_secs })
            },
        }
    }
}

// ---------------------------------------------------------------------------
// Laws
// ---------------------------------------------------------------------------

/// A check starts with its first probe, one of those allowed, or ends at
/// once when none is allowed; it is over exactly when it says it is done.
pub proof fn law_health_start(url: Seq<char>, path: Seq<char>, timeout_secs: u64, max: u32)
    ensures
        health_inv(health_start(url, path, timeout_secs, max).0),
        (health_start(url, path, timeout_secs, max).0.stage == HealthStage::Finished) <==> (
        health_start(url, path, timeout_secs, max).2 is Done),
        health_start(url, path, timeout_secs, max).2 is Probe ==> health_start(
            url,
            path,
            timeout_secs,
            max,
        ).0.attempts == 1 <= max,
        max == 0 <==> health_start(url, path, timeout_secs, max).2 == HealthActionView::Done(
            Err(HealthErrorView::NeverTried(0)),
        ),
{
}

/// Every step keeps the check's invariant, and a new probe is asked for
/// only as the next of those allowed: the check never sends more requests
/// than `max_attempts`.  The check is over exactly when it says it is done.
pub proof fn law_health_bounded(s: HealthView, e: HealthEventView)
    requires
        health_inv(s),
        health_awaits(s, e),
    ensures
        health_inv(health_next(s, e).0),
        health_next(s, e).0.max_attempts == s.max_attempts,
        (health_next(s, e).0.stage == HealthStage::Finished) <==> (health_next(s, e).2 is Done),
        health_next(s, e).2 is Probe ==> health_next(s, e).0.attempts == s.attempts + 1
            <= s.max_attempts,
        !(health_next(s, e).2 is Probe) ==> health_next(s, e).0.attempts == s.attempts,
{
}

/// How many probes the check asks for while it takes the events `es` in
/// turn from the state `s`, up to its end or to the first event it does not
/// wait for.
pub open spec fn probes_asked(s: HealthView, es: Seq<HealthEventView>) -> nat
    decreases es.len(),
{
    if es.len() == 0 || !health_awaits(s, es[0]) {
        0
    } else {
        let (t, _, a) = health_next(s, es[0]);
        (if a is Probe {
            1nat
        } else {
            0nat
        }) + probes_asked(t, es.drop_first())
    }
}

/// Over any sequence of events, the check never asks for more probes than
/// it has left: with the probe its start asks for, a check sends at most
/// `max_attempts` requests in all.
pub proof fn law_health_run_bounded(s: HealthView, es: Seq<HealthEventView>)
    requires
        health_inv(s),
        s.attempts <= s.max_attempts,
    ensures
        s.attempts + probes_asked(s, es) <= s.max_attempts,
    decreases es.len(),
{
    if es.len() > 0 && health_awaits(s, es[0]) {
        law_health_bounded(s, es[0]);
        let t = health_next(s, es[0]).0;
        law_health_run_bounded(t, es.drop_first());
    }
}

/// A whole check of `max` attempts, from its start and over any events,
/// sends at most `max` requests.
pub proof fn law_health_total_requests(
    url: Seq<char>,
    path: Seq<char>,
    timeout_secs: u64,
    max: u32,
    es: Seq<HealthEventView>,
)
    ensures
        ({
            let (s, _, a) = health_start(url, path, timeout_secs, max);
            (if a is Probe {
                1nat
            } else {
                0nat
            }) + probes_asked(s, es) <= max
        }),
{
    let s = health_start(url, path, timeout_secs, max).0;
    law_health_run_bounded(s, es);
}

/// An answer with a success status, whose body could be read, ends the
/// check at once, successfully.
pub proof fn law_health_success_ends(s: HealthView, status: u16, body: Seq<char>)
    requires
        s.stage == HealthStage::Probing,
        is_success(status),
    ensures
        health_next(s, HealthEventView::Probed(ProbeView::Answered { status, body: Ok(body) })).2
            == HealthActionView::Done(Ok(())),
{
}

/// The check succeeds only on an answer with a success status.
pub proof fn law_health_success_needs_2xx(s: HealthView, e: HealthEventView)
    requires
        health_next(s, e).2 == HealthActionView::Done(Ok(())),
    ensures
        e matches HealthEventView::Probed(ProbeView::Answered { status, body: Ok(_) }) && is_success(
            status,
        ),
{
}

/// The check gives up only after its last allowed probe failed, or when an
/// answer's body could not be read: a failed probe before the last one is
/// followed by a one-second pause.
pub proof fn law_health_retries(s: HealthView, e: HealthEventView)
    requires
        health_inv(s),
        s.stage == HealthStage::Probing,
        s.attempts < s.max_attempts,
        e is Probed,
        !(e matches HealthEventView::Probed(ProbeView::Answered { body: Err(_), .. })),
        !(health_next(s, e).2 == HealthActionView::Done(Ok(()))),
    ensures
        health_next(s, e).2 == (HealthActionView::Sleep { secs: 1 }),
{
}

/// A check probes the endpoint it was started with: the first probe and
/// every probe after a pause go to the URL given to `start`, with the
/// timeout given to `start`; no step changes the URL, path or timeout.
pub proof fn law_health_probes_the_endpoint(s: HealthView, e: HealthEventView)
    requires
        health_inv(s),
        health_awaits(s, e),
    ensures
        health_next(s, e).0.url == s.url,
        health_next(s, e).0.path == s.path,
        health_next(s, e).0.timeout_secs == s.timeout_secs,
        e is Slept ==> health_next(s, e).2 == (HealthActionView::Probe {
            url: s.url,
            timeout_secs: s.timeout_secs,
        }),
        health_next(s, e).2 is Probe ==> health_next(s, e).2 == (HealthActionView::Probe {
            url: s.url,
            timeout_secs: s.timeout_secs,
        }),
{
}

/// A check started for `url` keeps `url`, and when any attempt is allowed
/// its first request goes to `url` with the given timeout.
pub proof fn law_health_start_probes_the_endpoint(
    url: Seq<char>,
    path: Seq<char>,
    timeout_secs: u64,
    max: u32,
)
    ensures
        health_start(url, path, timeout_secs, max).0.url == url,
        health_start(url, path, timeout_secs, max).0.timeout_secs == timeout_secs,
        health_start(url, path, timeout_secs, max).0.max_attempts == max,
        max > 0 ==> health_start(url, path, timeout_secs, max).2 == (HealthActionView::Probe {
            url,
            timeout_secs,
        }),
{
}

} // verus!
