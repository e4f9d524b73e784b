use vstd::prelude::*;

verus! {

/// Length of the answer to the info request.
pub const INFO_RESPONSE_LEN: usize = 1;

/// Length of the answer to the weight request.
pub const WEIGHT_RESPONSE_LEN: usize = 45;

/// Offset of the sign byte in a weight response.
pub const SIGN_OFFSET: usize = 14;

/// Offset and length of the ASCII number in a weight response.
pub const DIGITS_OFFSET: usize = 15;

pub const DIGITS_LEN: usize = 6;

/// ASCII characters of a decimal number.
pub const ASCII_PLUS: u8 = 0x2b;

pub const ASCII_MINUS: u8 = 0x2d;

pub const ASCII_DOT: u8 = 0x2e;

pub const ASCII_ZERO: u8 = 0x30;

pub const ASCII_NINE: u8 = 0x39;

/// Sign bytes of a weight response: space and minus.
pub const SIGN_POSITIVE: u8 = 0x20;

pub const SIGN_NEGATIVE: u8 = 0x2d;

/// Serial line settings: 9600 baud, 8 data bits, 1 stop bit, no parity, no
/// flow control.
pub const BAUD_RATE: u32 = 9600;

/// Timeout of one read or write on the serial line, in milliseconds.
pub const IO_TIMEOUT_MS: u64 = 1000;

/// Wait between two attempts to open the serial port, in milliseconds.
pub const PORT_RETRY_MS: u64 = 10000;

/// Pause between two weight polls, in milliseconds.
pub const POLL_PAUSE_MS: u64 = 1;

/// The info request.
pub fn info_request() -> (r: Vec<u8>)
    ensures
        r@ == seq![0x04u8, 0x05u8],
{
    let r = vec![0x04, 0x05];
    assert(r@ =~= seq![0x04u8, 0x05u8]);
    r
}

/// The weight request.
pub fn weight_request() -> (r: Vec<u8>)
    ensures
        r@ == seq![0x13u8],
{
    let r = vec![0x13];
    assert(r@ =~= seq![0x13u8]);
    r
}

/// A decimal number: `units / 10^frac_digits`.
#[derive(Copy, Clone, Debug, PartialEq, Eq, Structural)]
pub struct Decimal {
    pub units: i64,
    pub frac_digits: u32,
}

/// Why no weight is available.
#[derive(Clone, Debug)]
pub enum ScaleError {
    /// The port has not been opened yet.
    NotOpenedYet,
    /// Opening the serial port failed, with the port's message.
    SerialPort(String),
    /// Reading or writing the open port failed, with the system's message.
    IO(String),
    /// The weight response is malformed.
    FailedToParse,
}

/// The latest reading of a scale.
pub type WeightResult = Result<Decimal, ScaleError>;

pub open spec fn is_ascii_whitespace(c: u8) -> bool {
    c == 0x20 || (0x09 <= c && c <= 0x0d)
}

pub open spec fn is_digit(c: u8) -> bool {
    ASCII_ZERO <= c && c <= ASCII_NINE
}

/// First index at or after `i` that holds no whitespace.
pub open spec fn trim_start_index(s: Seq<u8>, i: int) -> int
    decreases s.len() - i,
{
    if 0 <= i < s.len() && is_ascii_whitespace(s[i]) {
        trim_start_index(s, i + 1)
    } else {
        i
    }
}

/// End of `s[lo..j]` once trailing whitespace is cut off.
pub open spec fn trim_end_index(s: Seq<u8>, lo: int, j: int) -> int
    decreases j - lo,
{
    if lo < j && is_ascii_whitespace(s[j - 1]) {
        trim_end_index(s, lo, j - 1)
    } else {
        j
    }
}

/// `s` without leading and trailing ASCII whitespace.
pub open spec fn trim(s: Seq<u8>) -> Seq<u8> {
    let a = trim_start_index(s, 0);
    s.subrange(a, trim_end_index(s, a, s.len() as int))
}

/// State of a left-to-right scan of the characters of a number:
/// (value of the digits so far, dot seen, digits after the dot, digits).
pub open spec fn scan_step(st: (int, bool, nat, nat), c: u8) -> Option<(int, bool, nat, nat)> {
    let (units, dot, frac, digits) = st;
    if is_digit(c) {
        Some((units * 10 + (c - ASCII_ZERO), dot, if dot { frac + 1 } else { frac }, digits + 1))
    } else if c == ASCII_DOT && !dot {
        Some((units, true, frac, digits))
    } else {
        None
    }
}

/// Scan of `s`: digits with at most one dot among them.
pub open spec fn scan(s: Seq<u8>) -> Option<(int, bool, nat, nat)>
    decreases s.len(),
{
    if s.len() == 0 {
        Some((0, false, 0, 0))
    } else {
        match scan(s.drop_last()) {
            None => None,
            Some(st) => scan_step(st, s.last()),
        }
    }
}

/// The decimal number `t` spells: an optional `+` or `-`, then digits with
/// at most one dot among them, at least one digit in all. Exponents and
/// named values such as `inf` are not numbers here.
pub open spec fn decimal_of(t: Seq<u8>) -> Option<(int, nat)> {
    let signed = t.len() > 0 && (t[0] == ASCII_PLUS || t[0] == ASCII_MINUS);
    let body = if signed {
        t.drop_first()
    } else {
        t
    };
    match scan(body) {
        Some((units, _, frac, digits)) => if digits > 0 {
            Some((if signed && t[0] == ASCII_MINUS { -units } else { units }, frac))
        } else {
            None
        },
        None => None,
    }
}

/// The weight a response to the weight request reports: the sign byte times
/// the trimmed decimal number that follows it.
pub open spec fn weight_of_response(resp: Seq<u8>) -> Option<(int, nat)> {
    if resp.len() != WEIGHT_RESPONSE_LEN {
        None
    } else {
        let sign = resp[SIGN_OFFSET as int];
        if sign != SIGN_POSITIVE && sign != SIGN_NEGATIVE {
            None
        } else {
            match decimal_of(
                trim(resp.subrange(DIGITS_OFFSET as int, DIGITS_OFFSET + DIGITS_LEN)),
            ) {
                None => None,
                Some((units, frac)) => Some(
                    (if sign == SIGN_NEGATIVE { -units } else { units }, frac),
                ),
            }
        }
    }
}

pub open spec fn pow10(n: nat) -> int
    decreases n,
{
    if n == 0 {
        1
    } else {
        10 * pow10((n - 1) as nat)
    }
}

proof fn lemma_scan_bound(s: Seq<u8>)
    ensures
        scan(s) matches Some((u, d, f, n)) ==> 0 <= u < pow10(n) && n <= s.len() && f <= n,
    decreases s.len(),
{
    if s.len() > 0 {
        lemma_scan_bound(s.drop_last());
        if let Some((u, d, f, n)) = scan(s.drop_last()) {
            if is_digit(s.last()) {
                assert(u * 10 + (s.last() - ASCII_ZERO) < pow10(n + 1)) by (nonlinear_arith)
                    requires
                        0 <= u < pow10(n),
                        pow10(n + 1) == 10 * pow10(n),
                        0 <= s.last() - ASCII_ZERO <= 9,
                ;
            }
        }
    }
}

proof fn lemma_pow10_positive(n: nat)
    ensures
        0 < pow10(n),
    decreases n,
{
    if n > 0 {
        lemma_pow10_positive((n - 1) as nat);
    }
}

proof fn lemma_pow10_monotone(a: nat, b: nat)
    requires
        a <= b,
    ensures
        pow10(a) <= pow10(b),
    decreases b,
{
    if a < b {
        lemma_pow10_monotone(a, (b - 1) as nat);
        lemma_pow10_positive((b - 1) as nat);
    }
}

/// A scan that fails on a prefix fails on the whole.
proof fn lemma_scan_prefix_fails(s: Seq<u8>, k: int)
    requires
        0 <= k <= s.len(),
        scan(s.subrange(0, k)) is None,
    ensures
        scan(s) is None,
    decreases s.len() - k,
{
    if k < s.len() {
        assert(s.subrange(0, k + 1).drop_last() =~= s.subrange(0, k));
        lemma_scan_prefix_fails(s, k + 1);
    } else {
        assert(s.subrange(0, k) =~= s);
    }
}

/// Parses the decimal number in `t` (see `decimal_of`).
pub fn parse_decimal(t: &[u8]) -> (r: Option<Decimal>)
    requires
        t@.len() <= 18,
    ensures
        r is Some <==> decimal_of(t@) is Some,
        r matches Some(d) ==> decimal_of(t@) == Some((d.units as int, d.frac_digits as nat)),
{
    let signed = t.len() > 0 && (t[0] == ASCII_PLUS || t[0] == ASCII_MINUS);
    let start: usize = if signed {
        1
    } else {
        0
    };
    let ghost body = if signed {
        t@.drop_first()
    } else {
        t@
    };
    assert(body =~= t@.subrange(start as int, t@.len() as int));
    let mut units: u64 = 0;
    let mut dot = false;
    let mut frac: u32 = 0;
    let mut digits: u32 = 0;
    let mut i: usize = start;
    assert(t@.subrange(start as int, start as int) =~= Seq::<u8>::empty());
    while i < t.len()
        invariant
            start <= i <= t@.len(),
            t@.len() <= 18,
            body == t@.subrange(start as int, t@.len() as int),
            signed == (t@.len() > 0 && (t@[0] == ASCII_PLUS || t@[0] == ASCII_MINUS)),
            body == (if signed {
                t@.drop_first()
            } else {
                t@
            }),
            start == (if signed {
                1usize
            } else {
                0usize
            }),
            scan(t@.subrange(start as int, i as int)) == Some(
                (units as int, dot, frac as nat, digits as nat),
            ),
        decreases t@.len() - i,
    {
        let c = t[i];
        proof {
            let pre = t@.subrange(start as int, i as int);
            let next = t@.subrange(start as int, i + 1);
            assert(next.drop_last() =~= pre);
            lemma_scan_bound(pre);
            lemma_pow10_monotone(digits as nat, 18);
            reveal_with_fuel(pow10, 19);
            assert(pow10(18) == 1000000000000000000);
        }
        if ASCII_ZERO <= c && c <= ASCII_NINE {
            units = units * 10 + (c - ASCII_ZERO) as u64;
            if dot {
                frac = frac + 1;
            }
            digits = digits + 1;
        } else if c == ASCII_DOT && !dot {
            dot = true;
        } else {
            proof {
                let next = t@.subrange(start as int, i + 1);
                assert(next.last() == c);
                assert(next.drop_last() =~= t@.subrange(start as int, i as int));
                assert(scan(next) is None);
                assert(body.subrange(0, i + 1 - start) =~= next);
                lemma_scan_prefix_fails(body, i + 1 - start);
            }
            return None;
        }
        i = i + 1;
    }
    assert(t@.subrange(start as int, t@.len() as int) =~= body);
    if digits == 0 {
        return None;
    }
    proof {
        lemma_scan_bound(body);
        lemma_pow10_monotone(digits as nat, 18);
        reveal_with_fuel(pow10, 19);
            assert(pow10(18) == 1000000000000000000);
    }
    let value: i64 = if signed && t[0] == ASCII_MINUS {
        -(units as i64)
    } else {
        units as i64
    };
    Some(Decimal { units: value, frac_digits: frac })
}

/// The bounds of `s` without leading and trailing ASCII whitespace.
pub fn trim_bounds(s: &[u8]) -> (r: (usize, usize))
    ensures
        r.0 <= r.1 <= s@.len(),
        s@.subrange(r.0 as int, r.1 as int) == trim(s@),
{
    let mut a: usize = 0;
    while a < s.len() && is_whitespace_byte(s[a])
        invariant
            0 <= a <= s@.len(),
            trim_start_index(s@, 0) == trim_start_index(s@, a as int),
        decreases s@.len() - a,
    {
        a = a + 1;
    }
    let mut b: usize = s.len();
    while b > a && is_whitespace_byte(s[b - 1])
        invariant
            a <= b <= s@.len(),
            trim_start_index(s@, 0) == a,
            trim_end_index(s@, a as int, s@.len() as int) == trim_end_index(s@, a as int, b as int),
        decreases b - a,
    {
        b = b - 1;
    }
    (a, b)
}

fn is_whitespace_byte(c: u8) -> (r: bool)
    ensures
        r == is_ascii_whitespace(c),
{
    c == 0x20 || (0x09 <= c && c <= 0x0d)
}

/// Reads the weight out of a response to the weight request: the sign byte
/// (space or minus), then a six-byte ASCII decimal number that may be padded
/// with whitespace. Anything else is `FailedToParse`.
pub fn parse_weight_response(resp: &[u8]) -> (r: WeightResult)
    ensures
        r is Ok <==> weight_of_response(resp@) is Some,
        r matches Ok(d) ==> weight_of_response(resp@) == Some(
            (d.units as int, d.frac_digits as nat),
        ),
        r matches Err(e) ==> e is FailedToParse,
{
    if resp.len() != WEIGHT_RESPONSE_LEN {
        return Err(ScaleError::FailedToParse);
    }
    let sign = resp[SIGN_OFFSET];
    if sign != SIGN_POSITIVE && sign != SIGN_NEGATIVE {
        return Err(ScaleError::FailedToParse);
    }
    let mut field: Vec<u8> = Vec::new();
    let mut k: usize = 0;
    while k < DIGITS_LEN
        invariant
            resp@.len() == WEIGHT_RESPONSE_LEN,
            0 <= k <= DIGITS_LEN,
            field@ == resp@.subrange(DIGITS_OFFSET as int, DIGITS_OFFSET + k),
        decreases DIGITS_LEN - k,
    {
        field.push(resp[DIGITS_OFFSET + k]);
        k = k + 1;
        assert(field@ =~= resp@.subrange(DIGITS_OFFSET as int, DIGITS_OFFSET + k));
    }
    let (a, b) = trim_bounds(field.as_slice());
    let mut trimmed: Vec<u8> = Vec::new();
    let mut j: usize = a;
    while j < b
        invariant
            a <= j <= b <= field@.len(),
            trimmed@ == field@.subrange(a as int, j as int),
        decreases b - j,
    {
        trimmed.push(field[j]);
        j = j + 1;
        assert(trimmed@ =~= field@.subrange(a as int, j as int));
    }
    match parse_decimal(trimmed.as_slice()) {
        None => Err(ScaleError::FailedToParse),
        Some(d) => {
            proof {
                lemma_parsed_bound(trimmed@);
            }
            if sign == SIGN_NEGATIVE {
                Ok(Decimal { units: -d.units, frac_digits: d.frac_digits })
            } else {
                Ok(d)
            }
        },
    }
}

proof fn lemma_parsed_bound(t: Seq<u8>)
    requires
        t.len() <= DIGITS_LEN,
    ensures
        decimal_of(t) matches Some((u, f)) ==> -1000000 < u < 1000000,
{
    let signed = t.len() > 0 && (t[0] == ASCII_PLUS || t[0] == ASCII_MINUS);
    let body = if signed {
        t.drop_first()
    } else {
        t
    };
    lemma_scan_bound(body);
    if let Some((u, d, f, n)) = scan(body) {
        lemma_pow10_monotone(n, 6);
        reveal_with_fuel(pow10, 7);
        assert(pow10(6) == 1000000);
    }
}

/// Where the polling worker stands.
#[derive(Copy, Clone, Debug, PartialEq, Eq, Structural)]
pub enum EngineState {
    /// About to open the serial port.
    Opening,
    /// Waiting after a failed open, before the next attempt.
    Backoff,
    SendInfo,
    AwaitInfo,
    SendWeight,
    AwaitWeight,
    /// Waiting briefly between two polls.
    Pause,
    /// Cancelled; the worker exits.
    Stopped,
}

/// What the worker is to do next.
#[derive(Copy, Clone, Debug, PartialEq, Eq, Structural)]
pub enum Action {
    OpenPort,
    /// Wait `PORT_RETRY_MS` on the cancellation guard.
    WaitBackoff,
    WriteInfoRequest,
    /// Read `INFO_RESPONSE_LEN` bytes.
    ReadInfoResponse,
    WriteWeightRequest,
    /// Read `WEIGHT_RESPONSE_LEN` bytes.
    ReadWeightResponse,
    /// Wait `POLL_PAUSE_MS` on the cancellation guard.
    WaitPause,
    /// Leave the loop.
    Stop,
}

/// The outcome of the last action, or a cancellation seen since.
#[derive(Clone, Debug)]
pub enum Event {
    Opened,
    /// Opening the port failed with this message.
    OpenFailed(String),
    Written,
    Read(Vec<u8>),
    /// A read or write failed with this message.
    IoFailed(String),
    /// A wait ran out without a cancellation.
    TimedOut,
    Cancelled,
}

/// The result of one decision: the new state, the reading to publish, if
/// any, and the action the new state asks for.
#[derive(Clone, Debug)]
pub struct Transition {
    pub state: EngineState,
    pub publish: Option<WeightResult>,
    pub action: Action,
}

/// The action each state asks for.
pub open spec fn pending_action(s: EngineState) -> Action {
    match s {
        EngineState::Opening => Action::OpenPort,
        EngineState::Backoff => Action::WaitBackoff,
        EngineState::SendInfo => Action::WriteInfoRequest,
        EngineState::AwaitInfo => Action::ReadInfoResponse,
        EngineState::SendWeight => Action::WriteWeightRequest,
        EngineState::AwaitWeight => Action::ReadWeightResponse,
        EngineState::Pause => Action::WaitPause,
        EngineState::Stopped => Action::Stop,
    }
}

/// A state in which the serial port is open.
pub open spec fn port_open(s: EngineState) -> bool {
    s == EngineState::SendInfo || s == EngineState::AwaitInfo || s == EngineState::SendWeight
        || s == EngineState::AwaitWeight || s == EngineState::Pause
}

/// The state that follows `s` on event `e`. Cancellation stops the worker
/// from any state; a failed open backs off; a failed read or write, or a
/// malformed weight, drops the port and opens it again; an event that the
/// state does not expect leaves it as it is.
pub open spec fn next_state(s: EngineState, e: Event) -> EngineState {
    if s == EngineState::Stopped {
        EngineState::Stopped
    } else {
        match e {
            Event::Cancelled => EngineState::Stopped,
            Event::Opened => if s == EngineState::Opening {
                EngineState::SendInfo
            } else {
                s
            },
            Event::OpenFailed(_) => if s == EngineState::Opening {
                EngineState::Backoff
            } else {
                s
            },
            Event::TimedOut => if s == EngineState::Backoff {
                EngineState::Opening
            } else if s == EngineState::Pause {
                EngineState::SendInfo
            } else {
                s
            },
            Event::Written => if s == EngineState::SendInfo {
                EngineState::AwaitInfo
            } else if s == EngineState::SendWeight {
                EngineState::AwaitWeight
            } else {
                s
            },
            Event::Read(bytes) => if s == EngineState::AwaitInfo {
                EngineState::SendWeight
            } else if s == EngineState::AwaitWeight {
                if weight_of_response(bytes@) is Some {
                    EngineState::Pause
                } else {
                    EngineState::Opening
                }
            } else {
                s
            },
            Event::IoFailed(_) => if port_open(s) && s != EngineState::Pause {
                EngineState::Opening
            } else {
                s
            },
        }
    }
}

/// The reading a transition publishes: the error of a failed open or of a
/// failed read or write, and the weight or parse failure of a weight
/// response; nothing otherwise.
pub open spec fn publishes(s: EngineState, e: Event, p: Option<WeightResult>) -> bool {
    if s == EngineState::Stopped {
        p is None
    } else {
        match e {
            Event::OpenFailed(m) => if s == EngineState::Opening {
                p == Some(Err::<Decimal, ScaleError>(ScaleError::SerialPort(m)))
            } else {
                p is None
            },
            Event::IoFailed(m) => if port_open(s) && s != EngineState::Pause {
                p == Some(Err::<Decimal, ScaleError>(ScaleError::IO(m)))
            } else {
                p is None
            },
            Event::Read(bytes) => if s == EngineState::AwaitWeight {
                match weight_of_response(bytes@) {
                    Some((u, f)) => p matches Some(Ok(d)) && d.units == u && d.frac_digits == f,
                    None => p matches Some(Err(ScaleError::FailedToParse)),
                }
            } else {
                p is None
            },
            _ => p is None,
        }
    }
}

impl EngineState {
    /// The state a worker starts in; until it publishes, the reading is
    /// `ScaleError::NotOpenedYet`.
    pub fn initial() -> (r: EngineState)
        ensures
            r == EngineState::Opening,
    {
        EngineState::Opening
    }

    /// The action this state asks for.
    pub fn action(&self) -> (r: Action)
        ensures
            r == pending_action(*self),
    {
        match self {
            EngineState::Opening => Action::OpenPort,
            EngineState::Backoff => Action::WaitBackoff,
            EngineState::SendInfo => Action::WriteInfoRequest,
            EngineState::AwaitInfo => Action::ReadInfoResponse,
            EngineState::SendWeight => Action::WriteWeightRequest,
            EngineState::AwaitWeight => Action::ReadWeightResponse,
            EngineState::Pause => Action::WaitPause,
            EngineState::Stopped => Action::Stop,
        }
    }

    /// Decides what follows event `e` in this state.
    pub fn step(&self, e: Event) -> (r: Transition)
        ensures
            r.state == next_state(*self, e),
            r.action == pending_action(r.state),
            publishes(*self, e, r.publish),
    {
        let s = *self;
        let (state, publish): (EngineState, Option<WeightResult>) = if s == EngineState::Stopped {
            (EngineState::Stopped, None)
        } else {
            match e {
                Event::Cancelled => (EngineState::Stopped, None),
                Event::Opened => if s == EngineState::Opening {
                    (EngineState::SendInfo, None)
                } else {
                    (s, None)
                },
                Event::OpenFailed(m) => if s == EngineState::Opening {
                    (EngineState::Backoff, Some(Err(ScaleError::SerialPort(m))))
                } else {
                    (s, None)
                },
                Event::TimedOut => if s == EngineState::Backoff {
                    (EngineState::Opening, None)
                } else if s == EngineState::Pause {
                    (EngineState::SendInfo, None)
                } else {
                    (s, None)
                },
                Event::Written => if s == EngineState::SendInfo {
                    (EngineState::AwaitInfo, None)
                } else if s == EngineState::SendWeight {
                    (EngineState::AwaitWeight, None)
                } else {
                    (s, None)
                },
                Event::Read(bytes) => if s == EngineState::AwaitInfo {
                    (EngineState::SendWeight, None)
                } else if s == EngineState::AwaitWeight {
                    match parse_weight_response(bytes.as_slice()) {
                        Ok(d) => (EngineState::Pause, Some(Ok(d))),
                        Err(_) => (EngineState::Opening, Some(Err(ScaleError::FailedToParse))),
                    }
                } else {
                    (s, None)
                },
                Event::IoFailed(m) => if s == EngineState::SendInfo || s == EngineState::AwaitInfo
                    || s == EngineState::SendWeight || s == EngineState::AwaitWeight {
                    (EngineState::Opening, Some(Err(ScaleError::IO(m))))
                } else {
                    (s, None)
                },
            }
        };
        let action = state.action();
        Transition { state, publish, action }
    }
}

/// Cancellation from any state stops the worker, and a stopped worker stays
/// stopped whatever happens next.
pub proof fn lemma_cancel_stops(s: EngineState, e: Event)
    ensures
        next_state(s, Event::Cancelled) == EngineState::Stopped,
        pending_action(next_state(s, Event::Cancelled)) == Action::Stop,
        publishes(s, Event::Cancelled, None),
        next_state(EngineState::Stopped, e) == EngineState::Stopped,
{
}

/// A failed open is published and followed by the backoff wait, after which
/// the port is opened again unless the wait was cancelled.
pub proof fn lemma_open_failure_backs_off(m: String)
    ensures
        next_state(EngineState::Opening, Event::OpenFailed(m)) == EngineState::Backoff,
        publishes(
            EngineState::Opening,
            Event::OpenFailed(m),
            Some(Err(ScaleError::SerialPort(m))),
        ),
        pending_action(EngineState::Backoff) == Action::WaitBackoff,
        next_state(EngineState::Backoff, Event::TimedOut) == EngineState::Opening,
        next_state(EngineState::Backoff, Event::Cancelled) == EngineState::Stopped,
{
}

/// Why a wait on the cancellation guard ended early, or a check failed.
#[derive(Copy, Clone, Debug, PartialEq, Eq, Structural)]
pub struct AwakeError;

/// The lifecycle of a polling worker: it runs until a stop is requested,
/// then stops; it never runs again.
#[derive(Copy, Clone, Debug, PartialEq, Eq, Structural)]
pub enum Lifecycle {
    Running,
    StopRequested,
    Stopped,
}

pub open spec fn lifecycle_rank(l: Lifecycle) -> int {
    match l {
        Lifecycle::Running => 0,
        Lifecycle::StopRequested => 1,
        Lifecycle::Stopped => 2,
    }
}

impl Lifecycle {
    pub fn new() -> (r: Lifecycle)
        ensures
            r == Lifecycle::Running,
    {
        Lifecycle::Running
    }

    /// Asks the worker to stop; a later request changes nothing.
    pub fn cancel(&mut self)
        ensures
            *final(self) == if *old(self) == Lifecycle::Running {
                Lifecycle::StopRequested
            } else {
                *old(self)
            },
    {
        if *self == Lifecycle::Running {
            *self = Lifecycle::StopRequested;
        }
    }

    /// Records that the worker has left its loop.
    pub fn finish(&mut self)
        ensures
            *final(self) == Lifecycle::Stopped,
    {
        *self = Lifecycle::Stopped;
    }

    /// Whether a stop has been requested.
    pub fn is_cancelled(&self) -> (r: bool)
        ensures
            r == (*self != Lifecycle::Running),
    {
        *self != Lifecycle::Running
    }

    /// A check between two protocol steps: an error once a stop is requested.
    pub fn check(&self) -> (r: Result<(), AwakeError>)
        ensures
            r is Ok <==> *self == Lifecycle::Running,
    {
        if *self == Lifecycle::Running {
            Ok(())
        } else {
            Err(AwakeError)
        }
    }

    /// The outcome of a wait on the guard that ended with the lifecycle in
    /// this state: it ran its full time only if it timed out with the worker
    /// still running.
    pub fn wait_outcome(&self, timed_out: bool) -> (r: Result<(), AwakeError>)
        ensures
            r is Ok <==> timed_out && *self == Lifecycle::Running,
    {
        if timed_out && *self == Lifecycle::Running {
            Ok(())
        } else {
            Err(AwakeError)
        }
    }
}

/// The lifecycle only moves forward: cancelling or finishing never brings a
/// worker back to an earlier stage.
pub proof fn lemma_lifecycle_monotone(l: Lifecycle)
    ensures
        lifecycle_rank(
            if l == Lifecycle::Running {
                Lifecycle::StopRequested
            } else {
                l
            },
        ) >= lifecycle_rank(l),
        lifecycle_rank(Lifecycle::Stopped) >= lifecycle_rank(l),
{
}

/// The emulated scale starts at 42.0 kg ...
pub const EMULATED_START_TENTHS: u32 = 420;

/// ... and wraps back once it is past 50.0 kg.
pub const EMULATED_CEILING_TENTHS: u32 = 500;

/// The next emulated weight, in tenths of a kilogram: one tenth more each
/// second, back to the start once past the ceiling.
pub fn next_emulated_weight(tenths: u32) -> (r: u32)
    ensures
        r == if tenths > EMULATED_CEILING_TENTHS {
            EMULATED_START_TENTHS
        } else {
            (tenths + 1) as u32
        },
{
    if tenths > EMULATED_CEILING_TENTHS {
        EMULATED_START_TENTHS
    } else {
        tenths + 1
    }
}

} // verus!
