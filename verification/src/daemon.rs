//! Bookkeeping of the background daemon: its recorded state, the decisions
//! behind the start, status and stop commands, and the routing of its
//! loopback HTTP API. The process, file and network work around these
//! decisions is done by the caller, which reports back what it observed.
use crate::text::{concat, concat3, decimal, owned, split_once, split_once_char, str_eq, u64_to_string};
use base64::Engine;
use vstd::prelude::*;

verus! {

/// Where a running daemon listens, and since when.
#[derive(Debug, Clone, PartialEq, Eq)]
pub struct DaemonConnectionInfo {
    pub pid: u32,
    pub host: String,
    pub port: u16,
    pub started_at_epoch_secs: i64,
}

/// What `--daemon-start` found or started.
#[derive(Debug, Clone, PartialEq, Eq)]
pub struct DaemonStartResult {
    pub already_running: bool,
    pub info: DaemonConnectionInfo,
}

/// What `--daemon-status` found.
#[derive(Debug, Clone, PartialEq, Eq)]
pub struct DaemonStatusResult {
    pub running: bool,
    pub info: Option<DaemonConnectionInfo>,
}

/// What `--daemon-stop` did.
#[derive(Debug, Clone, PartialEq, Eq)]
pub struct DaemonStopResult {
    pub was_running: bool,
    pub stopped: bool,
    pub info: Option<DaemonConnectionInfo>,
}

/// The state record a running daemon keeps on disk.
#[derive(Debug, Clone, PartialEq, Eq)]
pub struct DaemonState {
    pub pid: u32,
    pub host: String,
    pub port: u16,
    pub token: String,
    pub started_at_epoch_secs: i64,
}

pub struct ConnectionView {
    pub pid: u32,
    pub host: Seq<char>,
    pub port: u16,
    pub started_at_epoch_secs: i64,
}

pub struct StateView {
    pub pid: u32,
    pub host: Seq<char>,
    pub port: u16,
    pub token: Seq<char>,
    pub started_at_epoch_secs: i64,
}

impl View for DaemonConnectionInfo {
    type V = ConnectionView;

    open spec fn view(&self) -> ConnectionView {
        ConnectionView {
            pid: self.pid,
            host: self.host@,
            port: self.port,
            started_at_epoch_secs: self.started_at_epoch_secs,
        }
    }
}

impl View for DaemonState {
    type V = StateView;

    open spec fn view(&self) -> StateView {
        StateView {
            pid: self.pid,
            host: self.host@,
            port: self.port,
            token: self.token@,
            started_at_epoch_secs: self.started_at_epoch_secs,
        }
    }
}

/// The connection details of a recorded state (everything but the token).
pub open spec fn connection_of(s: StateView) -> ConnectionView {
    ConnectionView {
        pid: s.pid,
        host: s.host,
        port: s.port,
        started_at_epoch_secs: s.started_at_epoch_secs,
    }
}

pub open spec fn opt_connection_view(o: Option<DaemonConnectionInfo>) -> Option<ConnectionView> {
    match o {
        Some(c) => Some(c@),
        None => None,
    }
}

impl DaemonConnectionInfo {
    /// A copy of the connection details.
    pub fn duplicate(&self) -> (r: DaemonConnectionInfo)
        ensures
            r@ == self@,
    {
        DaemonConnectionInfo {
            pid: self.pid,
            host: owned(self.host.as_str()),
            port: self.port,
            started_at_epoch_secs: self.started_at_epoch_secs,
        }
    }
}

impl DaemonState {
    /// The connection details of this record.
    pub fn as_connection_info(&self) -> (r: DaemonConnectionInfo)
        ensures
            r@ == connection_of(self@),
    {
        DaemonConnectionInfo {
            pid: self.pid,
            host: owned(self.host.as_str()),
            port: self.port,
            started_at_epoch_secs: self.started_at_epoch_secs,
        }
    }
}

/// What a look at the daemon found: no state record, or a record whose
/// daemon answered, or did not answer, its health check.
pub enum DaemonProbe {
    NoState,
    Answered(DaemonState),
    Unreachable(DaemonState),
}

/// The status to report, and whether the stale state record must be removed first.
pub struct DaemonStatusDecision {
    pub result: DaemonStatusResult,
    pub clear_stale_state: bool,
}

/// The daemon's status after a probe: running only when its recorded
/// instance answers; a record whose daemon does not answer is stale.
pub fn status(probe: &DaemonProbe) -> (r: DaemonStatusDecision)
    ensures
        match probe {
            DaemonProbe::NoState => !r.result.running && r.result.info is None && !r.clear_stale_state,
            DaemonProbe::Answered(s) => r.result.running && opt_connection_view(r.result.info)
                == Some(connection_of(s@)) && !r.clear_stale_state,
            DaemonProbe::Unreachable(s) => !r.result.running && opt_connection_view(r.result.info)
                == Some(connection_of(s@)) && r.clear_stale_state,
        },
{
    match probe {
        DaemonProbe::NoState => DaemonStatusDecision {
            result: DaemonStatusResult { running: false, info: None },
            clear_stale_state: false,
        },
        DaemonProbe::Answered(state) => DaemonStatusDecision {
            result: DaemonStatusResult { running: true, info: Some(state.as_connection_info()) },
            clear_stale_state: false,
        },
        DaemonProbe::Unreachable(state) => DaemonStatusDecision {
            result: DaemonStatusResult { running: false, info: Some(state.as_connection_info()) },
            clear_stale_state: true,
        },
    }
}

/// What `--daemon-start` does after checking the status.
pub enum StartPlan {
    /// A daemon already runs; report it.
    AlreadyRunning(DaemonStartResult),
    /// Start a child process with these arguments and wait for it.
    Spawn(Vec<String>),
}

/// The child's arguments: `--daemon-start`, and `--daemon-port=PORT` when a port is asked for.
pub open spec fn spawn_args(port: Option<u16>) -> Seq<Seq<char>> {
    match port {
        Some(p) => seq!["--daemon-start"@, "--daemon-port="@ + decimal(p as nat)],
        None => seq!["--daemon-start"@],
    }
}

/// Starting in the background: report a running daemon, or start a child.
pub fn start_background(port: Option<u16>, current: &DaemonStatusResult) -> (r: Result<StartPlan, String>)
    ensures
        current.running && current.info is None ==> (r matches Err(e)
            && e@ == "Daemon status is running but metadata is missing."@),
        current.running && current.info is Some ==> (r matches Ok(StartPlan::AlreadyRunning(s))
            && s.already_running && s.info@ == current.info.unwrap()@),
        !current.running ==> (r matches Ok(StartPlan::Spawn(args)) && args@.map_values(
            |a: String| a@,
        ) == spawn_args(port)),
{
    if current.running {
        return match &current.info {
            Some(info) => Ok(
                StartPlan::AlreadyRunning(
                    DaemonStartResult { already_running: true, info: info.duplicate() },
                ),
            ),
            None => Err(owned("Daemon status is running but metadata is missing.")),
        };
    }
    let mut args: Vec<String> = Vec::new();
    args.push(owned("--daemon-start"));
    if let Some(p) = port {
        let digits = u64_to_string(p as u64);
        args.push(concat("--daemon-port=", digits.as_str()));
    }
    assert(args@.map_values(|a: String| a@) =~= spawn_args(port));
    Ok(StartPlan::Spawn(args))
}

/// The start result once the child's state record answers.
pub fn started_result(state: &DaemonState) -> (r: DaemonStartResult)
    ensures
        !r.already_running,
        r.info@ == connection_of(state@),
{
    DaemonStartResult { already_running: false, info: state.as_connection_info() }
}

/// One poll while waiting for a started child.
pub enum ReadyStep {
    /// The child's record is there; check its health.
    ProbeHealth,
    /// Nothing usable yet; poll again.
    Wait,
    /// The child is gone.
    Failed(String),
}

/// What to do with one poll of a starting child: `exited` is the exit
/// status text when the child has exited, `recorded` the state record found.
pub fn readiness_step(expected_pid: u32, exited: Option<&str>, recorded: Option<&DaemonState>) -> (r: ReadyStep)
    ensures
        exited matches Some(status) ==> (r matches ReadyStep::Failed(e) && e@
            == "Daemon process exited early with status "@ + status@ + "."@),
        exited is None && (recorded matches Some(s) && s.pid == expected_pid) ==> r is ProbeHealth,
        exited is None && !(recorded matches Some(s) && s.pid == expected_pid) ==> r is Wait,
{
    match exited {
        Some(status) => ReadyStep::Failed(
            concat3("Daemon process exited early with status ", status, "."),
        ),
        None => match recorded {
            Some(state) => {
                if state.pid == expected_pid {
                    ReadyStep::ProbeHealth
                } else {
                    ReadyStep::Wait
                }
            },
            None => ReadyStep::Wait,
        },
    }
}

/// The error when a started child never became ready.
pub fn ready_timeout_error() -> (r: String)
    ensures
        r@ == "Daemon did not become ready before timeout."@,
{
    owned("Daemon did not become ready before timeout.")
}

/// What `--daemon-stop` does after its first probe.
pub enum StopPlan {
    /// Nothing to stop; report this, after removing a stale record when asked.
    Finished { result: DaemonStopResult, clear_stale_state: bool },
    /// Ask the daemon to stop, then poll until it is gone.
    RequestStop,
}

/// Stopping: only a daemon that answers is asked to stop.
pub fn stop_plan(probe: &DaemonProbe) -> (r: StopPlan)
    ensures
        match probe {
            DaemonProbe::NoState => r matches StopPlan::Finished { result, clear_stale_state }
                && !result.was_running && !result.stopped && result.info is None
                && !clear_stale_state,
            DaemonProbe::Unreachable(s) => r matches StopPlan::Finished { result, clear_stale_state }
                && !result.was_running && !result.stopped && opt_connection_view(result.info)
                == Some(connection_of(s@)) && clear_stale_state,
            DaemonProbe::Answered(_) => r is RequestStop,
        },
{
    match probe {
        DaemonProbe::NoState => StopPlan::Finished {
            result: DaemonStopResult { was_running: false, stopped: false, info: None },
            clear_stale_state: false,
        },
        DaemonProbe::Unreachable(state) => StopPlan::Finished {
            result: DaemonStopResult {
                was_running: false,
                stopped: false,
                info: Some(state.as_connection_info()),
            },
            clear_stale_state: true,
        },
        DaemonProbe::Answered(_) => StopPlan::RequestStop,
    }
}

/// One poll after a stop request.
pub enum StopPoll {
    /// The state record is gone.
    RecordGone,
    /// The record is there but the daemon no longer answers.
    NoAnswer,
    /// The daemon still answers.
    StillAnswering,
}

/// Whether a stop poll shows the daemon stopped, and whether its record must be removed.
pub fn stop_poll_step(poll: &StopPoll) -> (r: (bool, bool))
    ensures
        r.0 == !(poll is StillAnswering),
        r.1 == (poll is NoAnswer),
{
    match poll {
        StopPoll::RecordGone => (true, false),
        StopPoll::NoAnswer => (true, true),
        StopPoll::StillAnswering => (false, false),
    }
}

/// The stop result for a daemon that answered and was asked to stop.
pub fn stop_requested_result(state: &DaemonState, stopped: bool) -> (r: DaemonStopResult)
    ensures
        r.was_running,
        r.stopped == stopped,
        opt_connection_view(r.info) == Some(connection_of(state@)),
{
    DaemonStopResult { was_running: true, stopped, info: Some(state.as_connection_info()) }
}

/// `http://HOST:PORT` followed by `path`.
pub open spec fn spec_endpoint_url(s: StateView, path: Seq<char>) -> Seq<char> {
    "http://"@ + s.host + ":"@ + decimal(s.port as nat) + path
}

/// The URL of an API endpoint of a recorded daemon.
pub fn daemon_endpoint_url(state: &DaemonState, path: &str) -> (r: String)
    ensures
        r@ == spec_endpoint_url(state@, path@),
{
    let mut r = concat3("http://", state.host.as_str(), ":");
    let digits = u64_to_string(state.port as u64);
    r.append(digits.as_str());
    r.append(path);
    r
}

/// The `Authorization` header value the daemon expects.
pub fn bearer_header(token: &str) -> (r: String)
    ensures
        r@ == "Bearer "@ + token@,
{
    concat("Bearer ", token)
}

/// Whether a request's `Authorization` header carries the daemon's token.
pub fn request_has_valid_token(authorization: Option<&str>, token: &str) -> (r: bool)
    ensures
        r == (authorization matches Some(v) && v@ == "Bearer "@ + token@),
{
    match authorization {
        Some(value) => {
            let expected = bearer_header(token);
            str_eq(value, expected.as_str())
        },
        None => false,
    }
}

/// The part of `s` after its last `c`, or all of `s` when it has none.
pub open spec fn after_last(s: Seq<char>, c: char) -> Seq<char> {
    if s.contains(c) {
        let i = choose|i: int| 0 <= i < s.len() && s[i] == c && forall|k: int| i < k < s.len() ==> s[k] != c;
        s.subrange(i + 1, s.len() as int)
    } else {
        s
    }
}

fn after_last_char<'a>(s: &'a str, c: char) -> (r: &'a str)
    ensures
        r@ == after_last(s@, c),
{
    let n = s.unicode_len();
    let mut j: usize = n;
    while j > 0
        invariant
            n == s@.len(),
            j <= n,
            forall|k: int| j <= k < n ==> s@[k] != c,
        decreases j,
    {
        if s.get_char(j - 1) == c {
            proof {
                let i = (j - 1) as int;
                assert(s@.contains(c));
                let w = choose|w: int| 0 <= w < s@.len() && s@[w] == c && forall|k: int| w < k < s@.len() ==> s@[k] != c;
                assert(0 <= w < s@.len() && s@[w] == c && forall|k: int| w < k < s@.len() ==> s@[k] != c) by {
                    assert(0 <= i < s@.len() && s@[i] == c && forall|k: int| i < k < s@.len() ==> s@[k] != c);
                }
                if w < i {
                    assert(s@[i] != c);
                }
                if i < w {
                    assert(s@[w] != c);
                }
            }
            return s.substring_char(j, n);
        }
        j = j - 1;
    }
    proof {
        if s@.contains(c) {
            let w = choose|w: int| 0 <= w < s@.len() && s@[w] == c;
            assert(s@[w] != c);
        }
        assert(s@.subrange(0, n as int) =~= s@);
    }
    s.substring_char(0, n)
}

/// What `str::parse::<u16>` reports for text that is not a `u16`: empty
/// text, a non-digit (a lone sign counts), or a value over the limit,
/// whichever the left-to-right scan meets first.
pub open spec fn spec_int_error_text(s: Seq<char>, max: int) -> Seq<char> {
    if s.len() == 0 {
        "cannot parse integer from empty string"@
    } else if s.len() == 1 && (s[0] == '+' || s[0] == '-') {
        "invalid digit found in string"@
    } else if s[0] == '+' {
        scan_error(s.drop_first(), 0, max)
    } else {
        scan_error(s, 0, max)
    }
}

/// The first problem of a digit scan that has read `acc` so far.
pub open spec fn scan_error(d: Seq<char>, acc: int, max: int) -> Seq<char>
    decreases d.len(),
{
    if d.len() == 0 {
        Seq::empty()
    } else if !('0' <= d[0] && d[0] <= '9') {
        "invalid digit found in string"@
    } else if acc * 10 + ((d[0] as u32) - ('0' as u32)) > max {
        "number too large to fit in target type"@
    } else {
        scan_error(d.drop_first(), acc * 10 + ((d[0] as u32) - ('0' as u32)), max)
    }
}

fn int_error_text(s: &str, max: u64) -> (r: &'static str)
    ensures
        r@ == spec_int_error_text(s@, max as int),
{
    let n = s.unicode_len();
    if n == 0 {
        return "cannot parse integer from empty string";
    }
    let first = s.get_char(0);
    if n == 1 && (first == '+' || first == '-') {
        return "invalid digit found in string";
    }
    let start: usize = if first == '+' {
        1
    } else {
        0
    };
    let ghost d = s@.subrange(start as int, n as int);
    proof {
        if first == '+' {
            assert(d =~= s@.drop_first());
        } else {
            assert(d =~= s@);
        }
    }
    let mut acc: u64 = 0;
    let mut i: usize = start;
    while i < n
        invariant
            n == s@.len(),
            start <= i <= n,
            d == s@.subrange(start as int, n as int),
            acc <= max,
            spec_int_error_text(s@, max as int) == scan_error(d, 0, max as int),
            scan_error(d, 0, max as int) == scan_error(s@.subrange(i as int, n as int), acc as int, max as int),
        decreases n - i,
    {
        let c = s.get_char(i);
        assert(s@.subrange(i as int, n as int).drop_first() =~= s@.subrange(i + 1, n as int));
        if !('0' <= c && c <= '9') {
            return "invalid digit found in string";
        }
        let digit = (c as u32) - ('0' as u32);
        let next: u128 = (acc as u128) * 10 + (digit as u128);
        if next > max as u128 {
            return "number too large to fit in target type";
        }
        acc = next as u64;
        i = i + 1;
    }
    assert(s@.subrange(i as int, n as int) =~= Seq::<char>::empty());
    proof {
        reveal_strlit("");
    }
    ""
}

/// The port at the end of a bound `HOST:PORT` address.
pub open spec fn spec_bound_port(address: Seq<char>) -> Result<u16, Seq<char>> {
    let text = after_last(address, ':');
    match crate::text::parse_unsigned(text, 65535) {
        Some(v) => Ok(v as u16),
        None => Err(
            "Failed to parse daemon server port from `"@ + address + "`: "@ + spec_int_error_text(
                text,
                65535,
            ),
        ),
    }
}

/// Reads the port of the address the API server bound.
pub fn parse_bound_port(address: &str) -> (r: Result<u16, String>)
    ensures
        match r {
            Ok(p) => spec_bound_port(address@) == Ok::<u16, Seq<char>>(p),
            Err(e) => spec_bound_port(address@) == Err::<u16, Seq<char>>(e@),
        },
{
    let text = after_last_char(address, ':');
    match crate::text::parse_unsigned_str(text, 65535) {
        Some(v) => Ok(v as u16),
        None => {
            let mut m = concat3("Failed to parse daemon server port from `", address, "`: ");
            m.append(int_error_text(text, 65535));
            Err(m)
        },
    }
}

/// Seconds since the epoch as a signed count, saturating at `i64::MAX`;
/// `None` (a clock before the epoch) counts as zero.
pub fn epoch_secs_from(since_epoch_secs: Option<u64>) -> (r: i64)
    ensures
        since_epoch_secs is None ==> r == 0,
        since_epoch_secs matches Some(s) ==> r == (if s > i64::MAX as u64 {
            i64::MAX as int
        } else {
            s as int
        }),
{
    match since_epoch_secs {
        Some(secs) => {
            if secs > i64::MAX as u64 {
                i64::MAX
            } else {
                secs as i64
            }
        },
        None => 0,
    }
}

/// The request method of an API call.
#[derive(Debug, Clone, Copy, PartialEq, Eq, Structural)]
pub enum ApiMethod {
    Get,
    Post,
    Other,
}

/// What the daemon does with one API request.
#[derive(Debug, Clone, PartialEq, Eq)]
pub enum ApiRoute {
    Health,
    Status,
    TimerStart,
    TimerPause,
    TimerResume,
    TimerStop,
    TimerNext,
    TaskSelect,
    FocusIntention,
    TaskNote,
    ScheduleDelay,
    BreakGlassTrigger,
    BreakGlassCancel,
    DaemonStop,
    /// Answer with this HTTP status, error code and message.
    Reject { status: u16, code: String, message: String },
}

/// The path of a request URL: what comes before `?`.
pub open spec fn spec_url_path(url: Seq<char>) -> Seq<char> {
    match split_once(url, '?') {
        Some((path, _)) => path,
        None => url,
    }
}

/// The endpoint a method and path select, if any.
pub open spec fn spec_endpoint(method: ApiMethod, path: Seq<char>) -> Option<ApiRoute> {
    if method == ApiMethod::Get && path == "/v1/health"@ {
        Some(ApiRoute::Health)
    } else if method == ApiMethod::Get && path == "/v1/status"@ {
        Some(ApiRoute::Status)
    } else if method == ApiMethod::Post && path == "/v1/timer/start"@ {
        Some(ApiRoute::TimerStart)
    } else if method == ApiMethod::Post && path == "/v1/timer/pause"@ {
        Some(ApiRoute::TimerPause)
    } else if method == ApiMethod::Post && path == "/v1/timer/resume"@ {
        Some(ApiRoute::TimerResume)
    } else if method == ApiMethod::Post && path == "/v1/timer/stop"@ {
        Some(ApiRoute::TimerStop)
    } else if method == ApiMethod::Post && path == "/v1/timer/next"@ {
        Some(ApiRoute::TimerNext)
    } else if method == ApiMethod::Post && path == "/v1/task/select"@ {
        Some(ApiRoute::TaskSelect)
    } else if method == ApiMethod::Post && path == "/v1/session/focus-intention"@ {
        Some(ApiRoute::FocusIntention)
    } else if method == ApiMethod::Post && path == "/v1/session/task-note"@ {
        Some(ApiRoute::TaskNote)
    } else if method == ApiMethod::Post && path == "/v1/workflow/schedule-delay"@ {
        Some(ApiRoute::ScheduleDelay)
    } else if method == ApiMethod::Post && path == "/v1/workflow/break-glass/trigger"@ {
        Some(ApiRoute::BreakGlassTrigger)
    } else if method == ApiMethod::Post && path == "/v1/workflow/break-glass/cancel"@ {
        Some(ApiRoute::BreakGlassCancel)
    } else if method == ApiMethod::Post && path == "/v1/daemon/stop"@ {
        Some(ApiRoute::DaemonStop)
    } else {
        None
    }
}

/// The request each endpoint answers: its method.
pub open spec fn endpoint_method(r: ApiRoute) -> ApiMethod {
    match r {
        ApiRoute::Health | ApiRoute::Status => ApiMethod::Get,
        _ => ApiMethod::Post,
    }
}

/// The request each endpoint answers: its path.
pub open spec fn endpoint_path(r: ApiRoute) -> Seq<char> {
    match r {
        ApiRoute::Health => "/v1/health"@,
        ApiRoute::Status => "/v1/status"@,
        ApiRoute::TimerStart => "/v1/timer/start"@,
        ApiRoute::TimerPause => "/v1/timer/pause"@,
        ApiRoute::TimerResume => "/v1/timer/resume"@,
        ApiRoute::TimerStop => "/v1/timer/stop"@,
        ApiRoute::TimerNext => "/v1/timer/next"@,
        ApiRoute::TaskSelect => "/v1/task/select"@,
        ApiRoute::FocusIntention => "/v1/session/focus-intention"@,
        ApiRoute::TaskNote => "/v1/session/task-note"@,
        ApiRoute::ScheduleDelay => "/v1/workflow/schedule-delay"@,
        ApiRoute::BreakGlassTrigger => "/v1/workflow/break-glass/trigger"@,
        ApiRoute::BreakGlassCancel => "/v1/workflow/break-glass/cancel"@,
        ApiRoute::DaemonStop => "/v1/daemon/stop"@,
        ApiRoute::Reject { .. } => Seq::empty(),
    }
}

/// A request reaches an endpoint only by that endpoint's own method and
/// path, and every endpoint is reached by them: so distinct requests reach
/// distinct endpoints, and a `POST` to `/v1/timer/pause` pauses the timer.
pub proof fn lemma_endpoints_answer_their_own_requests(method: ApiMethod, path: Seq<char>, r: ApiRoute)
    ensures
        spec_endpoint(method, path) == Some(r) ==> method == endpoint_method(r) && path == endpoint_path(r)
            && !(r is Reject),
        !(r is Reject) ==> spec_endpoint(endpoint_method(r), endpoint_path(r)) == Some(r),
{
    reveal_strlit("/v1/health");
    reveal_strlit("/v1/status");
    reveal_strlit("/v1/timer/start");
    reveal_strlit("/v1/timer/pause");
    reveal_strlit("/v1/timer/resume");
    reveal_strlit("/v1/timer/stop");
    reveal_strlit("/v1/timer/next");
    reveal_strlit("/v1/task/select");
    reveal_strlit("/v1/session/focus-intention");
    reveal_strlit("/v1/session/task-note");
    reveal_strlit("/v1/workflow/schedule-delay");
    reveal_strlit("/v1/workflow/break-glass/trigger");
    reveal_strlit("/v1/workflow/break-glass/cancel");
    reveal_strlit("/v1/daemon/stop");
    match r {
        ApiRoute::Health => {
        },
        ApiRoute::Status => {
            assert("/v1/status"@ != "/v1/health"@) by {
                assert("/v1/status"@[4] != "/v1/health"@[4]);
            }
        },
        ApiRoute::TimerStart => {
            assert("/v1/timer/start"@ != "/v1/health"@) by {
                assert("/v1/timer/start"@.len() != "/v1/health"@.len());
            }
            assert("/v1/timer/start"@ != "/v1/status"@) by {
                assert("/v1/timer/start"@.len() != "/v1/status"@.len());
            }
        },
        ApiRoute::TimerPause => {
            assert("/v1/timer/pause"@ != "/v1/health"@) by {
                assert("/v1/timer/pause"@.len() != "/v1/health"@.len());
            }
            assert("/v1/timer/pause"@ != "/v1/status"@) by {
                assert("/v1/timer/pause"@.len() != "/v1/status"@.len());
            }
            assert("/v1/timer/pause"@ != "/v1/timer/start"@) by {
                assert("/v1/timer/pause"@[10] != "/v1/timer/start"@[10]);
            }
        },
        ApiRoute::TimerResume => {
            assert("/v1/timer/resume"@ != "/v1/health"@) by {
                assert("/v1/timer/resume"@.len() != "/v1/health"@.len());
            }
            assert("/v1/timer/resume"@ != "/v1/status"@) by {
                assert("/v1/timer/resume"@.len() != "/v1/status"@.len());
            }
            assert("/v1/timer/resume"@ != "/v1/timer/start"@) by {
                assert("/v1/timer/resume"@.len() != "/v1/timer/start"@.len());
            }
            assert("/v1/timer/resume"@ != "/v1/timer/pause"@) by {
                assert("/v1/timer/resume"@.len() != "/v1/timer/pause"@.len());
            }
        },
        ApiRoute::TimerStop => {
            assert("/v1/timer/stop"@ != "/v1/health"@) by {
                assert("/v1/timer/stop"@.len() != "/v1/health"@.len());
            }
            assert("/v1/timer/stop"@ != "/v1/status"@) by {
                assert("/v1/timer/stop"@.len() != "/v1/status"@.len());
            }
            assert("/v1/timer/stop"@ != "/v1/timer/start"@) by {
                assert("/v1/timer/stop"@.len() != "/v1/timer/start"@.len());
            }
            assert("/v1/timer/stop"@ != "/v1/timer/pause"@) by {
                assert("/v1/timer/stop"@.len() != "/v1/timer/pause"@.len());
            }
            assert("/v1/timer/stop"@ != "/v1/timer/resume"@) by {
                assert("/v1/timer/stop"@.len() != "/v1/timer/resume"@.len());
            }
        },
        ApiRoute::TimerNext => {
            assert("/v1/timer/next"@ != "/v1/health"@) by {
                assert("/v1/timer/next"@.len() != "/v1/health"@.len());
            }
            assert("/v1/timer/next"@ != "/v1/status"@) by {
                assert("/v1/timer/next"@.len() != "/v1/status"@.len());
            }
            assert("/v1/timer/next"@ != "/v1/timer/start"@) by {
                assert("/v1/timer/next"@.len() != "/v1/timer/start"@.len());
            }
            assert("/v1/timer/next"@ != "/v1/timer/pause"@) by {
                assert("/v1/timer/next"@.len() != "/v1/timer/pause"@.len());
            }
            assert("/v1/timer/next"@ != "/v1/timer/resume"@) by {
                assert("/v1/timer/next"@.len() != "/v1/timer/resume"@.len());
            }
            assert("/v1/timer/next"@ != "/v1/timer/stop"@) by {
                assert("/v1/timer/next"@[10] != "/v1/timer/stop"@[10]);
            }
        },
        ApiRoute::TaskSelect => {
            assert("/v1/task/select"@ != "/v1/health"@) by {
                assert("/v1/task/select"@.len() != "/v1/health"@.len());
            }
            assert("/v1/task/select"@ != "/v1/status"@) by {
                assert("/v1/task/select"@.len() != "/v1/status"@.len());
            }
            assert("/v1/task/select"@ != "/v1/timer/start"@) by {
                assert("/v1/task/select"@[5] != "/v1/timer/start"@[5]);
            }
            assert("/v1/task/select"@ != "/v1/timer/pause"@) by {
                assert("/v1/task/select"@[5] != "/v1/timer/pause"@[5]);
            }
            assert("/v1/task/select"@ != "/v1/timer/resume"@) by {
                assert("/v1/task/select"@.len() != "/v1/timer/resume"@.len());
            }
            assert("/v1/task/select"@ != "/v1/timer/stop"@) by {
                assert("/v1/task/select"@.len() != "/v1/timer/stop"@.len());
            }
            assert("/v1/task/select"@ != "/v1/timer/next"@) by {
                assert("/v1/task/select"@.len() != "/v1/timer/next"@.len());
            }
        },
        ApiRoute::FocusIntention => {
            assert("/v1/session/focus-intention"@ != "/v1/health"@) by {
                assert("/v1/session/focus-intention"@.len() != "/v1/health"@.len());
            }
            assert("/v1/session/focus-intention"@ != "/v1/status"@) by {
                assert("/v1/session/focus-intention"@.len() != "/v1/status"@.len());
            }
            assert("/v1/session/focus-intention"@ != "/v1/timer/start"@) by {
                assert("/v1/session/focus-intention"@.len() != "/v1/timer/start"@.len());
            }
            assert("/v1/session/focus-intention"@ != "/v1/timer/pause"@) by {
                assert("/v1/session/focus-intention"@.len() != "/v1/timer/pause"@.len());
            }
            assert("/v1/session/focus-intention"@ != "/v1/timer/resume"@) by {
                assert("/v1/session/focus-intention"@.len() != "/v1/timer/resume"@.len());
            }
            assert("/v1/session/focus-intention"@ != "/v1/timer/stop"@) by {
                assert("/v1/session/focus-intention"@.len() != "/v1/timer/stop"@.len());
            }
            assert("/v1/session/focus-intention"@ != "/v1/timer/next"@) by {
                assert("/v1/session/focus-intention"@.len() != "/v1/timer/next"@.len());
            }
            assert("/v1/session/focus-intention"@ != "/v1/task/select"@) by {
                assert("/v1/session/focus-intention"@.len() != "/v1/task/select"@.len());
            }
        },
        ApiRoute::TaskNote => {
            assert("/v1/session/task-note"@ != "/v1/health"@) by {
                assert("/v1/session/task-note"@.len() != "/v1/health"@.len());
            }
            assert("/v1/session/task-note"@ != "/v1/status"@) by {
                assert("/v1/session/task-note"@.len() != "/v1/status"@.len());
            }
            assert("/v1/session/task-note"@ != "/v1/timer/start"@) by {
                assert("/v1/session/task-note"@.len() != "/v1/timer/start"@.len());
            }
            assert("/v1/session/task-note"@ != "/v1/timer/pause"@) by {
                assert("/v1/session/task-note"@.len() != "/v1/timer/pause"@.len());
            }
            assert("/v1/session/task-note"@ != "/v1/timer/resume"@) by {
                assert("/v1/session/task-note"@.len() != "/v1/timer/resume"@.len());
            }
            assert("/v1/session/task-note"@ != "/v1/timer/stop"@) by {
                assert("/v1/session/task-note"@.len() != "/v1/timer/stop"@.len());
            }
            assert("/v1/session/task-note"@ != "/v1/timer/next"@) by {
                assert("/v1/session/task-note"@.len() != "/v1/timer/next"@.len());
            }
            assert("/v1/session/task-note"@ != "/v1/task/select"@) by {
                assert("/v1/session/task-note"@.len() != "/v1/task/select"@.len());
            }
            assert("/v1/session/task-note"@ != "/v1/session/focus-intention"@) by {
                assert("/v1/session/task-note"@.len() != "/v1/session/focus-intention"@.len());
            }
        },
        ApiRoute::ScheduleDelay => {
            assert("/v1/workflow/schedule-delay"@ != "/v1/health"@) by {
                assert("/v1/workflow/schedule-delay"@.len() != "/v1/health"@.len());
            }
            assert("/v1/workflow/schedule-delay"@ != "/v1/status"@) by {
                assert("/v1/workflow/schedule-delay"@.len() != "/v1/status"@.len());
            }
            assert("/v1/workflow/schedule-delay"@ != "/v1/timer/start"@) by {
                assert("/v1/workflow/schedule-delay"@.len() != "/v1/timer/start"@.len());
            }
            assert("/v1/workflow/schedule-delay"@ != "/v1/timer/pause"@) by {
                assert("/v1/workflow/schedule-delay"@.len() != "/v1/timer/pause"@.len());
            }
            assert("/v1/workflow/schedule-delay"@ != "/v1/timer/resume"@) by {
                assert("/v1/workflow/schedule-delay"@.len() != "/v1/timer/resume"@.len());
            }
            assert("/v1/workflow/schedule-delay"@ != "/v1/timer/stop"@) by {
                assert("/v1/workflow/schedule-delay"@.len() != "/v1/timer/stop"@.len());
            }
            assert("/v1/workflow/schedule-delay"@ != "/v1/timer/next"@) by {
                assert("/v1/workflow/schedule-delay"@.len() != "/v1/timer/next"@.len());
            }
            assert("/v1/workflow/schedule-delay"@ != "/v1/task/select"@) by {
                assert("/v1/workflow/schedule-delay"@.len() != "/v1/task/select"@.len());
            }
            assert("/v1/workflow/schedule-delay"@ != "/v1/session/focus-intention"@) by {
                assert("/v1/workflow/schedule-delay"@[4] != "/v1/session/focus-intention"@[4]);
            }
            assert("/v1/workflow/schedule-delay"@ != "/v1/session/task-note"@) by {
                assert("/v1/workflow/schedule-delay"@.len() != "/v1/session/task-note"@.len());
            }
        },
        ApiRoute::BreakGlassTrigger => {
            assert("/v1/workflow/break-glass/trigger"@ != "/v1/health"@) by {
                assert("/v1/workflow/break-glass/trigger"@.len() != "/v1/health"@.len());
            }
            assert("/v1/workflow/break-glass/trigger"@ != "/v1/status"@) by {
                assert("/v1/workflow/break-glass/trigger"@.len() != "/v1/status"@.len());
            }
            assert("/v1/workflow/break-glass/trigger"@ != "/v1/timer/start"@) by {
                assert("/v1/workflow/break-glass/trigger"@.len() != "/v1/timer/start"@.len());
            }
            assert("/v1/workflow/break-glass/trigger"@ != "/v1/timer/pause"@) by {
                assert("/v1/workflow/break-glass/trigger"@.len() != "/v1/timer/pause"@.len());
            }
            assert("/v1/workflow/break-glass/trigger"@ != "/v1/timer/resume"@) by {
                assert("/v1/workflow/break-glass/trigger"@.len() != "/v1/timer/resume"@.len());
            }
            assert("/v1/workflow/break-glass/trigger"@ != "/v1/timer/stop"@) by {
                assert("/v1/workflow/break-glass/trigger"@.len() != "/v1/timer/stop"@.len());
            }
            assert("/v1/workflow/break-glass/trigger"@ != "/v1/timer/next"@) by {
                assert("/v1/workflow/break-glass/trigger"@.len() != "/v1/timer/next"@.len());
            }
            assert("/v1/workflow/break-glass/trigger"@ != "/v1/task/select"@) by {
                assert("/v1/workflow/break-glass/trigger"@.len() != "/v1/task/select"@.len());
            }
            assert("/v1/workflow/break-glass/trigger"@ != "/v1/session/focus-intention"@) by {
                assert("/v1/workflow/break-glass/trigger"@.len() != "/v1/session/focus-intention"@.len());
            }
            assert("/v1/workflow/break-glass/trigger"@ != "/v1/session/task-note"@) by {
                assert("/v1/workflow/break-glass/trigger"@.len() != "/v1/session/task-note"@.len());
            }
            assert("/v1/workflow/break-glass/trigger"@ != "/v1/workflow/schedule-delay"@) by {
                assert("/v1/workflow/break-glass/trigger"@.len() != "/v1/workflow/schedule-delay"@.len());
            }
        },
        ApiRoute::BreakGlassCancel => {
            assert("/v1/workflow/break-glass/cancel"@ != "/v1/health"@) by {
                assert("/v1/workflow/break-glass/cancel"@.len() != "/v1/health"@.len());
            }
            assert("/v1/workflow/break-glass/cancel"@ != "/v1/status"@) by {
                assert("/v1/workflow/break-glass/cancel"@.len() != "/v1/status"@.len());
            }
            assert("/v1/workflow/break-glass/cancel"@ != "/v1/timer/start"@) by {
                assert("/v1/workflow/break-glass/cancel"@.len() != "/v1/timer/start"@.len());
            }
            assert("/v1/workflow/break-glass/cancel"@ != "/v1/timer/pause"@) by {
                assert("/v1/workflow/break-glass/cancel"@.len() != "/v1/timer/pause"@.len());
            }
            assert("/v1/workflow/break-glass/cancel"@ != "/v1/timer/resume"@) by {
                assert("/v1/workflow/break-glass/cancel"@.len() != "/v1/timer/resume"@.len());
            }
            assert("/v1/workflow/break-glass/cancel"@ != "/v1/timer/stop"@) by {
                assert("/v1/workflow/break-glass/cancel"@.len() != "/v1/timer/stop"@.len());
            }
            assert("/v1/workflow/break-glass/cancel"@ != "/v1/timer/next"@) by {
                assert("/v1/workflow/break-glass/cancel"@.len() != "/v1/timer/next"@.len());
            }
            assert("/v1/workflow/break-glass/cancel"@ != "/v1/task/select"@) by {
                assert("/v1/workflow/break-glass/cancel"@.len() != "/v1/task/select"@.len());
            }
            assert("/v1/workflow/break-glass/cancel"@ != "/v1/session/focus-intention"@) by {
                assert("/v1/workflow/break-glass/cancel"@.len() != "/v1/session/focus-intention"@.len());
            }
            assert("/v1/workflow/break-glass/cancel"@ != "/v1/session/task-note"@) by {
                assert("/v1/workflow/break-glass/cancel"@.len() != "/v1/session/task-note"@.len());
            }
            assert("/v1/workflow/break-glass/cancel"@ != "/v1/workflow/schedule-delay"@) by {
                assert("/v1/workflow/break-glass/cancel"@.len() != "/v1/workflow/schedule-delay"@.len());
            }
            assert("/v1/workflow/break-glass/cancel"@ != "/v1/workflow/break-glass/trigger"@) by {
                assert("/v1/workflow/break-glass/cancel"@.len() != "/v1/workflow/break-glass/trigger"@.len());
            }
        },
        ApiRoute::DaemonStop => {
            assert("/v1/daemon/stop"@ != "/v1/health"@) by {
                assert("/v1/daemon/stop"@.len() != "/v1/health"@.len());
            }
            assert("/v1/daemon/stop"@ != "/v1/status"@) by {
                assert("/v1/daemon/stop"@.len() != "/v1/status"@.len());
            }
            assert("/v1/daemon/stop"@ != "/v1/timer/start"@) by {
                assert("/v1/daemon/stop"@[4] != "/v1/timer/start"@[4]);
            }
            assert("/v1/daemon/stop"@ != "/v1/timer/pause"@) by {
                assert("/v1/daemon/stop"@[4] != "/v1/timer/pause"@[4]);
            }
            assert("/v1/daemon/stop"@ != "/v1/timer/resume"@) by {
                assert("/v1/daemon/stop"@.len() != "/v1/timer/resume"@.len());
            }
            assert("/v1/daemon/stop"@ != "/v1/timer/stop"@) by {
                assert("/v1/daemon/stop"@.len() != "/v1/timer/stop"@.len());
            }
            assert("/v1/daemon/stop"@ != "/v1/timer/next"@) by {
                assert("/v1/daemon/stop"@.len() != "/v1/timer/next"@.len());
            }
            assert("/v1/daemon/stop"@ != "/v1/task/select"@) by {
                assert("/v1/daemon/stop"@[4] != "/v1/task/select"@[4]);
            }
            assert("/v1/daemon/stop"@ != "/v1/session/focus-intention"@) by {
                assert("/v1/daemon/stop"@.len() != "/v1/session/focus-intention"@.len());
            }
            assert("/v1/daemon/stop"@ != "/v1/session/task-note"@) by {
                assert("/v1/daemon/stop"@.len() != "/v1/session/task-note"@.len());
            }
            assert("/v1/daemon/stop"@ != "/v1/workflow/schedule-delay"@) by {
                assert("/v1/daemon/stop"@.len() != "/v1/workflow/schedule-delay"@.len());
            }
            assert("/v1/daemon/stop"@ != "/v1/workflow/break-glass/trigger"@) by {
                assert("/v1/daemon/stop"@.len() != "/v1/workflow/break-glass/trigger"@.len());
            }
            assert("/v1/daemon/stop"@ != "/v1/workflow/break-glass/cancel"@) by {
                assert("/v1/daemon/stop"@.len() != "/v1/workflow/break-glass/cancel"@.len());
            }
        },
        ApiRoute::Reject { .. } => {},
    }
}

/// An authorized loopback request reaches an endpoint exactly when its
/// method and path are that endpoint's; two requests that reach the same
/// endpoint have the same method and path.
pub proof fn lemma_authorized_requests_route_by_endpoint(
    token: Seq<char>,
    method: ApiMethod,
    url: Seq<char>,
    other_method: ApiMethod,
    other_url: Seq<char>,
    r: ApiRoute,
)
    ensures
        spec_route(true, Some("Bearer "@ + token), token, method, url) == Ok::<ApiRoute, RejectView>(r) ==> method
            == endpoint_method(r) && spec_url_path(url) == endpoint_path(r),
        spec_route(true, Some("Bearer "@ + token), token, method, url) == Ok::<ApiRoute, RejectView>(r) && spec_route(
            true,
            Some("Bearer "@ + token),
            token,
            other_method,
            other_url,
        ) == Ok::<ApiRoute, RejectView>(r) ==> method == other_method && spec_url_path(url) == spec_url_path(other_url),
{
    lemma_endpoints_answer_their_own_requests(method, spec_url_path(url), r);
    lemma_endpoints_answer_their_own_requests(other_method, spec_url_path(other_url), r);
}

pub struct RejectView {
    pub status: u16,
    pub code: Seq<char>,
    pub message: Seq<char>,
}

/// How a request is answered: a route, or a rejection with status, code and message.
pub open spec fn spec_route(
    is_loopback: bool,
    authorization: Option<Seq<char>>,
    token: Seq<char>,
    method: ApiMethod,
    url: Seq<char>,
) -> Result<ApiRoute, RejectView> {
    if !is_loopback {
        Err(RejectView { status: 403, code: "forbidden"@, message: "Only loopback clients can access the local API."@ })
    } else if !(authorization matches Some(v) && v == "Bearer "@ + token) {
        Err(RejectView { status: 401, code: "unauthorized"@, message: "Missing or invalid bearer token."@ })
    } else {
        match spec_endpoint(method, spec_url_path(url)) {
            Some(route) => Ok(route),
            None => Err(
                RejectView {
                    status: 404,
                    code: "not_found"@,
                    message: "Unknown endpoint `"@ + spec_url_path(url) + "`."@,
                },
            ),
        }
    }
}

pub open spec fn route_view(r: ApiRoute) -> Result<ApiRoute, RejectView> {
    match r {
        ApiRoute::Reject { status, code, message } => Err(RejectView { status, code: code@, message: message@ }),
        other => Ok(other),
    }
}

pub open spec fn opt_text_view(o: Option<&str>) -> Option<Seq<char>> {
    match o {
        Some(s) => Some(s@),
        None => None,
    }
}

fn endpoint(method: ApiMethod, path: &str) -> (r: Option<ApiRoute>)
    ensures
        r == spec_endpoint(method, path@),
{
    let get = method == ApiMethod::Get;
    let post = method == ApiMethod::Post;
    if get && str_eq(path, "/v1/health") {
        Some(ApiRoute::Health)
    } else if get && str_eq(path, "/v1/status") {
        Some(ApiRoute::Status)
    } else if post && str_eq(path, "/v1/timer/start") {
        Some(ApiRoute::TimerStart)
    } else if post && str_eq(path, "/v1/timer/pause") {
        Some(ApiRoute::TimerPause)
    } else if post && str_eq(path, "/v1/timer/resume") {
        Some(ApiRoute::TimerResume)
    } else if post && str_eq(path, "/v1/timer/stop") {
        Some(ApiRoute::TimerStop)
    } else if post && str_eq(path, "/v1/timer/next") {
        Some(ApiRoute::TimerNext)
    } else if post && str_eq(path, "/v1/task/select") {
        Some(ApiRoute::TaskSelect)
    } else if post && str_eq(path, "/v1/session/focus-intention") {
        Some(ApiRoute::FocusIntention)
    } else if post && str_eq(path, "/v1/session/task-note") {
        Some(ApiRoute::TaskNote)
    } else if post && str_eq(path, "/v1/workflow/schedule-delay") {
        Some(ApiRoute::ScheduleDelay)
    } else if post && str_eq(path, "/v1/workflow/break-glass/trigger") {
        Some(ApiRoute::BreakGlassTrigger)
    } else if post && str_eq(path, "/v1/workflow/break-glass/cancel") {
        Some(ApiRoute::BreakGlassCancel)
    } else if post && str_eq(path, "/v1/daemon/stop") {
        Some(ApiRoute::DaemonStop)
    } else {
        None
    }
}

/// Routes one API request: only loopback clients with the bearer token
/// reach an endpoint; anything else is rejected with its status and reason.
pub fn route_api_request(
    is_loopback: bool,
    authorization: Option<&str>,
    token: &str,
    method: ApiMethod,
    url: &str,
) -> (r: ApiRoute)
    ensures
        route_view(r) == spec_route(is_loopback, opt_text_view(authorization), token@, method, url@),
{
    if !is_loopback {
        return ApiRoute::Reject {
            status: 403,
            code: owned("forbidden"),
            message: owned("Only loopback clients can access the local API."),
        };
    }
    if !request_has_valid_token(authorization, token) {
        return ApiRoute::Reject {
            status: 401,
            code: owned("unauthorized"),
            message: owned("Missing or invalid bearer token."),
        };
    }
    let path = match split_once_char(url, '?') {
        Some((p, _)) => p,
        None => url,
    };
    match endpoint(method, path) {
        Some(route) => route,
        None => ApiRoute::Reject {
            status: 404,
            code: owned("not_found"),
            message: concat3("Unknown endpoint `", path, "`."),
        },
    }
}

/// The digit of the URL-safe base64 alphabet for a six-bit value: `A`-`Z`,
/// `a`-`z`, `0`-`9`, then `-` and `_`.
pub open spec fn url_safe_digit(n: int) -> char {
    if n < 26 {
        (65 + n) as char
    } else if n < 52 {
        (97 + n - 26) as char
    } else if n < 62 {
        (48 + n - 52) as char
    } else if n == 62 {
        '-'
    } else {
        '_'
    }
}

/// URL-safe base64 without padding: every three bytes become four digits of
/// six bits each, most significant first; a last pair of bytes becomes three
/// digits and a last single byte two, the bits missing at the end zero.
pub open spec fn url_safe_base64(bytes: Seq<u8>) -> Seq<char>
    decreases bytes.len(),
{
    if bytes.len() == 0 {
        Seq::empty()
    } else if bytes.len() == 1 {
        let n = bytes[0] * 16;
        seq![url_safe_digit(n / 64), url_safe_digit(n % 64)]
    } else if bytes.len() == 2 {
        let n = (bytes[0] * 256 + bytes[1]) * 4;
        seq![url_safe_digit(n / 4096), url_safe_digit((n / 64) % 64), url_safe_digit(n % 64)]
    } else {
        let n = bytes[0] * 65536 + bytes[1] * 256 + bytes[2];
        seq![
            url_safe_digit(n / 262144),
            url_safe_digit((n / 4096) % 64),
            url_safe_digit((n / 64) % 64),
            url_safe_digit(n % 64),
        ] + url_safe_base64(bytes.subrange(3, bytes.len() as int))
    }
}

/// Encodes bytes with `URL_SAFE_NO_PAD.encode` (base64 crate): the URL-safe
/// alphabet, no padding, as `url_safe_base64` states it. The bound keeps
/// the crate's output-length computation from overflowing, the one case in
/// which it panics.
#[verifier::external_body]
fn encode_url_safe_no_pad(bytes: &[u8]) -> (r: String)
    requires
        bytes@.len() <= usize::MAX / 2,
    ensures
        r@ == url_safe_base64(bytes@),
{
    base64::engine::general_purpose::URL_SAFE_NO_PAD.encode(bytes)
}

/// Fills `len` bytes from the operating system's random source
/// (`getrandom::fill`).
///
/// The bytes themselves are chance and nothing is said of them but their
/// number; on failure the error is `getrandom::Error`'s text.
#[verifier::external_body]
fn random_token_bytes(len: usize) -> (r: Result<Vec<u8>, String>)
    ensures
        r matches Ok(b) ==> b@.len() == len,
{
    let mut bytes = vec![0u8; len];
    match getrandom::fill(&mut bytes) {
        Ok(()) => Ok(bytes),
        Err(error) => Err(error.to_string()),
    }
}

/// The API token made of what the random source gave: the drawn bytes in
/// URL-safe base64 without padding, or the source's error behind the
/// token-generation message.
pub fn token_from_drawn(drawn: Result<Vec<u8>, String>) -> (r: Result<String, String>)
    requires
        drawn matches Ok(b) ==> b@.len() <= usize::MAX / 2,
    ensures
        match drawn {
            Ok(b) => r matches Ok(t) && t@ == url_safe_base64(b@),
            Err(m) => r matches Err(e) && e@ == "Failed to generate daemon auth token: "@ + m@,
        },
{
    match drawn {
        Ok(bytes) => Ok(encode_url_safe_no_pad(bytes.as_slice())),
        Err(error) => {
            let e = concat("Failed to generate daemon auth token: ", error.as_str());
            Err(e)
        },
    }
}

/// A fresh API token: 32 random bytes in URL-safe base64 without padding.
pub fn generate_token() -> (r: Result<String, String>)
    ensures
        r matches Ok(t) ==> exists|b: Seq<u8>| b.len() == 32 && t@ == #[trigger] url_safe_base64(b),
        r matches Err(e) ==> exists|m: Seq<char>| e@ == "Failed to generate daemon auth token: "@ + m,
{
    let drawn = random_token_bytes(32);
    let ghost drawn_bytes = match &drawn {
        Ok(b) => b@,
        Err(_) => Seq::empty(),
    };
    let r = token_from_drawn(drawn);
    assert(r matches Ok(t) ==> t@ == url_safe_base64(drawn_bytes) && drawn_bytes.len() == 32);
    r
}

} // verus!
