//! The subscriber distribution engine's decision core.
//!
//! The long-running loops themselves (socket accept, the HTTP handler, the
//! periodic push, the log writer) live outside this library; each loop hands
//! the values it read — the elapsed time, a peer address, a write outcome —
//! to the functions here, which make every decision: which record is the
//! current snapshot, whether a subscriber is admitted, which members a
//! broadcast pass removes, when a push deadline was missed, and what each
//! HTTP request is answered with.

use vstd::prelude::*;
use vstd::string::StringExecFns;
use crate::logger::{Context, LogLevel, Logger, LoggerError};
use crate::registry::Registry;
use crate::text::{spec_dec, u64_to_string};

verus! {

/// The server's log events. Peer addresses are carried as plain text.
#[derive(Debug)]
pub enum ServerLogs {
    LoadingRecords,
    StartingPushServer,
    StartingSubscriptionServer,
    StartingHttpServer,
    MaxSubscribersInsufficient,
    MissedPushDeadline,
    ClientUnreachable(String),
    PushingToSubscriber(String),
    AddingSubscriber(String),
}

impl Context for ServerLogs {
    open spec fn context_spec(&self) -> Seq<char> {
        match self {
            ServerLogs::LoadingRecords => "Loading records data..."@,
            ServerLogs::StartingPushServer => "Starting push server..."@,
            ServerLogs::StartingSubscriptionServer => "Starting subscription server..."@,
            ServerLogs::StartingHttpServer => "Starting http server..."@,
            ServerLogs::MaxSubscribersInsufficient => {
                "maximum number of connections is insufficient"@
            },
            ServerLogs::MissedPushDeadline => "missed a deadline on subscription push"@,
            ServerLogs::ClientUnreachable(addr) => "could not reach client: "@ + addr@,
            ServerLogs::PushingToSubscriber(addr) => "pushing data to subscriber: "@ + addr@,
            ServerLogs::AddingSubscriber(addr) => "adding subscriber: "@ + addr@,
        }
    }

    fn context_string(&self) -> (r: String) {
        match self {
            ServerLogs::LoadingRecords => String::from_str("Loading records data..."),
            ServerLogs::StartingPushServer => String::from_str("Starting push server..."),
            ServerLogs::StartingSubscriptionServer => String::from_str(
                "Starting subscription server...",
            ),
            ServerLogs::StartingHttpServer => String::from_str("Starting http server..."),
            ServerLogs::MaxSubscribersInsufficient => String::from_str(
                "maximum number of connections is insufficient",
            ),
            ServerLogs::MissedPushDeadline => String::from_str(
                "missed a deadline on subscription push",
            ),
            ServerLogs::ClientUnreachable(addr) => {
                let mut s = String::from_str("could not reach client: ");
                s.append(addr.as_str());
                s
            },
            ServerLogs::PushingToSubscriber(addr) => {
                let mut s = String::from_str("pushing data to subscriber: ");
                s.append(addr.as_str());
                s
            },
            ServerLogs::AddingSubscriber(addr) => {
                let mut s = String::from_str("adding subscriber: ");
                s.append(addr.as_str());
                s
            },
        }
    }
}

/// Immutable configuration of a running server, produced once by
/// `ServerBuilder::finalize` and never changed afterwards.
pub struct ServerConfig {
    pub data_file: String,
    pub http_port: u16,
    pub period: u64,
    pub max_subscriber_count: usize,
    pub logger_queue_size: usize,
    pub max_records_amount: Option<usize>,
}

/// Builder with defaults for every setting except the data file.
pub struct ServerBuilder {
    data_file: String,
    http_port: u16,
    period: u64,
    max_subscriber_count: usize,
    logger_queue_size: usize,
    max_records_amount: Option<usize>,
}

impl ServerBuilder {
    pub closed spec fn spec_data_file(&self) -> Seq<char> {
        self.data_file@
    }

    pub closed spec fn spec_http_port(&self) -> u16 {
        self.http_port
    }

    pub closed spec fn spec_period(&self) -> u64 {
        self.period
    }

    pub closed spec fn spec_max_subscriber_count(&self) -> usize {
        self.max_subscriber_count
    }

    pub closed spec fn spec_logger_queue_size(&self) -> usize {
        self.logger_queue_size
    }

    pub closed spec fn spec_max_records_amount(&self) -> Option<usize> {
        self.max_records_amount
    }

    pub fn new(data_file: &str) -> (r: Self)
        ensures
            r.spec_data_file() == data_file@,
            r.spec_http_port() == 80u16,
            r.spec_period() == 1000u64,
            r.spec_max_subscriber_count() == 10usize,
            r.spec_logger_queue_size() == 100usize,
            r.spec_max_records_amount() == Option::<usize>::None,
    {
        ServerBuilder {
            data_file: data_file.to_owned(),
            http_port: 80,
            period: 1000,
            max_subscriber_count: 10,
            logger_queue_size: 100,
            max_records_amount: None,
        }
    }

    pub fn with_http_port(self, http_port: u16) -> (r: Self)
        ensures
            r.spec_http_port() == http_port,
            r.spec_data_file() == self.spec_data_file(),
            r.spec_period() == self.spec_period(),
            r.spec_max_subscriber_count() == self.spec_max_subscriber_count(),
            r.spec_logger_queue_size() == self.spec_logger_queue_size(),
            r.spec_max_records_amount() == self.spec_max_records_amount(),
    {
        Self { http_port, ..self }
    }

    pub fn with_period(self, period: u64) -> (r: Self)
        ensures
            r.spec_period() == period,
            r.spec_data_file() == self.spec_data_file(),
            r.spec_http_port() == self.spec_http_port(),
            r.spec_max_subscriber_count() == self.spec_max_subscriber_count(),
            r.spec_logger_queue_size() == self.spec_logger_queue_size(),
            r.spec_max_records_amount() == self.spec_max_records_amount(),
    {
        Self { period, ..self }
    }

    pub fn with_max_subscriber_count(self, max_subscriber_count: usize) -> (r: Self)
        ensures
            r.spec_max_subscriber_count() == max_subscriber_count,
            r.spec_data_file() == self.spec_data_file(),
            r.spec_http_port() == self.spec_http_port(),
            r.spec_period() == self.spec_period(),
            r.spec_logger_queue_size() == self.spec_logger_queue_size(),
            r.spec_max_records_amount() == self.spec_max_records_amount(),
    {
        Self { max_subscriber_count, ..self }
    }

    pub fn with_logger_queue_size(self, logger_queue_size: usize) -> (r: Self)
        ensures
            r.spec_logger_queue_size() == logger_queue_size,
            r.spec_data_file() == self.spec_data_file(),
            r.spec_http_port() == self.spec_http_port(),
            r.spec_period() == self.spec_period(),
            r.spec_max_subscriber_count() == self.spec_max_subscriber_count(),
            r.spec_max_records_amount() == self.spec_max_records_amount(),
    {
        Self { logger_queue_size, ..self }
    }

    pub fn with_max_records_amount(self, max_records_amount: Option<usize>) -> (r: Self)
        ensures
            r.spec_max_records_amount() == max_records_amount,
            r.spec_data_file() == self.spec_data_file(),
            r.spec_http_port() == self.spec_http_port(),
            r.spec_period() == self.spec_period(),
            r.spec_max_subscriber_count() == self.spec_max_subscriber_count(),
            r.spec_logger_queue_size() == self.spec_logger_queue_size(),
    {
        Self { max_records_amount, ..self }
    }

    /// Freeze the settings into the immutable configuration the running
    /// server reads.
    pub fn finalize(self) -> (r: ServerConfig)
        ensures
            r.data_file@ == self.spec_data_file(),
            r.http_port == self.spec_http_port(),
            r.period == self.spec_period(),
            r.max_subscriber_count == self.spec_max_subscriber_count(),
            r.logger_queue_size == self.spec_logger_queue_size(),
            r.max_records_amount == self.spec_max_records_amount(),
    {
        ServerConfig {
            data_file: self.data_file,
            http_port: self.http_port,
            period: self.period,
            max_subscriber_count: self.max_subscriber_count,
            logger_queue_size: self.logger_queue_size,
            max_records_amount: self.max_records_amount,
        }
    }
}

/// Which record is current after `elapsed` time units, with a push every
/// `period` units: the quotient, clamped to the last record. The source
/// left an elapsed time beyond the dataset unhandled; clamping keeps a
/// long-running server serving the newest record instead of failing.
pub open spec fn snapshot_index(elapsed: nat, period: nat, len: nat) -> nat
    recommends
        period > 0,
        len > 0,
{
    if elapsed / period < len {
        elapsed / period
    } else {
        (len - 1) as nat
    }
}

/// The record to serve or push right now, given the elapsed time since
/// server start in microseconds.
pub fn get_current_data<'a>(elapsed_micros: u64, period: u64, data: &'a Vec<String>) -> (r:
    &'a String)
    requires
        period > 0,
        data@.len() > 0,
    ensures
        r == data@[snapshot_index(elapsed_micros as nat, period as nat, data@.len() as nat) as int],
{
    let quotient = elapsed_micros / period;
    if quotient < data.len() as u64 {
        &data[quotient as usize]
    } else {
        &data[data.len() - 1]
    }
}

/// Two queries inside one period index see the same snapshot: the choice
/// of record depends on the elapsed time only through the quotient by the
/// period.
pub proof fn lemma_snapshot_deterministic(t1: nat, t2: nat, period: nat, len: nat)
    requires
        period > 0,
        len > 0,
        t1 / period == t2 / period,
    ensures
        snapshot_index(t1, period, len) == snapshot_index(t2, period, len),
{
}

/// Crossing one period boundary moves the snapshot to the next record,
/// as long as the dataset still has one.
pub proof fn lemma_snapshot_advances(t1: nat, t2: nat, period: nat, len: nat)
    requires
        period > 0,
        len > 0,
        t2 / period == t1 / period + 1,
        t2 / period < len,
    ensures
        snapshot_index(t2, period, len) == snapshot_index(t1, period, len) + 1,
{
}

/// The per-connection write timeout: a slow subscriber may hold the
/// broadcast for at most its share of the period.
pub fn write_timeout_micros(period: u64, max_subscriber_count: usize) -> (r: u64)
    requires
        max_subscriber_count > 0,
    ensures
        r == period as int / max_subscriber_count as int,
{
    period / (max_subscriber_count as u64)
}

/// Admit or refuse one inbound subscriber connection.
///
/// Admission succeeds exactly when the registry is below its capacity
/// (the strict bound; see `Registry`). An admitted subscriber is appended
/// and an info event records its address; a refused one is dropped and a
/// warning records the shortage. Either way exactly one event is offered
/// to the logger, and none when only the logger's writer is gone.
pub fn admit_subscriber<T>(
    registry: &mut Registry<T>,
    logger: &mut Logger<ServerLogs>,
    stream: T,
    peer_addr: String,
) -> (r: (bool, Result<(), LoggerError>))
    requires
        old(registry).wf(),
    ensures
        final(registry).wf(),
        final(registry).spec_capacity() == old(registry).spec_capacity(),
        r.0 == (old(registry).view().len() < old(registry).spec_capacity()),
        r.0 ==> final(registry).view() == old(registry).view().push(stream),
        !r.0 ==> final(registry).view() == old(registry).view(),
        r.0 && r.1 is Ok ==> final(logger).history() == old(logger).history().push(
            (LogLevel::Info, ServerLogs::AddingSubscriber(peer_addr)),
        ),
        !r.0 && r.1 is Ok ==> final(logger).history() == old(logger).history().push(
            (LogLevel::Warning, ServerLogs::MaxSubscribersInsufficient),
        ),
        r.1 is Err ==> final(logger).history() == old(logger).history(),
{
    if registry.len() < registry.capacity() {
        let log_result = logger.info(ServerLogs::AddingSubscriber(peer_addr));
        let added = registry.add(stream);
        assert(added);
        (true, log_result)
    } else {
        let log_result = logger.warning(ServerLogs::MaxSubscribersInsufficient);
        (false, log_result)
    }
}

/// Close one broadcast cycle and schedule the next.
///
/// `scheduled` is the wake time of the cycle that just ran, `now` the time
/// its broadcast finished, both in microseconds since server start. On
/// time, the next wake is `scheduled + period`: the absolute schedule
/// absorbs broadcast latency without drift. When `now` has already passed
/// that wake time — strictly after it; finishing exactly on it still
/// leaves a zero-length sleep — the deadline was missed: exactly one error
/// event is offered to the logger and the schedule restarts at
/// `now + period`, so the miss is not compounded by a negative sleep.
pub fn finish_broadcast_cycle(
    logger: &mut Logger<ServerLogs>,
    scheduled: u64,
    period: u64,
    now: u64,
) -> (r: (u64, bool, Result<(), LoggerError>))
    requires
        scheduled + period <= u64::MAX,
        now + period <= u64::MAX,
    ensures
        r.1 == (now > scheduled + period),
        !r.1 ==> r.0 == scheduled + period,
        r.1 ==> r.0 == now + period,
        !r.1 ==> final(logger).history() == old(logger).history() && r.2 is Ok,
        r.1 && r.2 is Ok ==> final(logger).history() == old(logger).history().push(
            (LogLevel::Error, ServerLogs::MissedPushDeadline),
        ),
        r.1 && r.2 is Err ==> final(logger).history() == old(logger).history(),
{
    let next = scheduled + period;
    if now > next {
        let log_result = logger.error(ServerLogs::MissedPushDeadline);
        (now + period, true, log_result)
    } else {
        (next, false, Ok(()))
    }
}

/// One HTTP answer: a status code and a body.
pub struct HttpReply {
    pub status: u16,
    pub body: String,
}

/// The body of the structured refusal for an unroutable request.
pub open spec fn spec_not_found_body(method: Seq<char>, url: Seq<char>) -> Seq<char> {
    "Invalid request: "@ + method + " at "@ + url
}

/// Answer one control-plane request.
///
/// `GET /` is the liveness probe; `GET /BTCUSD` serves the current
/// snapshot; `POST /subscribe/BTCUSD` hands out the push port as a decimal
/// string; anything else is refused with a structured 404 naming the
/// method and path.
pub fn route_request(
    method: &str,
    url: &str,
    elapsed_micros: u64,
    period: u64,
    records: &Vec<String>,
    push_port: u16,
) -> (r: HttpReply)
    requires
        period > 0,
        records@.len() > 0,
    ensures
        method@ == "GET"@ && url@ == "/"@ ==> r.status == 200 && r.body@ == "Hello!"@,
        method@ == "GET"@ && url@ == "/BTCUSD"@ ==> r.status == 200 && r.body@ == records@[
            snapshot_index(elapsed_micros as nat, period as nat, records@.len() as nat) as int]@,
        method@ == "POST"@ && url@ == "/subscribe/BTCUSD"@ ==> r.status == 200 && r.body@
            == spec_dec(push_port as nat),
        !(method@ == "GET"@ && url@ == "/"@) && !(method@ == "GET"@ && url@ == "/BTCUSD"@) && !(
        method@ == "POST"@ && url@ == "/subscribe/BTCUSD"@) ==> r.status == 404 && r.body@
            == spec_not_found_body(method@, url@),
{
    proof {
        reveal_strlit("GET");
        reveal_strlit("POST");
        reveal_strlit("/");
        reveal_strlit("/BTCUSD");
        reveal_strlit("/subscribe/BTCUSD");
        assert("GET"@.len() == 3);
        assert("POST"@.len() == 4);
        assert("/"@.len() == 1);
        assert("/BTCUSD"@.len() == 7);
        assert("/subscribe/BTCUSD"@.len() == 17);
    }
    let is_get = crate::text::str_eq(method, "GET");
    let is_post = crate::text::str_eq(method, "POST");
    if is_get && crate::text::str_eq(url, "/") {
        HttpReply { status: 200, body: String::from_str("Hello!") }
    } else if is_get && crate::text::str_eq(url, "/BTCUSD") {
        let data = get_current_data(elapsed_micros, period, records);
        HttpReply { status: 200, body: data.clone() }
    } else if is_post && crate::text::str_eq(url, "/subscribe/BTCUSD") {
        HttpReply { status: 200, body: u64_to_string(push_port as u64) }
    } else {
        let mut body = String::from_str("Invalid request: ");
        body.append(method);
        body.append(" at ");
        body.append(url);
        proof {
            assert(body@ =~= spec_not_found_body(method@, url@));
        }
        HttpReply { status: 404, body }
    }
}

} // verus!
