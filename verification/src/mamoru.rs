//! Incident and log construction: packaging a message, a transaction id,
//! an optional address and an optional encoded value into the
//! severity-tagged record that detection logic hands to the monitoring
//! host. Construction is deliberately dumb and total: nothing here
//! validates or transforms a finding.

use crate::mamoru_serialize::ValueData;
use std::collections::HashMap;
use vstd::prelude::*;

verus! {

/// Severity of an incident; a greater rank is graver.
pub enum IncidentSeverity {
    Info,
    Warning,
    Error,
    Alert,
}

/// The numeric rank an incident carries for each severity: informational
/// reports rank lowest, alerts highest.
pub open spec fn severity_rank(s: IncidentSeverity) -> u64 {
    match s {
        IncidentSeverity::Info => 0,
        IncidentSeverity::Warning => 1,
        IncidentSeverity::Error => 2,
        IncidentSeverity::Alert => 3,
    }
}

impl IncidentSeverity {
    /// The numeric rank this severity puts into an incident record.
    pub fn rank(&self) -> (r: u64)
        ensures
            r == severity_rank(*self),
    {
        match self {
            IncidentSeverity::Info => 0,
            IncidentSeverity::Warning => 1,
            IncidentSeverity::Error => 2,
            IncidentSeverity::Alert => 3,
        }
    }
}

/// A severity-tagged finding, ready for hand-off to the monitoring host.
/// An empty `address` means no address is involved.
pub struct Incident {
    pub severity: u64,
    pub message: String,
    pub tx_hash: String,
    pub address: String,
    pub data: Option<ValueData>,
}

impl Incident {
    /// Creates an incident with the informational severity. A missing
    /// address becomes the empty string; the data rides along unchanged.
    pub fn new_info(
        tx_id: String,
        message: &str,
        data: Option<ValueData>,
        address: Option<String>,
    ) -> (r: Incident)
        ensures
            r.severity == severity_rank(IncidentSeverity::Info),
            r.message@ == message@,
            r.tx_hash == tx_id,
            r.address@ == match address {
                Some(a) => a@,
                None => Seq::<char>::empty(),
            },
            r.data == data,
    {
        Incident {
            severity: 0,
            message: message.to_owned(),
            tx_hash: tx_id,
            address: match address {
                Some(a) => a,
                None => String::new(),
            },
            data,
        }
    }
}

/// The level a log record is tagged with.
pub enum LogType {
    DEBUG,
    INFO,
    WARN,
    ERROR,
}

/// The incident severity a log level maps to: diagnostic and informational
/// levels report as informational, warnings as Warning, errors as Error.
pub open spec fn log_rank(t: LogType) -> u64 {
    match t {
        LogType::DEBUG => severity_rank(IncidentSeverity::Info),
        LogType::INFO => severity_rank(IncidentSeverity::Info),
        LogType::WARN => severity_rank(IncidentSeverity::Warning),
        LogType::ERROR => severity_rank(IncidentSeverity::Error),
    }
}

/// Builds the record one log call hands to the host. With no level given
/// the severity defaults to the informational rank; a missing address
/// becomes the empty string. The caller forwards the record to the host's
/// reporting boundary.
pub fn log(
    tx_id: String,
    message: &str,
    typ_: Option<LogType>,
    data: Option<ValueData>,
    address: Option<String>,
) -> (r: Incident)
    ensures
        r.severity == match typ_ {
            None => severity_rank(IncidentSeverity::Info),
            Some(t) => log_rank(t),
        },
        r.message@ == message@,
        r.tx_hash == tx_id,
        r.address@ == match address {
            Some(a) => a@,
            None => Seq::<char>::empty(),
        },
        r.data == data,
{
    let severity: u64 = match typ_ {
        None => 0,
        Some(LogType::DEBUG) => 0,
        Some(LogType::INFO) => 0,
        Some(LogType::WARN) => 1,
        Some(LogType::ERROR) => 2,
    };
    Incident {
        severity,
        message: message.to_owned(),
        tx_hash: tx_id,
        address: match address {
            Some(a) => a,
            None => String::new(),
        },
        data,
    }
}

/// Accepts a query for structured extraction over transaction data.
/// Reserved: nothing is evaluated yet, the call does nothing.
pub fn query(_query: String) {
}

/// The verb of an outgoing request.
pub enum HttpMethod {
    Post,
    Get,
    Put,
    Patch,
    Delete,
}

/// An outgoing request handed to the transport boundary.
pub struct HttpRequest {
    pub method: HttpMethod,
    pub url: String,
    pub headers: HashMap<String, String>,
    pub body: Option<String>,
}

/// What the transport boundary hands back.
pub struct HttpResponse {
    pub status: u16,
    pub error: Option<String>,
    pub headers: HashMap<String, String>,
    pub body: Option<Vec<u8>>,
}

/// Answers any request with a fixed empty success response: no transport
/// is wired up yet, so the status is always 200 and nothing else is set.
pub fn http(_http_request: HttpRequest) -> (r: HttpResponse)
    ensures
        r.status == 200,
        r.error is None,
        r.headers@ == Map::<String, String>::empty(),
        r.body is None,
{
    HttpResponse { status: 200, error: None, headers: HashMap::new(), body: None }
}

/// Reads a decimal string as a 256-bit integer in byte form. Conversion is
/// not wired up yet: every input yields the empty byte vector.
pub fn u256_from_str(_payload: String) -> (r: Vec<u8>)
    ensures
        r@ == Seq::<u8>::empty(),
{
    Vec::new()
}

} // verus!
