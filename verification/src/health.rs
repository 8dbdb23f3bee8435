//! Active health checks: the request that probes an upstream, what the
//! probe's outcome says of the upstream, and how a round of probes goes into
//! the registry.

use vstd::prelude::*;

use crate::upstreams::UpstreamsState;

verus! {

/// The only status that shows an upstream to be alive.
pub const HEALTHY_STATUS: u16 = 200;

/// The method of every probe.
pub const PROBE_METHOD: &'static str = "GET";

/// The header in which a probe names the upstream it is meant for.
pub const HOST_HEADER: &'static str = "Host";

/// Why a probe cannot be put into an HTTP request.
#[derive(Clone, Copy, Debug, PartialEq, Eq, Structural)]
pub enum ProbeError {
    /// The probe path is no request target, or the upstream's address
    /// cannot stand in a header.
    InvalidRequest,
}

/// What a probe asks of an upstream: a `GET` for `target`, with the `Host`
/// header set to `host` and without a body.
#[derive(Debug, PartialEq, Eq)]
pub struct ProbeRequest {
    /// The request target: the configured probe path.
    pub target: String,
    /// The value of the `Host` header: the upstream's address.
    pub host: String,
}

/// `http`'s request type. A request is carried through as it is.
#[verifier::external_type_specification]
#[verifier::external_body]
#[verifier::reject_recursive_types(T)]
pub struct ExRequest<T>(http::Request<T>);

/// `http`'s error type.
#[verifier::external_type_specification]
#[verifier::external_body]
pub struct ExHttpError(http::Error);

/// Whether `http` takes `method` as a request method.
pub uninterp spec fn http_takes_method(method: Seq<char>) -> bool;

/// Whether `http` parses `target` as a URI.
pub uninterp spec fn http_takes_target(target: Seq<char>) -> bool;

/// Whether `http` takes `name` as the name of a header.
pub uninterp spec fn http_takes_header_name(name: Seq<char>) -> bool;

/// Whether `http` takes `value` as the value of a header: it holds no
/// control character but the tab. (`http` looks at the bytes of the text;
/// those of a character beyond ASCII are all above 127.)
pub open spec fn header_value_accepted(value: Seq<char>) -> bool {
    forall|i: int|
        0 <= i < value.len() ==> {
            let c = #[trigger] value[i] as u32;
            (c >= 32 && c != 127) || c == 9
        }
}

/// `http::Request::builder()`, on which `method`, `uri`, `header` and
/// `body` are called with what is given. The builder converts the four
/// texts one by one, each by itself, and gives a request if every
/// conversion succeeded, an error if not; a first header is always taken.
/// A header value is converted if each of its bytes is 32 or more and not
/// 127, or is a tab; whether each of the other three texts is converted is
/// named, not stated. Nothing is claimed of the request itself.
#[verifier::external_body]
fn build_request(
    method: &str,
    target: &str,
    name: &str,
    value: &str,
    body: Vec<u8>,
) -> (built: Result<http::Request<Vec<u8>>, http::Error>)
    ensures
        built is Ok <==> (http_takes_method(method@) && http_takes_target(target@)
            && http_takes_header_name(name@) && header_value_accepted(value@)),
{
    http::Request::builder().method(method).uri(target).header(name, value).body(body)
}

/// What the probe of the upstream at `address` asks for: the probe path
/// `path`, of the host `address`.
pub fn probe_request(path: &str, address: &str) -> (probe: ProbeRequest)
    ensures
        probe.target@ == path@,
        probe.host@ == address@,
{
    ProbeRequest { target: path.to_owned(), host: address.to_owned() }
}

impl ProbeRequest {
    /// Whether this probe can be put into an HTTP request.
    pub open spec fn well_formed(&self) -> bool {
        &&& http_takes_method(PROBE_METHOD@)
        &&& http_takes_target(self.target@)
        &&& http_takes_header_name(HOST_HEADER@)
        &&& header_value_accepted(self.host@)
    }

    /// The probe as an HTTP request: method `GET`, this target, the header
    /// `Host` with this host, and an empty body.
    ///
    /// Fails with `InvalidRequest` exactly when `http` does not take the
    /// method, the target and the header's name, or the host holds a
    /// control character other than the tab.
    pub fn to_http(&self) -> (built: Result<http::Request<Vec<u8>>, ProbeError>)
        ensures
            built is Ok <==> self.well_formed(),
            built matches Err(error) ==> error == ProbeError::InvalidRequest,
    {
        match build_request(
            PROBE_METHOD,
            self.target.as_str(),
            HOST_HEADER,
            self.host.as_str(),
            Vec::new(),
        ) {
            Ok(request) => Ok(request),
            Err(_) => Err(ProbeError::InvalidRequest),
        }
    }
}

/// How the probe of one upstream ended.
#[derive(Clone, Copy, Debug, PartialEq, Eq, Structural)]
pub enum ProbeOutcome {
    /// No connection to the upstream could be opened.
    ConnectFailed,
    /// The probe request could not be written.
    WriteFailed,
    /// No response could be read or understood.
    ReadFailed,
    /// The upstream answered with this status.
    Status(u16),
}

/// Whether `outcome` shows the upstream to be alive: it answered, and with
/// status 200.
pub open spec fn probe_passed(outcome: ProbeOutcome) -> bool {
    outcome == ProbeOutcome::Status(HEALTHY_STATUS)
}

/// The liveness flags that a round of probes gives, one per upstream.
pub open spec fn probe_flags(outcomes: Seq<ProbeOutcome>) -> Seq<bool> {
    Seq::new(outcomes.len(), |i: int| probe_passed(outcomes[i]))
}

/// The interval between two rounds of probes, or `None` where active health
/// checks are switched off by an interval of 0.
pub open spec fn probe_interval(interval_secs: usize) -> Option<u64> {
    if interval_secs == 0 {
        None
    } else {
        Some(interval_secs as u64)
    }
}

/// Whether `outcome` shows the upstream to be alive.
pub fn is_healthy(outcome: ProbeOutcome) -> (alive: bool)
    ensures
        alive == probe_passed(outcome),
{
    match outcome {
        ProbeOutcome::Status(status) => status == HEALTHY_STATUS,
        _ => false,
    }
}

/// The number of seconds to sleep before each round of probes, or `None`
/// where the configured interval of 0 switches active health checks off.
pub fn health_check_interval(interval_secs: usize) -> (interval: Option<u64>)
    ensures
        interval == probe_interval(interval_secs),
{
    if interval_secs == 0 {
        None
    } else {
        Some(interval_secs as u64)
    }
}

/// Brings a whole round of probes, one outcome per upstream, into the
/// registry: an upstream is alive afterwards exactly if its probe passed.
pub fn apply_probe_outcomes(state: &mut UpstreamsState, outcomes: &[ProbeOutcome])
    requires
        old(state).wf(),
        outcomes@.len() == old(state)@.len(),
    ensures
        final(state).wf(),
        final(state)@ == probe_flags(outcomes@),
{
    let n = outcomes.len();
    let mut results: Vec<bool> = Vec::with_capacity(n);
    let mut idx: usize = 0;
    while idx < n
        invariant
            n == outcomes@.len(),
            idx <= n,
            results@.len() == idx,
            forall|j: int| 0 <= j < idx ==> results@[j] == probe_passed(outcomes@[j]),
        decreases n - idx,
    {
        results.push(is_healthy(outcomes[idx]));
        idx += 1;
    }
    assert(results@ =~= probe_flags(outcomes@));
    state.reset_from_probe_results(results.as_slice());
}

} // verus!
