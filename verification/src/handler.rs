//! What the proxy does with one request: refuse it, tunnel it or forward it.

use vstd::prelude::*;
use vstd::string::*;
use crate::parser::{details_read, HttpRequestAttributes, ParseError, RequestView};
use crate::site_blocking::ProxyData;
use crate::text::{before, split_once};

verus! {

/// The answer to a request for a blocked host.
pub const ERROR_MSG_HTTP_403_FORBIDDEN: &'static str =
    "HTTP/1.0 403 Access Forbidden \r\nUser-Agent: ProxyServer/1.0\r\n\r\n";

/// The answer to `CONNECT`, sent before the tunnel carries anything.
pub const SUCCESS_MSG_HTTP_200_OK: &'static str =
    "HTTP/1.0 200 Connection established\r\nProxy-Agent: ProxyServer/1.0\r\n\r\n";

/// What to do with a request.
#[derive(Debug)]
pub enum Plan {
    /// Refuse: write the fixed answer for a blocked host and close.
    Forbid,
    /// Connect to `address`, drain the client once more, write the fixed
    /// greeting, then copy bytes both ways.
    Tunnel { address: String },
    /// Fetch `url` and write what came back to the client.
    Forward { url: String },
}

/// A plan as plain text.
pub ghost enum PlanView {
    Forbid,
    Tunnel { address: Seq<char> },
    Forward { url: Seq<char> },
}

impl View for Plan {
    type V = PlanView;

    open spec fn view(&self) -> PlanView {
        match *self {
            Plan::Forbid => PlanView::Forbid,
            Plan::Tunnel { address } => PlanView::Tunnel { address: address@ },
            Plan::Forward { url } => PlanView::Forward { url: url@ },
        }
    }
}

/// Why a connection is given up before anything is written.
#[derive(Debug)]
pub enum HandlerError {
    /// The request could not be parsed.
    Parse(ParseError),
    /// The request names no method.
    Method,
    /// The target has no address to go to.
    Unresolved,
}

/// The outcome of handling as plain text.
pub open spec fn outcome_view(outcome: Result<Plan, HandlerError>) -> Result<
    PlanView,
    HandlerError,
> {
    match outcome {
        Ok(plan) => Ok(plan@),
        Err(e) => Err(e),
    }
}

/// The method of a request line: the text before its first space.
pub open spec fn method_of(raw: Seq<char>) -> Option<Seq<char>> {
    if raw.contains(' ') {
        Some(before(raw, ' '))
    } else {
        None
    }
}

/// The method that asks for a tunnel.
pub open spec fn connect_method() -> Seq<char> {
    seq!['C', 'O', 'N', 'N', 'E', 'C', 'T']
}

/// The address of a tunnel's far end: address, colon, port.
pub open spec fn tunnel_address(ip: Seq<char>, port: Seq<char>) -> Seq<char> {
    ip + seq![':'] + port
}

/// The plan for a parsed request. A blocked host is refused, whatever else
/// the request says; `CONNECT` to a resolved target is tunnelled; any other
/// method is forwarded to the URL.
pub open spec fn planned(raw: Seq<char>, attrs: RequestView, blocked: Set<Seq<char>>) -> Result<
    PlanView,
    HandlerError,
> {
    match attrs.host_name {
        None => Err(HandlerError::Unresolved),
        Some(host) => if blocked.contains(host) {
            Ok(PlanView::Forbid)
        } else {
            match method_of(raw) {
                None => Err(HandlerError::Method),
                Some(method) => if method == connect_method() {
                    match (attrs.ip_address, attrs.port_number) {
                        (Some(ip), Some(port)) => Ok(
                            PlanView::Tunnel { address: tunnel_address(ip, port) },
                        ),
                        _ => Err(HandlerError::Unresolved),
                    }
                } else {
                    match attrs.url {
                        Some(url) => Ok(PlanView::Forward { url }),
                        None => Err(HandlerError::Unresolved),
                    }
                },
            }
        },
    }
}

/// The method of a request line.
pub fn request_method<'a>(request: &'a str) -> (method: Option<&'a str>)
    ensures
        method is Some <==> method_of(request@) is Some,
        method is Some ==> method.unwrap()@ == method_of(request@).unwrap(),
{
    match split_once(request, ' ') {
        Some(parts) => Some(parts.0),
        None => None,
    }
}

/// Whether `method` asks for a tunnel.
pub fn is_connect(method: &str) -> (connect: bool)
    ensures
        connect == (method@ == connect_method()),
{
    proof {
        reveal_strlit("CONNECT");
        assert("CONNECT"@ =~= connect_method());
    }
    String::from_str(method) == String::from_str("CONNECT")
}

/// Decides what to do with a request whose attributes were read.
pub fn dispatch(request: &str, attrs: &HttpRequestAttributes, proxy_data: &ProxyData) -> (outcome:
    Result<Plan, HandlerError>)
    ensures
        outcome_view(outcome) == planned(request@, attrs@, proxy_data.entries()),
{
    let host = match &attrs.host_name {
        Some(h) => h,
        None => {
            return Err(HandlerError::Unresolved);
        },
    };
    if proxy_data.is_blocked(host.as_str()) {
        return Ok(Plan::Forbid);
    }
    let method = match request_method(request) {
        Some(m) => m,
        None => {
            return Err(HandlerError::Method);
        },
    };
    if is_connect(method) {
        match (&attrs.ip_address, &attrs.port_number) {
            (Some(ip), Some(port)) => {
                proof {
                    reveal_strlit(":");
                    assert(":"@ =~= seq![':']);
                }
                let address = ip.clone().concat(":").concat(port.as_str());
                Ok(Plan::Tunnel { address })
            },
            _ => Err(HandlerError::Unresolved),
        }
    } else {
        match &attrs.url {
            Some(url) => Ok(Plan::Forward { url: url.clone() }),
            None => Err(HandlerError::Unresolved),
        }
    }
}

/// What handling a request may give, whatever the name service answers: a
/// parse error, or the plan for the attributes that were read.
pub open spec fn handled(
    raw: Seq<char>,
    blocked: Set<Seq<char>>,
    outcome: Result<PlanView, HandlerError>,
) -> bool {
    exists|read: Result<(), ParseError>, attrs: RequestView| #[trigger]
        details_read(HttpRequestAttributes::fresh(), raw, read, attrs) && outcome == match read {
            Err(e) => Err::<PlanView, HandlerError>(HandlerError::Parse(e)),
            Ok(_) => planned(raw, attrs, blocked),
        }
}

/// Reads the attributes of a drained request and decides what to do with it.
pub fn handle_request(request: &str, proxy_data: &ProxyData) -> (outcome: Result<
    Plan,
    HandlerError,
>)
    ensures
        handled(request@, proxy_data.entries(), outcome_view(outcome)),
{
    let mut attrs = HttpRequestAttributes::default();
    let read = attrs.parse(request);
    let outcome = match read {
        Err(e) => Err(HandlerError::Parse(e)),
        Ok(_) => dispatch(request, &attrs, proxy_data),
    };
    proof {
        assert(details_read(HttpRequestAttributes::fresh(), request@, read, attrs@));
    }
    outcome
}

/// A request for a blocked host is refused, whatever its method and whatever
/// else was read of it: nothing is tunnelled or forwarded.
pub proof fn lemma_blocked_host_is_refused(
    raw: Seq<char>,
    attrs: RequestView,
    blocked: Set<Seq<char>>,
)
    requires
        attrs.host_name is Some,
        blocked.contains(attrs.host_name.unwrap()),
    ensures
        planned(raw, attrs, blocked) == Ok::<PlanView, HandlerError>(PlanView::Forbid),
{
}

/// `CONNECT` to a host that is not blocked opens a tunnel to the resolved
/// address and the stated port.
pub proof fn lemma_connect_opens_tunnel(
    raw: Seq<char>,
    attrs: RequestView,
    blocked: Set<Seq<char>>,
)
    requires
        attrs.host_name is Some,
        !blocked.contains(attrs.host_name.unwrap()),
        method_of(raw) == Some(connect_method()),
        attrs.ip_address is Some,
        attrs.port_number is Some,
    ensures
        planned(raw, attrs, blocked) == Ok::<PlanView, HandlerError>(
            PlanView::Tunnel {
                address: tunnel_address(attrs.ip_address.unwrap(), attrs.port_number.unwrap()),
            },
        ),
{
}

} // verus!
