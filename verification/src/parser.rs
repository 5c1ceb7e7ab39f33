//! The request line: its target, the URL made of it, and the host and port
//! that the URL names.

use vstd::prelude::*;
use vstd::string::*;
use crate::text::{
    after, before, begins_with, first_at, lemma_first_at_is_position, split_once,
};

verus! {

/// Why a request could not be parsed.
#[derive(Debug)]
pub enum ParseError {
    /// The request line lacks one of its two spaces.
    UrlString,
    /// The URL has no `:` between host and port.
    PortNumber,
    /// The name service gave no answer for the host.
    Resolution,
}

impl ParseError {
    pub open spec fn message_text(self) -> Seq<char> {
        match self {
            ParseError::UrlString => "error parsing url string"@,
            ParseError::PortNumber => "error parsing port number"@,
            ParseError::Resolution => "error resolving host name"@,
        }
    }

    /// The error in words.
    pub fn message(&self) -> (text: String)
        ensures
            text@ == self.message_text(),
    {
        match self {
            ParseError::UrlString => String::from_str("error parsing url string"),
            ParseError::PortNumber => String::from_str("error parsing port number"),
            ParseError::Resolution => String::from_str("error resolving host name"),
        }
    }
}

/// The four letters that mark a target as a URL already.
pub open spec fn scheme_mark() -> Seq<char> {
    seq!['h', 't', 't', 'p']
}

/// What is put in front of a target without a scheme.
pub open spec fn http_prefix() -> Seq<char> {
    seq!['h', 't', 't', 'p', ':', '/', '/']
}

/// The target of a request line: the text between its first and second space.
pub open spec fn target_token(raw: Seq<char>) -> Option<Seq<char>> {
    if raw.contains(' ') && after(raw, ' ').contains(' ') {
        Some(before(after(raw, ' '), ' '))
    } else {
        None
    }
}

/// The first four characters of `target` are `http`.
pub open spec fn has_scheme_mark(target: Seq<char>) -> bool {
    target.len() >= 4 && target.take(4) == scheme_mark()
}

/// The URL of a target: the target itself where it is marked as a URL,
/// else the target behind `http://`.
pub open spec fn normalized_url(target: Seq<char>) -> Seq<char> {
    if has_scheme_mark(target) {
        target
    } else {
        http_prefix() + target
    }
}

/// What a URL holds behind its first seven characters.
pub open spec fn authority(url: Seq<char>) -> Seq<char> {
    if url.len() >= 7 {
        url.skip(7)
    } else {
        Seq::empty()
    }
}

/// Decides whether `target` begins with `http`.
pub fn starts_with_scheme_mark(target: &str) -> (marked: bool)
    ensures
        marked == has_scheme_mark(target@),
{
    let len = target.unicode_len();
    if len < 4 {
        return false;
    }
    let marked = target.get_char(0) == 'h' && target.get_char(1) == 't' && target.get_char(2)
        == 't' && target.get_char(3) == 'p';
    proof {
        let head = target@.take(4);
        if marked {
            assert(head =~= scheme_mark());
        } else {
            assert(head[0] == target@[0] && head[1] == target@[1] && head[2] == target@[2]
                && head[3] == target@[3]);
        }
    }
    marked
}

/// The URL of a request line's target.
pub fn url_of_target(target: &str) -> (url: String)
    ensures
        url@ == normalized_url(target@),
{
    if starts_with_scheme_mark(target) {
        String::from_str(target)
    } else {
        proof {
            reveal_strlit("http://");
            assert("http://"@ =~= http_prefix());
        }
        String::from_str("http://").concat(target)
    }
}

/// One address that the name service gave for a host.
#[derive(Debug)]
pub struct ResolvedAddress {
    /// Whether it is an IPv4 address.
    pub ipv4: bool,
    /// The address as text.
    pub text: String,
}

/// `k` is the place of the first IPv4 address among `addresses`.
pub open spec fn first_ipv4_at(addresses: Seq<ResolvedAddress>, k: int) -> bool {
    &&& 0 <= k < addresses.len()
    &&& addresses[k].ipv4
    &&& forall|j: int| 0 <= j < k ==> !addresses[j].ipv4
}

/// No address among `addresses` is an IPv4 address.
pub open spec fn no_ipv4(addresses: Seq<ResolvedAddress>) -> bool {
    forall|j: int| 0 <= j < addresses.len() ==> !addresses[j].ipv4
}

/// What a request says of its target.
pub struct HttpRequestAttributes {
    pub url: Option<String>,
    pub host_name: Option<String>,
    pub port_number: Option<String>,
    pub ip_address: Option<String>,
}

/// The attributes as plain text.
pub ghost struct RequestView {
    pub url: Option<Seq<char>>,
    pub host_name: Option<Seq<char>>,
    pub port_number: Option<Seq<char>>,
    pub ip_address: Option<Seq<char>>,
}

/// The text of an optional string.
pub open spec fn text_of(field: Option<String>) -> Option<Seq<char>> {
    match field {
        Some(s) => Some(s@),
        None => None,
    }
}

impl View for HttpRequestAttributes {
    type V = RequestView;

    open spec fn view(&self) -> RequestView {
        RequestView {
            url: text_of(self.url),
            host_name: text_of(self.host_name),
            port_number: text_of(self.port_number),
            ip_address: text_of(self.ip_address),
        }
    }
}

impl Default for HttpRequestAttributes {
    fn default() -> (attrs: Self)
        ensures
            attrs@ == HttpRequestAttributes::fresh(),
    {
        HttpRequestAttributes { url: None, host_name: None, port_number: None, ip_address: None }
    }
}

/// The error of `dns_lookup`, opaque here.
#[verifier::external_type_specification]
#[verifier::external_body]
pub struct ExLookupError(dns_lookup::LookupError);

/// Calls `dns_lookup::lookup_host` and hands on each address it gave, in its
/// order, as text with the mark of its family. The answer is the name
/// service's of the moment, so nothing is claimed of it.
#[verifier::external_body]
fn lookup_host(host: &str) -> (answer: Result<Vec<ResolvedAddress>, dns_lookup::LookupError>) {
    match dns_lookup::lookup_host(host) {
        Ok(found) => Ok(
            found.map(|ip| ResolvedAddress { ipv4: ip.is_ipv4(), text: ip.to_string() }).collect(),
        ),
        Err(e) => Err(e),
    }
}

impl HttpRequestAttributes {
    /// The attributes before anything was read.
    pub open spec fn fresh() -> RequestView {
        RequestView { url: None, host_name: None, port_number: None, ip_address: None }
    }

    /// Reads a request: its URL, and the host, the port and the address of
    /// its target.
    pub fn parse(&mut self, request_data: &str) -> (outcome: Result<(), ParseError>)
        ensures
            details_read(old(self)@, request_data@, outcome, final(self)@),
    {
        self.fetch_target_server_details(request_data)
    }

    /// Sets `url` from the target of the request line.
    pub fn construct_url(&mut self, request_data: &str) -> (outcome: Result<(), ParseError>)
        ensures
            match target_token(request_data@) {
                Some(target) => outcome is Ok && final(self)@ == (RequestView {
                    url: Some(normalized_url(target)),
                    ..old(self)@
                }),
                None => outcome == Err::<(), ParseError>(ParseError::UrlString) && final(self)@
                    == old(self)@,
            },
    {
        let rest = match split_once(request_data, ' ') {
            Some(parts) => parts.1,
            None => {
                return Err(ParseError::UrlString);
            },
        };
        let target = match split_once(rest, ' ') {
            Some(parts) => parts.0,
            None => {
                return Err(ParseError::UrlString);
            },
        };
        self.url = Some(url_of_target(target));
        Ok(())
    }

    /// Sets `url`, asks the name service for the host that the URL names, and
    /// records host, port and the first IPv4 address of the answer.
    pub fn fetch_target_server_details(&mut self, request_data: &str) -> (outcome: Result<
        (),
        ParseError,
    >)
        ensures
            details_read(old(self)@, request_data@, outcome, final(self)@),
    {
        match self.construct_url(request_data) {
            Ok(()) => {},
            Err(e) => {
                return Err(e);
            },
        }
        let url: String = match &self.url {
            Some(u) => u.clone(),
            None => {
                return Err(ParseError::UrlString);
            },
        };
        let (host, port) = match split_once(authority_of(url.as_str()), ':') {
            Some(parts) => parts,
            None => {
                return Err(ParseError::PortNumber);
            },
        };
        match lookup_host(host) {
            Ok(addresses) => {
                self.record_resolution(host, port, &addresses);
                Ok(())
            },
            Err(_) => Err(ParseError::Resolution),
        }
    }

    /// Records host, port and the first IPv4 address among `addresses`; where
    /// there is none, records nothing. Says whether it recorded.
    pub fn record_resolution(
        &mut self,
        host: &str,
        port: &str,
        addresses: &Vec<ResolvedAddress>,
    ) -> (recorded: bool)
        ensures
            recorded == !no_ipv4(addresses@),
            recorded == exists|k: int| first_ipv4_at(addresses@, k),
            !recorded ==> final(self)@ == old(self)@,
            recorded ==> final(self)@.host_name == Some(host@) && final(self)@.port_number
                == Some(port@) && final(self)@.ip_address is Some && final(self)@.url == old(
                self,
            )@.url,
            forall|k: int| #[trigger]
                first_ipv4_at(addresses@, k) ==> final(self)@ == (RequestView {
                    url: old(self)@.url,
                    host_name: Some(host@),
                    port_number: Some(port@),
                    ip_address: Some(addresses@[k].text@),
                }),
    {
        let mut i: usize = 0;
        while i < addresses.len()
            invariant
                i <= addresses.len(),
                forall|j: int| 0 <= j < i ==> !addresses@[j].ipv4,
                *self == *old(self),
            decreases addresses.len() - i,
        {
            if addresses[i].ipv4 {
                self.host_name = Some(String::from_str(host));
                self.port_number = Some(String::from_str(port));
                self.ip_address = Some(addresses[i].text.clone());
                proof {
                    assert(first_ipv4_at(addresses@, i as int));
                    assert forall|k: int| first_ipv4_at(addresses@, k) implies k == i by {
                        if k < i {
                            assert(addresses@[k].ipv4);
                        }
                    }
                }
                return true;
            }
            i += 1;
        }
        proof {
            assert forall|k: int| !first_ipv4_at(addresses@, k) by {
                if 0 <= k < addresses@.len() {
                    assert(!addresses@[k].ipv4);
                }
            }
        }
        false
    }
}

/// What reading a request does to the attributes, whatever the name service
/// answers: `before` and `after` are the attributes around the call.
pub open spec fn details_read(
    before_call: RequestView,
    raw: Seq<char>,
    outcome: Result<(), ParseError>,
    after_call: RequestView,
) -> bool {
    match target_token(raw) {
        None => outcome == Err::<(), ParseError>(ParseError::UrlString) && after_call
            == before_call,
        Some(target) => {
            let url = normalized_url(target);
            let with_url = RequestView { url: Some(url), ..before_call };
            if !authority(url).contains(':') {
                outcome == Err::<(), ParseError>(ParseError::PortNumber) && after_call == with_url
            } else {
                ||| outcome == Err::<(), ParseError>(ParseError::Resolution) && after_call
                    == with_url
                ||| outcome is Ok && after_call == with_url
                ||| outcome is Ok && after_call.ip_address is Some && after_call == (RequestView {
                    host_name: Some(before(authority(url), ':')),
                    port_number: Some(after(authority(url), ':')),
                    ip_address: after_call.ip_address,
                    ..with_url
                })
            }
        },
    }
}

/// The part of a URL behind its first seven characters.
pub fn authority_of<'a>(url: &'a str) -> (rest: &'a str)
    ensures
        rest@ == authority(url@),
{
    let len = url.unicode_len();
    if len >= 7 {
        url.substring_char(7, len)
    } else {
        let rest = "";
        proof {
            reveal_strlit("");
            assert(rest@ =~= Seq::<char>::empty());
        }
        rest
    }
}

/// The secure scheme with its separator.
pub open spec fn https_prefix() -> Seq<char> {
    seq!['h', 't', 't', 'p', 's', ':', '/', '/']
}

/// A request line made of a method, a target and a version, with one space
/// between them, has that target and that method.
pub proof fn lemma_request_line_target(method: Seq<char>, target: Seq<char>, version: Seq<char>)
    requires
        !method.contains(' '),
        !target.contains(' '),
    ensures
        target_token(method + seq![' '] + target + seq![' '] + version) == Some(target),
        (method + seq![' '] + target + seq![' '] + version).contains(' '),
        before(method + seq![' '] + target + seq![' '] + version, ' ') == method,
{
    let raw = method + seq![' '] + target + seq![' '] + version;
    let m = method.len() as int;
    let t = target.len() as int;
    assert(first_at(raw, ' ', m)) by {
        assert(raw[m] == ' ');
        assert forall|j: int| 0 <= j < m implies raw[j] != ' ' by {
            assert(raw[j] == method[j]);
            assert(method.contains(method[j]));
        }
    }
    lemma_first_at_is_position(raw, ' ', m);
    let rest = after(raw, ' ');
    assert(rest =~= target + seq![' '] + version);
    assert(first_at(rest, ' ', t)) by {
        assert(rest[t] == ' ');
        assert forall|j: int| 0 <= j < t implies rest[j] != ' ' by {
            assert(rest[j] == target[j]);
            assert(target.contains(target[j]));
        }
    }
    lemma_first_at_is_position(rest, ' ', t);
    assert(before(rest, ' ') =~= target);
    assert(before(raw, ' ') =~= method);
}

/// A target that begins with `http://` or `https://` is its own URL; one that
/// does not begin with `http` gets `http://` put before it, once; and the URL
/// of a URL is that URL, so that no prefix is ever put twice.
pub proof fn lemma_url_prefixed_once(target: Seq<char>)
    ensures
        begins_with(target, http_prefix()) ==> normalized_url(target) == target,
        begins_with(target, https_prefix()) ==> normalized_url(target) == target,
        !has_scheme_mark(target) ==> normalized_url(target) == http_prefix() + target
            && begins_with(normalized_url(target), http_prefix()),
        normalized_url(normalized_url(target)) == normalized_url(target),
{
    if begins_with(target, http_prefix()) {
        assert(target.take(4) =~= target.take(7).take(4));
        assert(http_prefix().take(4) =~= scheme_mark());
    }
    if begins_with(target, https_prefix()) {
        assert(target.take(4) =~= target.take(8).take(4));
        assert(https_prefix().take(4) =~= scheme_mark());
    }
    if !has_scheme_mark(target) {
        let url = http_prefix() + target;
        assert(url.take(4) =~= scheme_mark());
        assert(url.take(7) =~= http_prefix());
    }
}

/// A bare `host:port`, as `CONNECT` sends it, is read as the URL
/// `http://host:port` is: both give the same URL, and what stands behind the
/// prefix is the bare target itself.
pub proof fn lemma_bare_target_reads_as_url(target: Seq<char>)
    requires
        !has_scheme_mark(target),
    ensures
        normalized_url(target) == normalized_url(http_prefix() + target),
        authority(normalized_url(target)) == target,
{
    let url = http_prefix() + target;
    assert(url.take(4) =~= scheme_mark());
    assert(url.skip(7) =~= target);
}

} // verus!
