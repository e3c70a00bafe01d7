use vstd::prelude::*;
use vstd::string::{StrSliceExecFns, StringExecFns};
use crate::text::{before_char, has_char, parse_usize, parse_usize_spec, prefix_before, to_decimal, decimal};

verus! {

/// Host assumed for an HTTP request that names none.
pub const DEFAULT_HOST: &'static str = "my-secret-token.localhost";

/// Routing id used when no host could be read at all.
pub const DEFAULT_TUNNEL_ID: &'static str = "my-secret-token";

/// One header line of an HTTP request: its name, and its value read as UTF-8
/// with every invalid sequence replaced.
#[derive(Debug)]
pub struct HttpHeader {
    pub name: String,
    pub value: String,
}

/// The request line and headers of a complete HTTP/1 request head.
#[derive(Debug)]
pub struct HttpHead {
    pub method: Option<String>,
    pub path: Option<String>,
    pub version: Option<u8>,
    pub headers: Vec<HttpHeader>,
}

/// The mathematical form of an [`HttpHead`].
pub struct HttpHeadView {
    pub method: Option<Seq<char>>,
    pub path: Option<Seq<char>>,
    pub version: Option<u8>,
    pub headers: Seq<(Seq<char>, Seq<char>)>,
}

pub open spec fn opt_str_view(o: Option<String>) -> Option<Seq<char>> {
    match o {
        Some(s) => Some(s@),
        None => None,
    }
}

impl View for HttpHead {
    type V = HttpHeadView;

    open spec fn view(&self) -> HttpHeadView {
        HttpHeadView {
            method: opt_str_view(self.method),
            path: opt_str_view(self.path),
            version: self.version,
            headers: self.headers@.map_values(|h: HttpHeader| (h.name@, h.value@)),
        }
    }
}

/// The head of the HTTP/1 request at the front of `b`, when `b` starts with a
/// complete one of at most 32 headers.
pub uninterp spec fn http_head_of(b: Seq<u8>) -> Option<HttpHeadView>;

/// The server name of the TLS ClientHello at the front of `b`, when `b` holds
/// a whole ClientHello that carries one.
pub uninterp spec fn tls_server_name_of(b: Seq<u8>) -> Option<Seq<char>>;

/// Relies on `httparse::Request::parse` with room for 32 headers: the head of
/// a complete request.
#[verifier::external_body]
fn parse_http_head(b: &[u8]) -> (r: Option<HttpHead>)
    ensures
        r.is_some() == http_head_of(b@).is_some(),
        r.is_some() ==> r.unwrap()@ == http_head_of(b@).unwrap(),
{
    let mut headers = [httparse::EMPTY_HEADER; 32];
    let mut req = httparse::Request::new(&mut headers);
    match req.parse(b) {
        Ok(httparse::Status::Complete(_)) => Some(HttpHead {
            method: req.method.map(String::from),
            path: req.path.map(String::from),
            version: req.version,
            headers: req.headers.iter().map(|h| HttpHeader {
                name: String::from(h.name),
                value: String::from_utf8_lossy(h.value).into_owned(),
            }).collect(),
        }),
        _ => None,
    }
}

/// Relies on `rustls::server::Acceptor`, fed `b` through `read_tls`: the SNI
/// of the ClientHello that `accept` hands out.
#[verifier::external_body]
fn tls_server_name(b: &[u8]) -> (r: Option<String>)
    ensures
        r.is_some() == tls_server_name_of(b@).is_some(),
        r.is_some() ==> r.unwrap()@ == tls_server_name_of(b@).unwrap(),
{
    let mut acceptor = rustls::server::Acceptor::default();
    acceptor.read_tls(&mut std::io::Cursor::new(b)).ok()?;
    let accepted = acceptor.accept().ok()??;
    accepted.client_hello().server_name().map(String::from)
}

/// What the ingress learned from the first bytes of a connection.
#[derive(Debug)]
pub struct SniffResult {
    pub tunnel_id: String,
    pub host: String,
    pub is_https: bool,
}

/// The mathematical form of a [`SniffResult`].
pub struct SniffView {
    pub tunnel_id: Seq<char>,
    pub host: Seq<char>,
    pub is_https: bool,
}

impl View for SniffResult {
    type V = SniffView;

    open spec fn view(&self) -> SniffView {
        SniffView { tunnel_id: self.tunnel_id@, host: self.host@, is_https: self.is_https }
    }
}

/// Why nothing could be learned from the first bytes of a connection.
#[derive(Debug, Clone, Copy, PartialEq, Eq, Structural)]
pub enum SniffError {
    /// No byte arrived.
    NoData,
    /// The bytes are neither a complete HTTP/1 head nor a ClientHello with a server name.
    Unrecognized,
}

/// The value of the last header named `name`, as a map built in header order keeps it.
pub open spec fn last_header(hs: Seq<(Seq<char>, Seq<char>)>, name: Seq<char>) -> Option<Seq<char>>
    decreases hs.len(),
{
    if hs.len() == 0 {
        None
    } else if hs.last().0 == name {
        Some(hs.last().1)
    } else {
        last_header(hs.drop_last(), name)
    }
}

/// The routing id of a host name: its leftmost DNS label.
pub open spec fn leftmost_label(host: Seq<char>) -> Seq<char> {
    before_char(host, '.')
}

/// The host an HTTP head names, or the default one.
pub open spec fn http_host(h: HttpHeadView) -> Seq<char> {
    match last_header(h.headers, "Host"@) {
        Some(v) => v,
        None => DEFAULT_HOST@,
    }
}

/// What sniffing an HTTP head gives.
pub open spec fn sniff_http_spec(h: HttpHeadView) -> SniffView {
    let host = http_host(h);
    SniffView {
        tunnel_id: leftmost_label(before_char(host, ':')),
        host: if host.contains(':') { host } else { host + ":80"@ },
        is_https: false,
    }
}

/// What sniffing a TLS server name gives.
pub open spec fn sniff_tls_spec(sni: Seq<char>) -> SniffView {
    SniffView { tunnel_id: leftmost_label(sni), host: sni + ":443"@, is_https: true }
}

/// What sniffing the first bytes `b` of a connection gives.
pub open spec fn sniff_spec(b: Seq<u8>) -> Result<SniffView, SniffError> {
    if b.len() == 0 {
        Err(SniffError::NoData)
    } else if http_head_of(b).is_some() {
        Ok(sniff_http_spec(http_head_of(b).unwrap()))
    } else if tls_server_name_of(b).is_some() {
        Ok(sniff_tls_spec(tls_server_name_of(b).unwrap()))
    } else {
        Err(SniffError::Unrecognized)
    }
}

/// The value of the last header called `name`.
pub fn find_last_header(head: &HttpHead, name: &str) -> (r: Option<String>)
    ensures
        r.is_some() == last_header(head@.headers, name@).is_some(),
        r.is_some() ==> r.unwrap()@ == last_header(head@.headers, name@).unwrap(),
{
    let ghost hs = head@.headers;
    let wanted = String::from_str(name);
    let mut i: usize = head.headers.len();
    proof {
        assert(hs.subrange(0, hs.len() as int) =~= hs);
    }
    while i > 0
        invariant
            i <= head.headers@.len(),
            hs == head@.headers,
            wanted@ == name@,
            last_header(hs, name@) == last_header(hs.subrange(0, i as int), name@),
        decreases i,
    {
        let ghost pre = hs.subrange(0, i as int);
        assert(pre.drop_last() =~= hs.subrange(0, i - 1));
        if head.headers[i - 1].name == wanted {
            return Some(head.headers[i - 1].value.clone());
        }
        i = i - 1;
    }
    None
}

/// The routing id of a host name: its leftmost DNS label.
pub fn tunnel_id_of(host: &str) -> (r: String)
    ensures
        r@ == leftmost_label(host@),
{
    prefix_before(host, '.')
}

/// Sniffs a complete HTTP head: the routing id comes from its `Host` header,
/// and the host gets port 80 unless it names one.
pub fn sniff_http(head: &HttpHead) -> (r: SniffResult)
    ensures
        r@ == sniff_http_spec(head@),
{
    let host_header = match find_last_header(head, "Host") {
        Some(v) => v,
        None => String::from_str(DEFAULT_HOST),
    };
    let name = prefix_before(host_header.as_str(), ':');
    let tunnel_id = tunnel_id_of(name.as_str());
    let host = if has_char(host_header.as_str(), ':') {
        host_header
    } else {
        host_header.concat(":80")
    };
    SniffResult { tunnel_id, host, is_https: false }
}

/// Sniffs the server name of a ClientHello: the host gets port 443.
pub fn sniff_tls_sni(sni: &str) -> (r: SniffResult)
    ensures
        r@ == sniff_tls_spec(sni@),
{
    let tunnel_id = tunnel_id_of(sni);
    let host = String::from_str(sni).concat(":443");
    SniffResult { tunnel_id, host, is_https: true }
}

/// Sniffs the first bytes of a connection: first as an HTTP/1 request head,
/// then as a TLS ClientHello.
pub fn sniff_tcp(b: &[u8]) -> (r: Result<SniffResult, SniffError>)
    ensures
        r matches Ok(s) ==> sniff_spec(b@) == Ok::<SniffView, SniffError>(s@),
        r matches Err(e) ==> sniff_spec(b@) == Err::<SniffView, SniffError>(e),
{
    if b.len() == 0 {
        return Err(SniffError::NoData);
    }
    match parse_http_head(b) {
        Some(head) => Ok(sniff_http(&head)),
        None => match tls_server_name(b) {
            Some(sni) => Ok(sniff_tls_sni(sni.as_str())),
            None => Err(SniffError::Unrecognized),
        },
    }
}


/// Tells whether `b` starts with a complete `GET` of the admin path.
pub fn is_admin_head(b: &[u8]) -> (r: bool)
    ensures
        r == crate::ingress::is_admin_request(b@),
{
    match parse_http_head(b) {
        Some(head) => {
            let get = String::from_str("GET");
            let admin = String::from_str(crate::ingress::ADMIN_PATH);
            match (&head.method, &head.path) {
                (Some(m), Some(p)) => *m == get && *p == admin,
                _ => false,
            }
        },
        None => false,
    }
}


/// What a complete HTTP/1 request head says, with defaults where it is silent.
#[derive(Debug)]
pub struct HttpRequestInfo {
    pub method: String,
    pub url: String,
    pub http_version: String,
    pub headers: Vec<HttpHeader>,
    pub body_size: usize,
}

/// `o`'s string, or `d` when there is none.
pub open spec fn or_default(o: Option<Seq<char>>, d: Seq<char>) -> Seq<char> {
    match o {
        Some(s) => s,
        None => d,
    }
}

/// The body size a head announces: its `Content-Length` read as a number, else 0.
pub open spec fn body_size_spec(h: HttpHeadView) -> usize {
    match last_header(h.headers, "Content-Length"@) {
        Some(v) => match parse_usize_spec(v) {
            Some(n) => n,
            None => 0,
        },
        None => 0,
    }
}

fn or_default_string(o: &Option<String>, d: &str) -> (r: String)
    ensures
        r@ == or_default(opt_str_view(*o), d@),
{
    match o {
        Some(s) => s.clone(),
        None => String::from_str(d),
    }
}

/// Summarises a request head: method (default `GET`), path (default `/`),
/// minor version (default 1), every header, and the announced body size.
pub fn request_info(head: &HttpHead) -> (r: HttpRequestInfo)
    ensures
        r.method@ == or_default(head@.method, "GET"@),
        r.url@ == or_default(head@.path, "/"@),
        r.http_version@ == decimal(
            match head@.version {
                Some(v) => v as nat,
                None => 1,
            },
        ),
        r.headers@.map_values(|h: HttpHeader| (h.name@, h.value@)) == head@.headers,
        r.body_size == body_size_spec(head@),
{
    let version: u8 = match head.version {
        Some(v) => v,
        None => 1,
    };
    let body_size = match find_last_header(head, "Content-Length") {
        Some(v) => match parse_usize(v.as_str()) {
            Some(n) => n,
            None => 0,
        },
        None => 0,
    };
    let mut headers: Vec<HttpHeader> = Vec::new();
    let mut i: usize = 0;
    while i < head.headers.len()
        invariant
            i <= head.headers@.len(),
            headers@.len() == i,
            forall|j: int|
                0 <= j < i ==> (#[trigger] headers@[j]).name@ == head.headers@[j].name@
                    && headers@[j].value@ == head.headers@[j].value@,
        decreases head.headers@.len() - i,
    {
        let h = &head.headers[i];
        headers.push(HttpHeader { name: h.name.clone(), value: h.value.clone() });
        i = i + 1;
    }
    assert(headers@.map_values(|h: HttpHeader| (h.name@, h.value@)) =~= head@.headers);
    HttpRequestInfo {
        method: or_default_string(&head.method, "GET"),
        url: or_default_string(&head.path, "/"),
        http_version: to_decimal(version as u64),
        headers,
        body_size,
    }
}

/// Reads the request head at the front of `b`, if `b` starts with a complete one.
pub fn read_request_info(b: &[u8]) -> (r: Option<HttpRequestInfo>)
    ensures
        r.is_some() == http_head_of(b@).is_some(),
        r matches Some(info) ==> info.body_size == body_size_spec(http_head_of(b@).unwrap())
            && info.method@ == or_default(http_head_of(b@).unwrap().method, "GET"@)
            && info.url@ == or_default(http_head_of(b@).unwrap().path, "/"@)
            && info.http_version@ == decimal(
                match http_head_of(b@).unwrap().version {
                    Some(v) => v as nat,
                    None => 1,
                },
            ) && info.headers@.map_values(|h: HttpHeader| (h.name@, h.value@)) == http_head_of(
                b@,
            ).unwrap().headers,
{
    match parse_http_head(b) {
        Some(head) => Some(request_info(&head)),
        None => None,
    }
}

} // verus!
