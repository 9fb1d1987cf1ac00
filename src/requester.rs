use crate::error::RequestError;
use vstd::prelude::*;
use vstd::string::*;

verus! {

#[verifier::external_type_specification]
#[verifier::external_body]
pub struct ExUri(hyper::Uri);

#[verifier::external_type_specification]
#[verifier::external_body]
pub struct ExUriError(hyper::error::UriError);

/// Whether hyper reads the text as a URI.
pub uninterp spec fn uri_accepts(s: Seq<char>) -> bool;

/// The URI that hyper reads from the text.
pub uninterp spec fn uri_of(s: Seq<char>) -> hyper::Uri;

/// Relies on hyper's `FromStr for Uri`: it parses the text, failing on text
/// that is no URI; the empty text is refused.
#[verifier::external_body]
fn parse_uri(s: &str) -> (r: Result<hyper::Uri, hyper::error::UriError>)
    ensures
        r is Ok <==> uri_accepts(s@),
        r matches Ok(u) ==> u == uri_of(s@),
        s@.len() == 0 ==> r is Err,
{
    s.parse::<hyper::Uri>()
}

/// One header line, name and value, passed on verbatim.
#[derive(Debug)]
pub struct ReqHeader {
    pub name: String,
    pub value: String,
}

impl View for ReqHeader {
    type V = (Seq<char>, Seq<char>);

    open spec fn view(&self) -> (Seq<char>, Seq<char>) {
        (self.name@, self.value@)
    }
}

/// The name and value of each header, in order.
pub open spec fn header_views(hs: Seq<ReqHeader>) -> Seq<(Seq<char>, Seq<char>)> {
    hs.map_values(|h: ReqHeader| h@)
}

impl ReqHeader {
    pub fn new(name: String, value: String) -> (r: ReqHeader)
        ensures
            r@ == (name@, value@),
    {
        ReqHeader { name, value }
    }

    fn duplicate(&self) -> (r: ReqHeader)
        ensures
            r@ == self@,
    {
        ReqHeader { name: self.name.clone(), value: self.value.clone() }
    }
}

/// How a request authenticates: at most one mode is active.
#[derive(Debug)]
pub enum Credential {
    Anonymous,
    Basic { username: String, password: String },
    Bearer { token: String },
}

pub enum CredentialView {
    Anonymous,
    Basic { username: Seq<char>, password: Seq<char> },
    Bearer { token: Seq<char> },
}

impl View for Credential {
    type V = CredentialView;

    open spec fn view(&self) -> CredentialView {
        match self {
            Credential::Anonymous => CredentialView::Anonymous,
            Credential::Basic { username, password } => CredentialView::Basic {
                username: username@,
                password: password@,
            },
            Credential::Bearer { token } => CredentialView::Bearer { token: token@ },
        }
    }
}

impl Credential {
    fn duplicate(&self) -> (r: Credential)
        ensures
            r@ == self@,
    {
        match self {
            Credential::Anonymous => Credential::Anonymous,
            Credential::Basic { username, password } => Credential::Basic {
                username: username.clone(),
                password: password.clone(),
            },
            Credential::Bearer { token } => Credential::Bearer { token: token.clone() },
        }
    }
}

#[derive(PartialEq, Eq, Structural, Clone, Copy, Debug)]
pub enum HttpMethod {
    Get,
    Post,
}

/// What a requester holds, as mathematical values.
pub struct RequesterView {
    pub url: Seq<char>,
    pub data: Option<Seq<char>>,
    pub headers: Seq<(Seq<char>, Seq<char>)>,
    pub credential: CredentialView,
}

/// `r` with its target URL replaced.
pub open spec fn with_url(r: RequesterView, url: Seq<char>) -> RequesterView {
    RequesterView { url, ..r }
}

/// `r` with its body replaced.
pub open spec fn with_data(r: RequesterView, data: Seq<char>) -> RequesterView {
    RequesterView { data: Some(data), ..r }
}

/// `r` with one more header at the end.
pub open spec fn with_header(r: RequesterView, name: Seq<char>, value: Seq<char>) -> RequesterView {
    RequesterView { headers: r.headers.push((name, value)), ..r }
}

/// `r` with its credential replaced.
pub open spec fn with_credential(r: RequesterView, c: CredentialView) -> RequesterView {
    RequesterView { credential: c, ..r }
}

/// The header sent when the caller added none: a JSON content type.
pub open spec fn default_headers() -> Seq<(Seq<char>, Seq<char>)> {
    seq![("Content-Type"@, "application/json"@)]
}

/// The headers a request carries: those added, in order, or else the default
/// one alone.
pub open spec fn applied_headers(added: Seq<(Seq<char>, Seq<char>)>) -> Seq<
    (Seq<char>, Seq<char>),
> {
    if added.len() == 0 {
        default_headers()
    } else {
        added
    }
}

/// A request ready to be sent: everything the transport needs, decided.
#[derive(Debug)]
pub struct PreparedRequest {
    pub method: HttpMethod,
    pub url: String,
    pub uri: hyper::Uri,
    pub headers: Vec<ReqHeader>,
    pub credential: Credential,
    pub body: Option<String>,
}

/// `p` is the request that `r` describes, sent with method `m`.
pub open spec fn prepared_from(p: PreparedRequest, r: RequesterView, m: HttpMethod) -> bool {
    &&& p.method == m
    &&& p.url@ == r.url
    &&& p.uri == uri_of(r.url)
    &&& header_views(p.headers@) == applied_headers(r.headers)
    &&& p.credential@ == r.credential
    &&& m == HttpMethod::Get ==> p.body is None
    &&& m == HttpMethod::Post ==> (p.body matches Some(b) && r.data == Some(b@))
}

/// `p` begins `s`.
pub open spec fn prefix_of(p: Seq<char>, s: Seq<char>) -> bool {
    p.len() <= s.len() && s.subrange(0, p.len() as int) == p
}

/// The URLs a request can be sent to: absolute `http` or `https` URIs, as
/// hyper reads them (hyper also refuses an empty authority).
pub open spec fn url_valid(s: Seq<char>) -> bool {
    &&& uri_accepts(s)
    &&& prefix_of("http://"@, s) || prefix_of("https://"@, s)
}

fn has_prefix(s: &str, p: &str) -> (r: bool)
    ensures
        r == prefix_of(p@, s@),
{
    let n = p.unicode_len();
    let m = s.unicode_len();
    if n > m {
        return false;
    }
    let mut i: usize = 0;
    while i < n
        invariant
            n == p@.len(),
            m == s@.len(),
            n <= m,
            i <= n,
            forall|j: int| 0 <= j < i ==> s@[j] == p@[j],
        decreases n - i,
    {
        if s.get_char(i) != p.get_char(i) {
            assert(s@.subrange(0, n as int)[i as int] != p@[i as int]);
            return false;
        }
        i = i + 1;
    }
    assert(s@.subrange(0, n as int) =~= p@);
    true
}

/// A single HTTP request, configured step by step and sent as often as the
/// caller likes; sending never changes it.
#[derive(Debug)]
pub struct Requester {
    url: String,
    data: Option<String>,
    headers: Vec<ReqHeader>,
    credential: Credential,
}

impl View for Requester {
    type V = RequesterView;

    closed spec fn view(&self) -> RequesterView {
        RequesterView {
            url: self.url@,
            data: match self.data {
                Some(d) => Some(d@),
                None => None,
            },
            headers: header_views(self.headers@),
            credential: self.credential@,
        }
    }
}

impl Requester {
    /// A request to `url` with no body, no headers and no credential.
    pub fn new(url: String) -> (r: Requester)
        ensures
            r@ == (RequesterView {
                url: url@,
                data: None,
                headers: Seq::empty(),
                credential: CredentialView::Anonymous,
            }),
    {
        let r = Requester {
            url,
            data: None,
            headers: Vec::new(),
            credential: Credential::Anonymous,
        };
        assert(header_views(r.headers@) =~= Seq::empty());
        r
    }

    /// Appends a header; earlier ones stay, in order.
    pub fn add_header(&mut self, name: &str, value: &str)
        ensures
            final(self)@ == with_header(old(self)@, name@, value@),
    {
        let h = ReqHeader::new(String::from_str(name), String::from_str(value));
        self.headers.push(h);
        assert(header_views(self.headers@) =~= header_views(old(self).headers@).push(
            (name@, value@),
        ));
    }

    pub fn set_url(&mut self, url: String)
        ensures
            final(self)@ == with_url(old(self)@, url@),
    {
        self.url = url;
    }

    /// Authenticates with HTTP Basic from now on, in place of any credential.
    pub fn set_authorization(&mut self, username: String, password: String)
        ensures
            final(self)@ == with_credential(
                old(self)@,
                CredentialView::Basic { username: username@, password: password@ },
            ),
    {
        self.credential = Credential::Basic { username, password };
    }

    /// Authenticates with a Bearer token from now on, in place of any credential.
    pub fn set_oauth(&mut self, token: String)
        ensures
            final(self)@ == with_credential(old(self)@, CredentialView::Bearer { token: token@ }),
    {
        self.credential = Credential::Bearer { token };
    }

    /// Sets the body that a POST sends.
    pub fn set_data(&mut self, data: String)
        ensures
            final(self)@ == with_data(old(self)@, data@),
    {
        self.data = Some(data);
    }

    /// A requester holding the same as this one.
    pub fn duplicate(&self) -> (r: Requester)
        ensures
            r@ == self@,
    {
        let headers = self.copy_headers();
        Requester {
            url: self.url.clone(),
            data: match &self.data {
                Some(d) => Some(d.clone()),
                None => None,
            },
            headers,
            credential: self.credential.duplicate(),
        }
    }

    fn copy_headers(&self) -> (r: Vec<ReqHeader>)
        ensures
            header_views(r@) == header_views(self.headers@),
    {
        let mut out: Vec<ReqHeader> = Vec::new();
        let mut i: usize = 0;
        while i < self.headers.len()
            invariant
                i <= self.headers@.len(),
                header_views(out@) =~= header_views(self.headers@).subrange(0, i as int),
            decreases self.headers@.len() - i,
        {
            let ghost before = out@;
            out.push(self.headers[i].duplicate());
            assert(header_views(out@) =~= header_views(before).push(self.headers@[i as int]@));
            i = i + 1;
        }
        assert(header_views(self.headers@).subrange(0, i as int) =~= header_views(self.headers@));
        out
    }

    fn applied_header_list(&self) -> (r: Vec<ReqHeader>)
        ensures
            header_views(r@) == applied_headers(self@.headers),
    {
        if self.headers.len() == 0 {
            let mut out: Vec<ReqHeader> = Vec::new();
            out.push(
                ReqHeader::new(String::from_str("Content-Type"), String::from_str("application/json")),
            );
            assert(header_views(out@) =~= default_headers());
            return out;
        }
        self.copy_headers()
    }

    fn prepare(&self, method: HttpMethod, body: Option<String>) -> (r: Result<
        PreparedRequest,
        RequestError,
    >)
        ensures
            r is Err <==> !url_valid(self@.url),
            r is Err ==> r matches Err(RequestError::InvalidUrl),
            r matches Ok(p) ==> p.method == method && p.url@ == self@.url && p.uri == uri_of(
                self@.url,
            ) && header_views(p.headers@) == applied_headers(self@.headers) && p.credential@
                == self@.credential && p.body == body,
    {
        let text = self.url.as_str();
        if !(has_prefix(text, "http://") || has_prefix(text, "https://")) {
            return Err(RequestError::InvalidUrl);
        }
        match parse_uri(text) {
            Err(_) => Err(RequestError::InvalidUrl),
            Ok(uri) => Ok(
                PreparedRequest {
                    method,
                    url: self.url.clone(),
                    uri,
                    headers: self.applied_header_list(),
                    credential: self.credential.duplicate(),
                    body,
                },
            ),
        }
    }

    /// The GET this requester describes: `InvalidUrl` exactly when its URL
    /// is no absolute `http`/`https` URI; otherwise its URL, its headers (or the default one), its
    /// credential, and no body.
    pub fn prepare_get(&self) -> (r: Result<PreparedRequest, RequestError>)
        ensures
            r is Err <==> !url_valid(self@.url),
            r is Err ==> r matches Err(RequestError::InvalidUrl),
            r matches Ok(p) ==> prepared_from(p, self@, HttpMethod::Get),
    {
        self.prepare(HttpMethod::Get, None)
    }

    /// The POST this requester describes. With no body set there is nothing to
    /// send: `Ok(None)`, whatever the URL. Otherwise as `prepare_get`, with
    /// the body attached.
    pub fn prepare_post(&self) -> (r: Result<Option<PreparedRequest>, RequestError>)
        ensures
            self@.data is None ==> r matches Ok(None),
            self@.data is Some ==> (r is Err <==> !url_valid(self@.url)),
            self@.data is Some ==> (r matches Ok(Some(_)) <==> url_valid(self@.url)),
            r is Err ==> r matches Err(RequestError::InvalidUrl),
            r matches Ok(Some(p)) ==> prepared_from(p, self@, HttpMethod::Post),
    {
        match &self.data {
            None => Ok(None),
            Some(d) => match self.prepare(HttpMethod::Post, Some(d.clone())) {
                Ok(p) => Ok(Some(p)),
                Err(e) => Err(e),
            },
        }
    }
}

/// A request to which no header was added carries exactly one header, the
/// JSON content type, whatever its method.
pub proof fn lemma_default_header_alone(r: RequesterView, m: HttpMethod, p: PreparedRequest)
    requires
        r.headers.len() == 0,
        prepared_from(p, r, m),
    ensures
        header_views(p.headers@) == seq![("Content-Type"@, "application/json"@)],
{
}

/// A request to which headers were added carries those headers, in order, and
/// nothing else: the default content type is not applied beside them.
pub proof fn lemma_added_headers_only(r: RequesterView, m: HttpMethod, p: PreparedRequest)
    requires
        r.headers.len() > 0,
        prepared_from(p, r, m),
    ensures
        header_views(p.headers@) == r.headers,
{
}

/// Setting a Basic credential and then a Bearer token leaves the Bearer token
/// as the credential of every request prepared afterwards, whatever the
/// method and however often.
pub proof fn lemma_bearer_after_basic(
    r: RequesterView,
    username: Seq<char>,
    password: Seq<char>,
    token: Seq<char>,
    m1: HttpMethod,
    p1: PreparedRequest,
    m2: HttpMethod,
    p2: PreparedRequest,
)
    requires
        prepared_from(
            p1,
            with_credential(
                with_credential(r, CredentialView::Basic { username, password }),
                CredentialView::Bearer { token },
            ),
            m1,
        ),
        prepared_from(
            p2,
            with_credential(
                with_credential(r, CredentialView::Basic { username, password }),
                CredentialView::Bearer { token },
            ),
            m2,
        ),
    ensures
        p1.credential@ == (CredentialView::Bearer { token }),
        p2.credential@ == p1.credential@,
{
}

} // verus!
