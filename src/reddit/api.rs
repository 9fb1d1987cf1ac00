use crate::error::RequestError;
use crate::requester::{
    prepared_from, url_valid, with_credential, with_header, header_views, with_url, CredentialView, HttpMethod,
    PreparedRequest, Requester, RequesterView,
};
use vstd::prelude::*;
use vstd::string::*;

verus! {

/// Where every API method lives: the host, then the method's path.
pub open spec fn api_base() -> Seq<char> {
    "https://oauth.reddit.com/"@
}

/// The headers that every API request carries.
pub open spec fn client_headers() -> Seq<(Seq<char>, Seq<char>)> {
    seq![("User-Agent"@, "Rust Program"@), ("Accept"@, "application/json"@)]
}

pub struct RedditApiView {
    pub api_method: Seq<char>,
    pub access_token: Seq<char>,
    pub url: Seq<char>,
    pub request: RequesterView,
}

/// `a` retargeted at the API method `m`: method, URL and request move together.
pub open spec fn with_method(a: RedditApiView, m: Seq<char>) -> RedditApiView {
    RedditApiView {
        api_method: m,
        url: api_base() + m,
        request: with_url(a.request, api_base() + m),
        ..a
    }
}

/// `a` with the request authenticated by its current access token.
pub open spec fn authorized(a: RedditApiView) -> RedditApiView {
    RedditApiView {
        request: with_credential(a.request, CredentialView::Bearer { token: a.access_token }),
        ..a
    }
}

/// What a GET of the client sends: its request with the client headers.
pub open spec fn sent_request(a: RedditApiView) -> RequesterView {
    with_header(
        with_header(a.request, "User-Agent"@, "Rust Program"@),
        "Accept"@,
        "application/json"@,
    )
}

/// A client of the API for one method at a time, holding the bearer token.
/// Its URL is always the API host followed by its method, and its request
/// always targets that URL.
#[derive(Debug)]
pub struct RedditApi {
    api_method: String,
    access_token: String,
    url: String,
    request: Requester,
}

impl View for RedditApi {
    type V = RedditApiView;

    closed spec fn view(&self) -> RedditApiView {
        RedditApiView {
            api_method: self.api_method@,
            access_token: self.access_token@,
            url: self.url@,
            request: self.request@,
        }
    }
}

fn method_url(api_method: &String) -> (r: String)
    ensures
        r@ == api_base() + api_method@,
{
    let mut url = String::from_str("https://oauth.reddit.com/");
    url.append(api_method.as_str());
    url
}

impl RedditApi {
    /// The URL is the API host followed by the method, and the request
    /// targets that URL with no header and no body of its own.
    pub open spec fn wf(&self) -> bool {
        &&& self@.url == api_base() + self@.api_method
        &&& self@.request.url == self@.url
        &&& self@.request.headers.len() == 0
        &&& self@.request.data is None
    }

    /// A client for `api_method`, owning a plain request to its URL.
    pub fn new(api_method: String, access_token: String) -> (r: RedditApi)
        ensures
            r.wf(),
            r@ == (RedditApiView {
                api_method: api_method@,
                access_token: access_token@,
                url: api_base() + api_method@,
                request: RequesterView {
                    url: api_base() + api_method@,
                    data: None,
                    headers: Seq::empty(),
                    credential: CredentialView::Anonymous,
                },
            }),
    {
        let url = method_url(&api_method);
        let request = Requester::new(url.clone());
        RedditApi { api_method, access_token, url, request }
    }

    /// Retargets the client at `api_method`.
    pub fn set_api_method(&mut self, api_method: String)
        ensures
            final(self)@ == with_method(old(self)@, api_method@),
            old(self).wf() ==> final(self).wf(),
    {
        let new_url = method_url(&api_method);
        self.request.set_url(new_url.clone());
        self.api_method = api_method;
        self.url = new_url;
    }

    pub fn update_access_token(&mut self, access_token: String)
        ensures
            final(self)@ == (RedditApiView { access_token: access_token@, ..old(self)@ }),
            old(self).wf() ==> final(self).wf(),
    {
        self.access_token = access_token;
    }

    /// The GET of the current method: the request is authenticated by the
    /// current token, and the client headers are applied to what is sent.
    /// `InvalidUrl` exactly when the URL is no absolute `http`/`https` URI.
    pub fn prepare_get(&mut self) -> (r: Result<PreparedRequest, RequestError>)
        requires
            old(self).wf(),
        ensures
            final(self).wf(),
            final(self)@ == authorized(old(self)@),
            r is Err <==> !url_valid(old(self)@.url),
            r is Err ==> r matches Err(RequestError::InvalidUrl),
            r matches Ok(p) ==> prepared_from(p, sent_request(final(self)@), HttpMethod::Get),
            r matches Ok(p) ==> p.url@ == api_base() + old(self)@.api_method,
            r matches Ok(p) ==> header_views(p.headers@) == client_headers(),
            r matches Ok(p) ==> p.credential@ == (CredentialView::Bearer {
                token: old(self)@.access_token,
            }),
    {
        self.request.set_oauth(self.access_token.clone());
        let mut sending = self.request.duplicate();
        sending.add_header("User-Agent", "Rust Program");
        sending.add_header("Accept", "application/json");
        assert(sending@ == sent_request(self@));
        proof {
            assert(sending@.headers =~= client_headers());
        }
        sending.prepare_get()
    }
}

/// Once a client is retargeted at `m`, its URL is the API host followed by
/// `m`, and the GET it then prepares goes to exactly that URL.
pub proof fn lemma_get_after_set_method(a: RedditApiView, m: Seq<char>, p: PreparedRequest)
    requires
        prepared_from(p, sent_request(authorized(with_method(a, m))), HttpMethod::Get),
    ensures
        with_method(a, m).url == api_base() + m,
        p.url@ == api_base() + m,
{
}

} // verus!
