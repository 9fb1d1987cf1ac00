use crate::error::RequestError;
use crate::json::{string_fields, string_member};
use crate::requester::{CredentialView, Requester, RequesterView};
use crate::text::{decimal, decimal_text};
use vstd::prelude::*;
use vstd::string::*;
use vstd::utf8::encode_utf8;

verus! {

/// The form body of a password grant.
pub open spec fn grant_body(username: Seq<char>, password: Seq<char>) -> Seq<char> {
    "grant_type=password&username="@ + username + "&password="@ + password
}

/// The headers of a password grant whose body is `body`.
pub open spec fn grant_headers(body: Seq<char>) -> Seq<(Seq<char>, Seq<char>)> {
    seq![
        ("Content-Type"@, "application/x-www-form-urlencoded"@),
        ("User-Agent"@, "Rust Program"@),
        ("Accept"@, "application/json"@),
        ("Content-Length"@, decimal(encode_utf8(body).len())),
    ]
}

/// The request of a password grant: a POST of the form body to `url`, with
/// the client's id and secret as its Basic credential.
pub open spec fn grant_request_view(
    url: Seq<char>,
    client_id: Seq<char>,
    client_secret: Seq<char>,
    username: Seq<char>,
    password: Seq<char>,
) -> RequesterView {
    RequesterView {
        url,
        data: Some(grant_body(username, password)),
        headers: grant_headers(grant_body(username, password)),
        credential: CredentialView::Basic { username: client_id, password: client_secret },
    }
}

/// The member of the grant's answer that holds the token.
pub open spec fn access_token_key() -> Seq<char> {
    "access_token"@
}

pub struct TokenView {
    pub url: Seq<char>,
    pub access_token: Seq<char>,
}

/// An access token, with the authorization endpoint that issued it.
#[derive(Debug)]
pub struct Token {
    url: String,
    access_token: String,
}

impl View for Token {
    type V = TokenView;

    closed spec fn view(&self) -> TokenView {
        TokenView { url: self.url@, access_token: self.access_token@ }
    }
}

impl Token {
    /// The password-grant request for the authorization endpoint `url`.
    pub fn grant_request(
        url: String,
        app_username: String,
        app_password: String,
        username: String,
        userpassword: String,
    ) -> (r: Requester)
        ensures
            r@ == grant_request_view(url@, app_username@, app_password@, username@, userpassword@),
    {
        let mut req = Requester::new(url);
        let mut body = String::from_str("grant_type=password&username=");
        body.append(username.as_str());
        body.append("&password=");
        body.append(userpassword.as_str());
        assert(body@ == grant_body(username@, userpassword@));
        let length = decimal_text(body.as_str().as_bytes().len());
        assert(length@ == decimal(encode_utf8(grant_body(username@, userpassword@)).len()));
        req.set_data(body);
        req.add_header("Content-Type", "application/x-www-form-urlencoded");
        req.add_header("User-Agent", "Rust Program");
        req.add_header("Accept", "application/json");
        req.add_header("Content-Length", length.as_str());
        req.set_authorization(app_username, app_password);
        assert(req@.headers =~= grant_headers(grant_body(username@, userpassword@)));
        assert(req@ == grant_request_view(
            url@,
            app_username@,
            app_password@,
            username@,
            userpassword@,
        ));
        req
    }

    /// The token of an answer whose `access_token` member is `field`: a token
    /// for `url` holding it, or else `AuthResponseMalformed` with the answer.
    pub fn from_access_token(url: String, field: Option<String>, response: serde_json::Value) -> (r:
        Result<Token, RequestError>)
        ensures
            field matches Some(t) ==> r matches Ok(k) && k@ == (TokenView {
                url: url@,
                access_token: t@,
            }),
            field is None ==> r == Err::<Token, RequestError>(
                RequestError::AuthResponseMalformed(response),
            ),
    {
        match field {
            Some(access_token) => Ok(Token { url, access_token }),
            None => Err(RequestError::AuthResponseMalformed(response)),
        }
    }

    /// Reads the answer of a password grant sent to `url`. An error of the
    /// exchange is passed on unchanged; an answer with a string
    /// `access_token` gives a token holding it; any other answer gives
    /// `AuthResponseMalformed` with the answer.
    pub fn new(url: String, response: Result<serde_json::Value, RequestError>) -> (r: Result<
        Token,
        RequestError,
    >)
        ensures
            response matches Err(e) ==> r == Err::<Token, RequestError>(e),
            response matches Ok(v) ==> (r is Ok <==> string_fields(v).contains_key(
                access_token_key(),
            )),
            response matches Ok(v) ==> (r matches Ok(k) ==> k@ == (TokenView {
                url: url@,
                access_token: string_fields(v)[access_token_key()],
            })),
            response matches Ok(v) ==> (r is Err ==> r == Err::<Token, RequestError>(
                RequestError::AuthResponseMalformed(v),
            )),
    {
        match response {
            Err(e) => Err(e),
            Ok(v) => {
                let field = string_member(&v, "access_token");
                Token::from_access_token(url, field, v)
            },
        }
    }

    pub fn get_access_token(&self) -> (r: String)
        ensures
            r@ == self@.access_token,
    {
        self.access_token.clone()
    }
}

} // verus!
