use vstd::prelude::*;

use crate::error::GistError;
use crate::gist::{Gist, gist_json};
use crate::response::{Response, parsed_html_url, parsed_gist_list};
use crate::text::decimal;

verus! {

/// An HTTP method used by this client.
#[derive(Clone, Copy, PartialEq, Eq, Structural, Debug)]
pub enum Method {
    Get,
    Post,
}

/// A fully built request, ready for a transport to perform: the library
/// decides every part of it, the embedding program only sends it.
#[derive(Debug)]
pub struct HttpRequest {
    pub method: Method,
    pub url: String,
    pub headers: Vec<(String, String)>,
    pub query: Vec<(String, String)>,
    pub body: Option<String>,
}

/// The `Authorization` header value for a token.
pub open spec fn auth_header_text(token: Seq<char>) -> Seq<char> {
    "bearer "@ + token
}

/// The target of a create call.
pub open spec fn create_url(api: Seq<char>) -> Seq<char> {
    api + "/gists"@
}

/// The target of a list call: a user's gists when a login is given, the
/// public gists otherwise.
pub open spec fn list_url_text(api: Seq<char>, login: Option<Seq<char>>) -> Seq<char> {
    match login {
        Option::Some(user) => api + "/users/"@ + user + "/gists"@,
        Option::None => api + "/gists/public"@,
    }
}

/// The headers sent with every call, in order: authorization, accepted
/// content, user agent, content type.
pub open spec fn request_headers(token: Seq<char>) -> Seq<(Seq<char>, Seq<char>)> {
    seq![
        ("Authorization"@, auth_header_text(token)),
        ("Accept"@, "application/json"@),
        ("User-Agent"@, "oz/gist"@),
        ("Content-Type"@, "application/vnd.github.v3+json"@),
    ]
}

/// The API base URL used when no override is supplied.
pub fn default_api_url() -> (r: String)
    ensures
        r@ == "https://api.github.com"@,
{
    String::from_str("https://api.github.com")
}

/// Whether a response status reports success.
pub open spec fn is_success(status: u16) -> bool {
    200 <= status < 300
}

/// The error reported for a create call that came back with a failing status.
pub open spec fn create_error_message(status: u16) -> Seq<char> {
    "HTTP error while posting gist: "@ + decimal(status as nat)
}

/// The error reported for a list call that came back with a failing status.
pub open spec fn list_error_message(status: u16) -> Seq<char> {
    "HTTP error while listing gists: "@ + decimal(status as nat)
}

/// The client side of the gist API: it owns the already resolved bearer token
/// and the API base URL, builds the requests, and interprets the responses.
/// The transport that carries a request and brings back a status and a body
/// lives outside the library.
#[derive(Debug)]
pub struct Client {
    token: String,
    api: String,
}

impl Client {
    /// The bearer token sent with every call.
    pub closed spec fn spec_token(self) -> Seq<char> {
        self.token@
    }

    /// The API base URL.
    pub closed spec fn spec_api(self) -> Seq<char> {
        self.api@
    }

    /// A client over an already resolved token and base URL.
    pub fn new(token: String, api: String) -> (c: Client)
        ensures
            c.spec_token() == token@,
            c.spec_api() == api@,
    {
        Client { token, api }
    }

    fn auth_header(&self) -> (r: String)
        ensures
            r@ == auth_header_text(self.spec_token()),
    {
        let mut s = String::from_str("bearer ");
        s.append(self.token.as_str());
        s
    }

    fn headers(&self) -> (r: Vec<(String, String)>)
        ensures
            r.deep_view() == request_headers(self.spec_token()),
    {
        let mut v: Vec<(String, String)> = Vec::new();
        v.push((String::from_str("Authorization"), self.auth_header()));
        v.push((String::from_str("Accept"), String::from_str("application/json")));
        v.push((String::from_str("User-Agent"), String::from_str("oz/gist")));
        v.push((
            String::from_str("Content-Type"),
            String::from_str("application/vnd.github.v3+json"),
        ));
        proof {
            assert(v.deep_view() =~~= request_headers(self.spec_token()));
        }
        v
    }

    fn gist_list_url(&self, login: &Option<String>) -> (r: String)
        ensures
            r@ == list_url_text(self.spec_api(), login.deep_view()),
    {
        let mut s = self.api.clone();
        match login {
            Some(user) => {
                s.append("/users/");
                s.append(user.as_str());
                s.append("/gists");
            },
            None => {
                s.append("/gists/public");
            },
        }
        s
    }

    /// The request that creates `gist`: a POST of the serialized document to
    /// `<api>/gists`, with the fixed headers. A document with no files is
    /// never sent: callers gate on `is_empty` first.
    pub fn create_request(&self, gist: &Gist) -> (r: HttpRequest)
        requires
            gist.entries().len() > 0,
        ensures
            r.method == Method::Post,
            r.url@ == create_url(self.spec_api()),
            r.headers.deep_view() == request_headers(self.spec_token()),
            r.query@.len() == 0,
            r.body matches Some(b) && b@ == gist_json(
                gist.spec_public(),
                gist.entries(),
                gist.spec_description(),
            ),
    {
        let mut url = self.api.clone();
        url.append("/gists");
        HttpRequest {
            method: Method::Post,
            url,
            headers: self.headers(),
            query: Vec::new(),
            body: Some(gist.to_json()),
        }
    }

    /// The request that lists gists: a GET of the user's gists when a login
    /// is given, of the public gists otherwise, with the fixed headers and a
    /// fixed page size of ten.
    pub fn list_request(&self, login: &Option<String>) -> (r: HttpRequest)
        ensures
            r.method == Method::Get,
            r.url@ == list_url_text(self.spec_api(), login.deep_view()),
            r.headers.deep_view() == request_headers(self.spec_token()),
            r.query.deep_view() == seq![("per_page"@, "10"@)],
            r.body is None,
    {
        let mut query: Vec<(String, String)> = Vec::new();
        query.push((String::from_str("per_page"), String::from_str("10")));
        proof {
            assert(query.deep_view() =~~= seq![("per_page"@, "10"@)]);
        }
        HttpRequest {
            method: Method::Get,
            url: self.gist_list_url(login),
            headers: self.headers(),
            query,
            body: None,
        }
    }

    /// Interprets what a create call brought back: on a success status the
    /// web URL of the new gist, decoded from the body; on any other status
    /// the error carrying the status code; on a success status whose body
    /// does not decode, the decode error.
    pub fn create_result(status: u16, body: &str) -> (r: Result<String, GistError>)
        ensures
            is_success(status) ==> (match parsed_html_url(body@) {
                Option::Some(u) => r matches Ok(res) && res@ == u,
                Option::None => r matches Err(e) && e.message@
                    == "Could not decode the gist response."@,
            }),
            !is_success(status) ==> (r matches Err(e) && e.message@ == create_error_message(
                status,
            )),
    {
        if 200 <= status && status < 300 {
            match crate::response::decode_create(body) {
                Ok(u) => Ok(u),
                Err(e) => Err(e),
            }
        } else {
            let mut msg = String::from_str("HTTP error while posting gist: ");
            msg.append(crate::text::u16_decimal(status).as_str());
            Err(GistError::new(msg))
        }
    }

    /// Interprets what a list call brought back: on a success status the
    /// decoded gists, in the order the service sent them; on any other status
    /// the error carrying the status code; on a success status whose body
    /// does not decode, the decode error.
    pub fn list_result(status: u16, body: &str) -> (r: Result<Vec<Response>, GistError>)
        ensures
            is_success(status) ==> (match parsed_gist_list(body@) {
                Option::Some(items) => r matches Ok(v) && v@.map_values(|x: Response| x.fields())
                    == items,
                Option::None => r matches Err(e) && e.message@
                    == "Could not decode the gist list response."@,
            }),
            !is_success(status) ==> (r matches Err(e) && e.message@ == list_error_message(status)),
    {
        if 200 <= status && status < 300 {
            crate::response::decode_list(body)
        } else {
            let mut msg = String::from_str("HTTP error while listing gists: ");
            msg.append(crate::text::u16_decimal(status).as_str());
            Err(GistError::new(msg))
        }
    }
}

} // verus!
