//! The client handle, and the requests that it prepares.

use crate::encoding::form_pairs;
use crate::error::{Error, ErrorView};
use crate::headers::{
    header_entries, header_name_ok, header_text_ok, header_value, insert_header, new_headers,
};
use crate::query::{field_texts, present, query_path, with_query, QueryField};
use crate::response::Reply;
use crate::text::{debug_quoted, labelled_cause, quoted, shown};
use vstd::string::StringExecFns;
use crate::urls::{join_url, parse_url, url_joined, url_parsed};
use reqwest::header::{HeaderMap, InvalidHeaderValue};
use vstd::prelude::*;
use vstd::utf8::encode_utf8;
use vstd::utf8::is_ascii_chars_encode_utf8;

verus! {

/// The HTTP verbs that the service is spoken to with.
#[derive(Clone, Copy, Debug, PartialEq, Eq, Structural)]
pub enum Method {
    Get,
    Post,
    Put,
    Delete,
}

/// One request, ready to be sent: where it goes, what it carries, and how its response
/// is to be read.
pub struct Request<B> {
    /// The verb.
    pub method: Method,
    /// The absolute URL: the path resolved against the client's base URL.
    pub url: String,
    /// The headers: the credentials and the content type.
    pub headers: HeaderMap,
    /// What is sent as the JSON body, if anything is.
    pub body: Option<B>,
    /// What the response holds on success.
    pub reply: Reply,
}

/// A handle on the service: the base URL, the API key, and the token of the user that is
/// signed in, if one is. The base URL is kept as the text of a parsed absolute URL.
pub struct RideWithGpsClient {
    base_url: String,
    api_key: String,
    auth_token: Option<String>,
}

/// A client as contracts see it.
pub struct ClientView {
    pub base_url: Seq<char>,
    pub api_key: Seq<char>,
    pub auth_token: Option<Seq<char>>,
}

/// Whether `message` is `label` and behind it what the `http` crate's error for a bad
/// header value shows of itself.
pub open spec fn refused_as(label: Seq<char>, message: Seq<char>) -> bool {
    exists|cause: InvalidHeaderValue, shows: Seq<char>| #[trigger]
        shown(cause, shows) && message == label + shows
}

/// The text of an optional string.
pub open spec fn optional_text(text: Option<&str>) -> Option<Seq<char>> {
    match text {
        Some(t) => Some(t@),
        None => None,
    }
}

impl ClientView {
    /// Whether both credentials can stand in a header: whether each of their
    /// characters is a tab, or is the space or beyond it and not DEL.
    pub open spec fn credentials_ok(self) -> bool {
        &&& header_text_ok(self.api_key)
        &&& self.auth_token matches Some(token) ==> header_text_ok(token)
    }

    /// The headers of every request: the API key, the token where one is set, and the
    /// JSON content type.
    pub open spec fn headers(self) -> Map<Seq<char>, Seq<u8>> {
        let key = Map::<Seq<char>, Seq<u8>>::empty().insert(
            "x-rwgps-api-key"@,
            encode_utf8(self.api_key),
        );
        let signed = match self.auth_token {
            Some(token) => key.insert("x-rwgps-auth-token"@, encode_utf8(token)),
            None => key,
        };
        signed.insert("content-type"@, encode_utf8("application/json"@))
    }

    /// What is shown of a client for inspection: the base URL as a quoted string, and
    /// in place of each credential three asterisks.
    pub open spec fn masked(self) -> Seq<char> {
        "RideWithGpsClient { base_url: "@ + debug_quoted(self.base_url)
            + ", api_key: \"***\", auth_token: "@ + (if self.auth_token is Some {
            "Some(\"***\")"@
        } else {
            "None"@
        }) + " }"@
    }

    /// Whether `e` is the error for a credential that cannot stand in a header. The API
    /// key is looked at first; the message names the credential.
    pub open spec fn header_refusal(self, e: ErrorView) -> bool {
        &&& e matches ErrorView::AuthError(message)
        &&& if !header_text_ok(self.api_key) {
            refused_as("Invalid API key format: "@, message)
        } else {
            &&& self.auth_token matches Some(token)
            &&& !header_text_ok(token)
            &&& refused_as("Invalid auth token format: "@, message)
        }
    }

    /// Whether a request for `path` can be prepared.
    pub open spec fn accepts(self, path: Seq<char>) -> bool {
        url_joined(self.base_url, path) is Some && self.credentials_ok()
    }

    /// Whether `e` is the error for a request to `path` that cannot be prepared: a path
    /// that does not resolve is reported before a credential is.
    pub open spec fn refusal(self, path: Seq<char>, e: ErrorView) -> bool {
        if url_joined(self.base_url, path) is None {
            e is Url
        } else {
            self.header_refusal(e)
        }
    }

    /// What preparing the request for a list gives. The path is `path` with the
    /// parameters that are present; the rest is as for any GET of a bare document.
    pub open spec fn listed(
        self,
        path: Seq<char>,
        fields: Option<Seq<(Seq<char>, Option<Seq<char>>)>>,
        r: Result<Request<()>, Error>,
    ) -> bool {
        match fields {
            Some(fields) => self.prepared(
                Method::Get,
                query_path(path, fields),
                None,
                Reply::Bare,
                r,
            ),
            None => self.prepared(Method::Get, path, None, Reply::Bare, r),
        }
    }

    /// What preparing a request gives: the request with each of its parts, exactly when
    /// the path resolves and the credentials can stand in a header; else the refusal.
    pub open spec fn prepared<B>(
        self,
        method: Method,
        path: Seq<char>,
        body: Option<B>,
        reply: Reply,
        r: Result<Request<B>, Error>,
    ) -> bool {
        match r {
            Ok(request) => {
                &&& self.accepts(path)
                &&& request.method == method
                &&& url_joined(self.base_url, path) == Some(request.url@)
                &&& header_entries(request.headers) == self.headers()
                &&& request.body == body
                &&& request.reply == reply
            },
            Err(e) => self.refusal(path, e@),
        }
    }
}

/// The parameters of an optional record.
pub open spec fn optional_fields(fields: Option<&Vec<QueryField>>) -> Option<
    Seq<(Seq<char>, Option<Seq<char>>)>,
> {
    match fields {
        Some(fields) => Some(field_texts(fields@)),
        None => None,
    }
}

/// A list asked for with a record in which no parameter is present is the list asked
/// for without a record: the path is used as it is.
pub proof fn lemma_listed_without_present_field(
    client: ClientView,
    path: Seq<char>,
    fields: Seq<(Seq<char>, Option<Seq<char>>)>,
    r: Result<Request<()>, Error>,
)
    requires
        forall|i: int| 0 <= i < fields.len() ==> (#[trigger] fields[i]).1 is None,
        client.listed(path, Some(fields), r),
    ensures
        client.listed(path, None, r),
{
    crate::query::lemma_absent_fields_keep_path(path, fields);
    crate::query::lemma_present_empty(fields);
}

/// A list asked for with a record in which a parameter is present is the GET of the
/// path, `?`, and the form of exactly the present parameters.
pub proof fn lemma_listed_with_present_field(
    client: ClientView,
    path: Seq<char>,
    fields: Seq<(Seq<char>, Option<Seq<char>>)>,
    i: int,
    r: Result<Request<()>, Error>,
)
    requires
        0 <= i < fields.len(),
        fields[i].1 is Some,
        client.listed(path, Some(fields), r),
    ensures
        client.prepared(
            Method::Get,
            path + seq!['?'] + form_pairs(present(fields)),
            None,
            Reply::Bare,
            r,
        ),
        present(fields).contains((fields[i].0, fields[i].1->0)),
{
    crate::query::lemma_present_fields_make_query(path, fields, i);
}

/// What is shown of a client holds neither credential: two clients with the same base
/// URL, both with a token or both without, show the same text whatever their API keys
/// and tokens are.
pub proof fn lemma_masked_hides_credentials(a: ClientView, b: ClientView)
    requires
        a.base_url == b.base_url,
        a.auth_token is Some <==> b.auth_token is Some,
    ensures
        a.masked() == b.masked(),
{
}

/// Text made of printable ASCII characters alone.
pub open spec fn printable(text: Seq<char>) -> bool {
    forall|i: int| 0 <= i < text.len() ==> ' ' <= #[trigger] text[i] <= '~'
}

/// Printable ASCII text can stand as a header value.
pub proof fn lemma_printable_header_text(text: Seq<char>)
    requires
        printable(text),
    ensures
        header_text_ok(text),
{
    is_ascii_chars_encode_utf8(text);
    let bytes = encode_utf8(text);
    assert forall|i: int| 0 <= i < bytes.len() implies crate::headers::header_byte_ok(
        #[trigger] bytes[i],
    ) by {
        let c = text[i];
        assert(' ' <= c <= '~');
        assert(bytes[i] == c as u8);
    }
}

proof fn lemma_fixed_headers()
    ensures
        header_name_ok("x-rwgps-api-key"@),
        header_name_ok("x-rwgps-auth-token"@),
        header_name_ok("content-type"@),
        header_text_ok("application/json"@),
{
    reveal_strlit("x-rwgps-api-key");
    reveal_strlit("x-rwgps-auth-token");
    reveal_strlit("content-type");
    reveal_strlit("application/json");
    let json = "application/json"@;
    assert(printable(json));
    lemma_printable_header_text(json);
}

impl View for RideWithGpsClient {
    type V = ClientView;

    closed spec fn view(&self) -> ClientView {
        ClientView {
            base_url: self.base_url@,
            api_key: self.api_key@,
            auth_token: match self.auth_token {
                Some(token) => Some(token@),
                None => None,
            },
        }
    }
}

impl RideWithGpsClient {
    /// Makes a client. The base URL must parse as an absolute URL; `try_new` is for a
    /// base URL that may not.
    pub fn new(base_url: &str, api_key: &str, auth_token: Option<&str>) -> (client: Self)
        requires
            url_parsed(base_url@) is Some,
        ensures
            url_parsed(base_url@) == Some(client@.base_url),
            client@.api_key == api_key@,
            client@.auth_token == optional_text(auth_token),
    {
        let base = match parse_url(base_url) {
            Ok(text) => text,
            Err(_) => vstd::pervasive::unreached(),
        };
        let token = match auth_token {
            Some(t) => Some(t.to_owned()),
            None => None,
        };
        RideWithGpsClient { base_url: base, api_key: api_key.to_owned(), auth_token: token }
    }

    /// Makes a client, or reports the base URL that does not parse.
    pub fn try_new(base_url: &str, api_key: &str, auth_token: Option<&str>) -> (r: Result<
        Self,
        Error,
    >)
        ensures
            match r {
                Ok(client) => {
                    &&& url_parsed(base_url@) == Some(client@.base_url)
                    &&& client@.api_key == api_key@
                    &&& client@.auth_token == optional_text(auth_token)
                },
                Err(e) => url_parsed(base_url@) is None && e@ is Url,
            },
    {
        match parse_url(base_url) {
            Ok(_) => Ok(Self::new(base_url, api_key, auth_token)),
            Err(e) => Err(Error::Url(e)),
        }
    }

    /// The base URL, as the text of the parsed URL.
    pub fn base_url(&self) -> (text: &str)
        ensures
            text@ == self@.base_url,
    {
        self.base_url.as_str()
    }

    /// The API key.
    pub fn api_key(&self) -> (text: &str)
        ensures
            text@ == self@.api_key,
    {
        self.api_key.as_str()
    }

    /// Sets or replaces the token; the rest of the client stays as it is.
    pub fn set_auth_token(&mut self, token: &str)
        ensures
            final(self)@ == (ClientView { auth_token: Some(token@), ..old(self)@ }),
    {
        self.auth_token = Some(token.to_owned());
    }

    /// The token, if one is set.
    pub fn auth_token(&self) -> (token: Option<&str>)
        ensures
            optional_text(token) == self@.auth_token,
    {
        match &self.auth_token {
            Some(t) => Some(t.as_str()),
            None => None,
        }
    }

    /// The text of this client for inspection. It shows the base URL and whether a
    /// token is set, and nothing of the credentials themselves.
    pub fn debug_text(&self) -> (s: String)
        ensures
            s@ == self@.masked(),
    {
        let mut s = "RideWithGpsClient { base_url: ".to_owned();
        s.append(quoted(self.base_url.as_str()).as_str());
        s.append(", api_key: \"***\", auth_token: ");
        match &self.auth_token {
            Some(_) => s.append("Some(\"***\")"),
            None => s.append("None"),
        }
        s.append(" }");
        s
    }

    /// Builds the headers of a request. This is where the credentials are looked at:
    /// one that cannot stand in a header is an authentication error.
    pub fn build_headers(&self) -> (r: Result<HeaderMap, Error>)
        ensures
            match r {
                Ok(headers) => self@.credentials_ok() && header_entries(headers)
                    == self@.headers(),
                Err(e) => self@.header_refusal(e@),
            },
    {
        proof {
            lemma_fixed_headers();
        }
        let mut headers = new_headers();
        match header_value(self.api_key.as_str()) {
            Ok(value) => {
                insert_header(&mut headers, "x-rwgps-api-key", value);
            },
            Err(e) => {
                return Err(Error::AuthError(labelled_cause("Invalid API key format: ", &e)));
            },
        }
        if let Some(token) = &self.auth_token {
            match header_value(token.as_str()) {
                Ok(value) => {
                    insert_header(&mut headers, "x-rwgps-auth-token", value);
                },
                Err(e) => {
                    return Err(
                        Error::AuthError(labelled_cause("Invalid auth token format: ", &e)),
                    );
                },
            }
        }
        match header_value("application/json") {
            Ok(value) => {
                insert_header(&mut headers, "content-type", value);
            },
            Err(_) => vstd::pervasive::unreached(),
        }
        Ok(headers)
    }

    /// Prepares a request: resolves the path against the base URL, then builds the
    /// headers.
    pub fn prepare<B>(&self, method: Method, path: &str, body: Option<B>, reply: Reply) -> (r:
        Result<Request<B>, Error>)
        ensures
            self@.prepared(method, path@, body, reply, r),
    {
        let url = match join_url(self.base_url.as_str(), path) {
            Ok(url) => url,
            Err(e) => {
                return Err(Error::Url(e));
            },
        };
        let headers = match self.build_headers() {
            Ok(headers) => headers,
            Err(e) => {
                return Err(e);
            },
        };
        Ok(Request { method, url, headers, body, reply })
    }

    /// Prepares a GET of `path`. The caller says what the response holds.
    pub fn get(&self, path: &str, reply: Reply) -> (r: Result<Request<()>, Error>)
        ensures
            self@.prepared(Method::Get, path@, None, reply, r),
    {
        self.prepare(Method::Get, path, None, reply)
    }

    /// Prepares a POST of `body` to `path`. The caller says what the response holds.
    pub fn post<B>(&self, path: &str, body: B, reply: Reply) -> (r: Result<Request<B>, Error>)
        ensures
            self@.prepared(Method::Post, path@, Some(body), reply, r),
    {
        self.prepare(Method::Post, path, Some(body), reply)
    }

    /// Prepares a PUT of `body` to `path`. The caller says what the response holds.
    pub fn put<B>(&self, path: &str, body: B, reply: Reply) -> (r: Result<Request<B>, Error>)
        ensures
            self@.prepared(Method::Put, path@, Some(body), reply, r),
    {
        self.prepare(Method::Put, path, Some(body), reply)
    }

    /// Prepares a DELETE of `path`. Its response has no content.
    pub fn delete(&self, path: &str) -> (r: Result<Request<()>, Error>)
        ensures
            self@.prepared(Method::Delete, path@, None, Reply::Empty, r),
    {
        self.prepare(Method::Delete, path, None, Reply::Empty)
    }

    /// Prepares the GET of a list: the path, and after `?` the parameters that are
    /// present. Without a record, and with a record in which nothing is present, the
    /// path is used as it is.
    pub fn list(&self, path: &str, fields: Option<&Vec<QueryField>>) -> (r: Result<
        Request<()>,
        Error,
    >)
        ensures
            self@.listed(path@, optional_fields(fields), r),
    {
        match fields {
            Some(fields) => match with_query(path, fields) {
                Ok(full) => self.get(full.as_str(), Reply::Bare),
                Err(e) => Err(e),
            },
            None => self.get(path, Reply::Bare),
        }
    }
}

} // verus!
