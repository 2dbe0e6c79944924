//! The immutable client configuration and the request builder.
//!
//! A client holds only the resolved identity strings, validated once at
//! construction as legal HTTP header values; concurrent callers may share
//! one instance freely since nothing mutates it. Each typed operation is
//! described by a [`HttpRequest`] value: the URL, the repeated query
//! parameters and the headers, built here and handed to whatever transport
//! the caller runs.

use vstd::prelude::*;
use vstd::string::StrSliceExecFns;
use vstd::string::StringExecFns;
use crate::error::Error;

verus! {

/// Required authentication keys.
#[derive(Clone, Debug, PartialEq, Eq)]
pub struct Authenication {
    /// Your twitch Client-ID.
    pub client_id: String,
    /// A OAuth token that is associated with the Client-ID.
    pub oauth_token: String,
}

/// A character is legal inside an HTTP header value: printable, or the
/// horizontal tab; the delete character and the other controls are not.
/// A character past ASCII is legal, since every byte of its encoding is.
pub open spec fn is_valid_header_char(c: char) -> bool {
    c == '\t' || (32 <= c as int && c as int != 127)
}

/// Every character of the string is legal inside an HTTP header value.
pub open spec fn valid_header_value(s: Seq<char>) -> bool {
    forall|i: int| 0 <= i < s.len() ==> is_valid_header_char(s[i])
}

/// Check a string for use as an HTTP header value.
pub fn check_header_value(s: &str) -> (r: bool)
    ensures
        r == valid_header_value(s@),
{
    let n: usize = s.unicode_len();
    let mut i: usize = 0;
    while i < n
        invariant
            0 <= i <= n == s@.len(),
            forall|j: int| 0 <= j < i ==> is_valid_header_char(s@[j]),
        decreases n - i,
    {
        let c = s.get_char(i);
        let cv: u32 = c as u32;
        if !(cv == 9 || (32 <= cv && cv != 127)) {
            assert(!is_valid_header_char(s@[i as int]));
            return false;
        }
        i = i + 1;
    }
    true
}

/// One GET request, fully described: the URL, the query parameters in
/// order, and the headers in order. The transport that executes it adds
/// nothing of its own to these.
#[derive(Clone, Debug, PartialEq, Eq)]
pub struct HttpRequest {
    /// The request URL, path included, query excluded.
    pub url: String,
    /// The query parameters, one `(key, value)` pair per entry, in order.
    pub query: Vec<(String, String)>,
    /// The headers, one `(name, value)` pair per entry, in order.
    pub headers: Vec<(String, String)>,
}

/// A clonable Twitch API client: the validated identity strings, held
/// immutably and shared by every request built from it.
#[derive(Clone, Debug, PartialEq, Eq)]
pub struct Client {
    /// The validated Client-ID header value.
    client_id: String,
    /// The validated OAuth token; sent as `Authorization: Bearer <token>`.
    oauth_token: String,
}

/// The query key, in spec form, that a request repeats for each element of
/// the caller's value list.
pub open spec fn repeated_query(q: Seq<(String, String)>, key: Seq<char>, values: Seq<String>) -> bool {
    &&& q.len() == values.len()
    &&& forall|i: int| 0 <= i < q.len() ==> (#[trigger] q[i]).0@ == key
    &&& forall|i: int| 0 <= i < q.len() ==> (#[trigger] q[i]).1@ == values[i]@
}

/// The two identity headers every Helix request carries: `Client-ID`, then
/// `Authorization: Bearer <token>`.
pub open spec fn helix_headers(h: Seq<(String, String)>, client_id: Seq<char>, oauth_token: Seq<char>) -> bool {
    &&& h.len() == 2
    &&& h[0].0@ == "Client-ID"@
    &&& h[0].1@ == client_id
    &&& h[1].0@ == "Authorization"@
    &&& h[1].1@ == "Bearer "@ + oauth_token
}

impl Client {
    /// The client id this client was constructed with.
    pub closed spec fn spec_client_id(self) -> Seq<char> {
        self.client_id@
    }

    /// The OAuth token this client was constructed with.
    pub closed spec fn spec_oauth_token(self) -> Seq<char> {
        self.oauth_token@
    }

    /// Create a new Twitch API client with the provided [`Authenication`].
    ///
    /// Fails at construction time, not at request time, when a credential
    /// string is not a legal HTTP header value: `InvalidClientId` when the
    /// client id is malformed, else `InvalidOAuthToken` when the token is.
    pub fn new(auth: &Authenication) -> (r: Result<Client, Error>)
        ensures
            r is Ok <==> valid_header_value(auth.client_id@) && valid_header_value(
                auth.oauth_token@,
            ),
            r is Ok ==> r->Ok_0.spec_client_id() == auth.client_id@ && r->Ok_0.spec_oauth_token()
                == auth.oauth_token@,
            !valid_header_value(auth.client_id@) ==> (r matches Err(Error::InvalidClientId {
                value,
            }) && value@ == auth.client_id@),
            valid_header_value(auth.client_id@) && !valid_header_value(auth.oauth_token@) ==> (
            r matches Err(Error::InvalidOAuthToken { value }) && value@ == auth.oauth_token@),
    {
        if !check_header_value(auth.client_id.as_str()) {
            return Err(Error::InvalidClientId { value: auth.client_id.clone() });
        }
        if !check_header_value(auth.oauth_token.as_str()) {
            return Err(Error::InvalidOAuthToken { value: auth.oauth_token.clone() });
        }
        Ok(Client { client_id: auth.client_id.clone(), oauth_token: auth.oauth_token.clone() })
    }

    /// The identity headers of one request: `Client-ID`, then
    /// `Authorization: Bearer <token>`.
    fn auth_headers(&self) -> (h: Vec<(String, String)>)
        ensures
            helix_headers(h@, self.spec_client_id(), self.spec_oauth_token()),
    {
        let mut bearer = String::new();
        proof {
            reveal_strlit("Bearer ");
        }
        bearer.append("Bearer ");
        bearer.append(self.oauth_token.as_str());
        let mut h: Vec<(String, String)> = Vec::new();
        h.push((String::from_str("Client-ID"), self.client_id.clone()));
        h.push((String::from_str("Authorization"), bearer));
        h
    }

    /// Build a Helix GET request: the fixed Helix base, the endpoint path,
    /// one repeated query key paired with each value in order, and the
    /// identity headers.
    fn helix_request(&self, endpoint: &str, key: &str, values: &Vec<String>) -> (r: HttpRequest)
        ensures
            r.url@ == "https://api.twitch.tv/helix"@ + "/"@ + endpoint@,
            repeated_query(r.query@, key@, values@),
            helix_headers(r.headers@, self.spec_client_id(), self.spec_oauth_token()),
    {
        let mut url = String::new();
        url.append("https://api.twitch.tv/helix");
        url.append("/");
        url.append(endpoint);
        let mut query: Vec<(String, String)> = Vec::new();
        let mut i: usize = 0;
        while i < values.len()
            invariant
                0 <= i <= values@.len(),
                query@.len() == i,
                forall|j: int| 0 <= j < i ==> (#[trigger] query@[j]).0@ == key@,
                forall|j: int| 0 <= j < i ==> (#[trigger] query@[j]).1@ == values@[j]@,
            decreases values@.len() - i,
        {
            query.push((String::from_str(key), values[i].clone()));
            i = i + 1;
        }
        HttpRequest { url, query, headers: self.auth_headers() }
    }

    /// Build the request for streams by user login: repeated `user_login`
    /// query parameters against `{base}/streams`.
    pub fn streams_request(&self, user_logins: &Vec<String>) -> (r: HttpRequest)
        ensures
            r.url@ == "https://api.twitch.tv/helix"@ + "/"@ + "streams"@,
            repeated_query(r.query@, "user_login"@, user_logins@),
            helix_headers(r.headers@, self.spec_client_id(), self.spec_oauth_token()),
    {
        self.helix_request("streams", "user_login", user_logins)
    }

    /// Build the request for streams by user id: repeated `user_id` query
    /// parameters against `{base}/streams`.
    pub fn streams_from_id_request(&self, user_ids: &Vec<String>) -> (r: HttpRequest)
        ensures
            r.url@ == "https://api.twitch.tv/helix"@ + "/"@ + "streams"@,
            repeated_query(r.query@, "user_id"@, user_ids@),
            helix_headers(r.headers@, self.spec_client_id(), self.spec_oauth_token()),
    {
        self.helix_request("streams", "user_id", user_ids)
    }

    /// Build the request for users by login: repeated `login` query
    /// parameters against `{base}/users`.
    pub fn users_request(&self, user_logins: &Vec<String>) -> (r: HttpRequest)
        ensures
            r.url@ == "https://api.twitch.tv/helix"@ + "/"@ + "users"@,
            repeated_query(r.query@, "login"@, user_logins@),
            helix_headers(r.headers@, self.spec_client_id(), self.spec_oauth_token()),
    {
        self.helix_request("users", "login", user_logins)
    }

    /// Build the request for users by id: repeated `id` query parameters
    /// against `{base}/users`.
    pub fn users_from_id_request(&self, user_ids: &Vec<String>) -> (r: HttpRequest)
        ensures
            r.url@ == "https://api.twitch.tv/helix"@ + "/"@ + "users"@,
            repeated_query(r.query@, "id"@, user_ids@),
            helix_headers(r.headers@, self.spec_client_id(), self.spec_oauth_token()),
    {
        self.helix_request("users", "id", user_ids)
    }

    /// Build the request for the chatter roster of a room: the fixed TMI
    /// base with the room name in the path, no query parameters and no
    /// headers beyond the transport's own defaults.
    pub fn chatters_request(&self, room: &str) -> (r: HttpRequest)
        ensures
            r.url@ == "https://tmi.twitch.tv/group/user/"@ + room@ + "/chatters"@,
            r.query@.len() == 0,
            r.headers@.len() == 0,
    {
        let mut url = String::new();
        url.append("https://tmi.twitch.tv/group/user/");
        url.append(room);
        url.append("/chatters");
        HttpRequest { url, query: Vec::new(), headers: Vec::new() }
    }
}

} // verus!
