//! Request-level rules of the web layer: reading the token that a request
//! carries, authorising its user, and the envelope of error responses.

use crate::id::{is_ulid_text, ulid_canonical};
use crate::repository::{has_user_id, UserRepository};
use crate::text::{first_index, find_char, lemma_first_index_bounds, trim, trim_bounds};
use crate::usecase::{error_message, UseCaseError, UserUseCase};
use crate::view::UserView;
use crate::json::TokenClaims;
use vstd::prelude::*;

verus! {

/// The name part of a `name=value` pair: everything before the first `=`.
pub open spec fn pair_name(p: Seq<char>) -> Seq<char> {
    p.subrange(0, first_index(p, '='))
}

/// The value part of a `name=value` pair: everything after the first `=`, or nothing.
pub open spec fn pair_value(p: Seq<char>) -> Seq<char> {
    if first_index(p, '=') < p.len() {
        p.subrange(first_index(p, '=') + 1, p.len() as int)
    } else {
        Seq::empty()
    }
}

/// The value of the first cookie named `key` in a `;`-separated cookie list,
/// each pair trimmed of surrounding whitespace.
pub open spec fn cookie_value(s: Seq<char>, key: Seq<char>) -> Option<Seq<char>>
    decreases s.len(),
{
    let i = first_index(s, ';');
    let pair = trim(s.subrange(0, i));
    if 0 <= i <= s.len() && pair_name(pair) == key {
        Some(pair_value(pair))
    } else if 0 <= i < s.len() {
        cookie_value(s.subrange(i + 1, s.len() as int), key)
    } else {
        None
    }
}

/// The value of the cookie named `key` in the text of a Cookie header.
pub fn get_cookie_from_str(cookie_str: &str, key: &str) -> (r: Option<String>)
    ensures
        match r {
            Some(v) => cookie_value(cookie_str@, key@) == Some(v@),
            None => cookie_value(cookie_str@, key@) is None,
        },
{
    let n = cookie_str.unicode_len();
    let wanted = String::from_str(key);
    let mut start: usize = 0;
    assert(cookie_str@.subrange(0, n as int) =~= cookie_str@);
    loop
        invariant
            start <= n,
            n == cookie_str@.len(),
            wanted@ == key@,
            cookie_value(cookie_str@, key@) == cookie_value(cookie_str@.subrange(start as int, n as int), key@),
        decreases n - start,
    {
        let ghost rest = cookie_str@.subrange(start as int, n as int);
        let end = find_char(cookie_str, start, n, ';');
        let (lo, hi) = trim_bounds(cookie_str, start, end);
        let eq = find_char(cookie_str, lo, hi, '=');
        proof {
            assert(rest.subrange(0, end - start) =~= cookie_str@.subrange(start as int, end as int));
            let pair = cookie_str@.subrange(lo as int, hi as int);
            lemma_first_index_bounds(pair, '=');
            assert(pair_name(pair) =~= cookie_str@.subrange(lo as int, eq as int));
            if eq < hi {
                assert(pair_value(pair) =~= cookie_str@.subrange(eq + 1, hi as int));
            }
            if end < n {
                assert(rest.subrange(end - start + 1, rest.len() as int) =~= cookie_str@.subrange(
                    end + 1,
                    n as int,
                ));
            }
        }
        let name = String::from_str(cookie_str.substring_char(lo, eq));
        if name == wanted {
            if eq < hi {
                return Some(String::from_str(cookie_str.substring_char(eq + 1, hi)));
            } else {
                return Some(String::new());
            }
        }
        if end >= n {
            return None;
        }
        start = end + 1;
    }
}

/// The token of an Authorization header value of the form `Bearer <token>`.
pub open spec fn bearer_token(h: Seq<char>) -> Option<Seq<char>> {
    if h.len() >= 7 && h.subrange(0, 7) == "Bearer "@ {
        Some(h.subrange(7, h.len() as int))
    } else {
        None
    }
}

/// The bearer token of an Authorization header value.
pub fn get_auth_header(header: &str) -> (r: Option<String>)
    ensures
        match r {
            Some(t) => bearer_token(header@) == Some(t@),
            None => bearer_token(header@) is None,
        },
{
    let n = header.unicode_len();
    if n < 7 {
        return None;
    }
    let prefix = String::from_str(header.substring_char(0, 7));
    let expected = String::from_str("Bearer ");
    if prefix == expected {
        Some(String::from_str(header.substring_char(7, n)))
    } else {
        None
    }
}

/// The JSON envelope of every response: `{result, message, data}`.
pub struct ApiResponse<Data> {
    pub result: bool,
    pub message: String,
    pub data: Option<Data>,
}

/// Why a request was refused.
#[derive(Debug)]
pub enum AppError {
    /// The token is missing, cannot be decoded, or names no user.
    InvalidJwt(String),
    /// Field validation failed; the messages of the failing rules.
    Validation(Vec<String>),
    /// The body is not the JSON that the route takes.
    JsonRejection(String),
    /// The path does not have the form that the route takes.
    ApiPathRejection(String),
    /// The API version in the path is not known.
    UnknownApiVerRejection(String),
    /// Any other failure.
    Error(String),
}

/// An error response: its HTTP status and its envelope.
pub struct ErrorResponse {
    pub status: u16,
    pub body: ApiResponse<String>,
}

/// The parts joined, with `sep` between each two.
pub open spec fn join(parts: Seq<Seq<char>>, sep: Seq<char>) -> Seq<char>
    decreases parts.len(),
{
    if parts.len() == 0 {
        Seq::empty()
    } else if parts.len() == 1 {
        parts[0]
    } else {
        join(parts.drop_last(), sep) + sep + parts.last()
    }
}

/// The status and message of the response to an error.
pub open spec fn error_response(e: AppError) -> (u16, Seq<char>) {
    match e {
        AppError::InvalidJwt(t) => (400, "Missing or expired jwt("@ + t@ + ")."@),
        AppError::Validation(m) => (400, join(m@.map_values(|s: String| s@), " or "@)),
        AppError::JsonRejection(t) => (400, t@),
        AppError::ApiPathRejection(t) => (400, t@),
        AppError::UnknownApiVerRejection(v) => (400, "Unknown api version("@ + v@ + ")."@),
        AppError::Error(t) => (200, "error("@ + t@ + ")."@),
    }
}

fn wrapped(before: &str, inner: &String, after: &str) -> (r: String)
    ensures
        r@ == before@ + inner@ + after@,
{
    let mut s = String::from_str(before);
    s.append(inner.as_str());
    s.append(after);
    s
}

/// The messages joined with " or ".
pub fn join_messages(messages: &Vec<String>) -> (r: String)
    ensures
        r@ == join(messages@.map_values(|s: String| s@), " or "@),
{
    let ghost parts = messages@.map_values(|s: String| s@);
    let mut out = String::new();
    let mut i: usize = 0;
    while i < messages.len()
        invariant
            i <= messages.len(),
            parts == messages@.map_values(|s: String| s@),
            out@ == join(parts.subrange(0, i as int), " or "@),
        decreases messages.len() - i,
    {
        let ghost before = out@;
        if i > 0 {
            out.append(" or ");
        }
        out.append(messages[i].as_str());
        proof {
            let next = parts.subrange(0, i + 1);
            assert(next.drop_last() =~= parts.subrange(0, i as int));
            if i == 0 {
                assert(join(parts.subrange(0, 0), " or "@) =~= Seq::<char>::empty());
                assert(out@ =~= next[0]);
            } else {
                assert(out@ =~= join(next.drop_last(), " or "@) + " or "@ + next.last());
            }
        }
        i = i + 1;
    }
    assert(parts.subrange(0, messages.len() as int) =~= parts);
    out
}

impl AppError {
    /// The response to this error: `result` false, no data.
    pub fn to_response(self) -> (r: ErrorResponse)
        ensures
            (r.status, r.body.message@) == error_response(self),
            !r.body.result,
            r.body.data is None,
    {
        let (status, message): (u16, String) = match &self {
            AppError::InvalidJwt(t) => (400, wrapped("Missing or expired jwt(", t, ").")),
            AppError::Validation(m) => (400, join_messages(m)),
            AppError::JsonRejection(t) => (400, t.clone()),
            AppError::ApiPathRejection(t) => (400, t.clone()),
            AppError::UnknownApiVerRejection(v) => (400, wrapped("Unknown api version(", v, ").")),
            AppError::Error(t) => (200, wrapped("error(", t, ").")),
        };
        ErrorResponse { status, body: ApiResponse { result: false, message, data: None } }
    }

    /// The error that reports a failed use case.
    pub fn from_use_case(e: &UseCaseError) -> (r: AppError)
        ensures
            r matches AppError::Error(m) && m@ == error_message(*e),
    {
        AppError::Error(e.message())
    }
}

/// The API version in a request path: only `v1` is served.
pub fn check_api_version(v: &str) -> (r: Result<(), AppError>)
    ensures
        r is Ok <==> v@ == "v1"@,
        r matches Err(AppError::UnknownApiVerRejection(s)) ==> s@ == v@,
        r is Err ==> r matches Err(AppError::UnknownApiVerRejection(_)),
{
    let given = String::from_str(v);
    if given == String::from_str("v1") {
        Ok(())
    } else {
        Err(AppError::UnknownApiVerRejection(given))
    }
}

/// The outcome of a route that looks one record up: the record, or an error
/// that says it was not found, or why the use case failed.
pub fn found_or_error<T>(r: Result<Option<T>, UseCaseError>) -> (o: Result<T, AppError>)
    ensures
        match r {
            Ok(Some(v)) => o == Ok::<T, AppError>(v),
            Ok(None) => o matches Err(AppError::Error(m)) && m@ == "data not found"@,
            Err(e) => o matches Err(AppError::Error(m)) && m@ == error_message(e),
        },
{
    match r {
        Ok(Some(v)) => Ok(v),
        Ok(None) => Err(AppError::Error(String::from_str("data not found"))),
        Err(e) => Err(AppError::from_use_case(&e)),
    }
}

/// The token of a request: the `access_token` cookie, else the bearer token
/// of the Authorization header; an empty token counts as none.
pub open spec fn request_token(cookie_header: Option<Seq<char>>, authorization: Option<Seq<char>>) -> Option<Seq<char>> {
    let from_cookie = match cookie_header {
        Some(c) => cookie_value(c, "access_token"@),
        None => None,
    };
    let token = match from_cookie {
        Some(t) => Some(t),
        None => match authorization {
            Some(a) => bearer_token(a),
            None => None,
        },
    };
    match token {
        Some(t) => if t.len() > 0 { Some(t) } else { None },
        None => None,
    }
}

/// What `access_token` returns for the header values of a request.
pub open spec fn access_token_post(
    cookie_header: Option<Seq<char>>,
    authorization: Option<Seq<char>>,
    r: Result<String, AppError>,
) -> bool {
    match request_token(cookie_header, authorization) {
        Some(t) => r matches Ok(s) && s@ == t,
        None => r matches Err(AppError::InvalidJwt(m)) && m@ == "auth_header not found"@,
    }
}

/// The view of an optional header value.
pub open spec fn header_view(h: Option<&str>) -> Option<Seq<char>> {
    match h {
        Some(s) => Some(s@),
        None => None,
    }
}

/// The token that a request to an authenticated route carries, from the
/// values of its Cookie and Authorization headers.
pub fn access_token(cookie_header: Option<&str>, authorization: Option<&str>) -> (r: Result<String, AppError>)
    ensures
        access_token_post(header_view(cookie_header), header_view(authorization), r),
{
    let key = "access_token";
    proof {
        assert(key@ == "access_token"@);
    }
    let from_cookie = match cookie_header {
        Some(c) => get_cookie_from_str(c, key),
        None => None,
    };
    let token = match from_cookie {
        Some(t) => Some(t),
        None => match authorization {
            Some(a) => get_auth_header(a),
            None => None,
        },
    };
    match token {
        Some(t) => {
            if t.as_str().unicode_len() > 0 {
                return Ok(t);
            }
        },
        None => {},
    }
    Err(AppError::InvalidJwt(String::from_str("auth_header not found")))
}

/// What `authorize_current_user` returns for the decoded claims of a token.
pub open spec fn authorize_post<R: UserRepository>(
    users: &UserUseCase<R>,
    decoded: Result<TokenClaims, String>,
    r: Result<UserView, AppError>,
) -> bool {
    &&& (decoded matches Err(m) ==> r matches Err(AppError::InvalidJwt(t)) && t@ == m@)
    &&& (r matches Ok(v) ==> decoded matches Ok(c) && is_ulid_text(c.sub@) && users.users().contains(v@)
        && v@.id == ulid_canonical(c.sub@))
    &&& (r is Err ==> r matches Err(AppError::InvalidJwt(_)))
    &&& (decoded matches Ok(c) ==> (!is_ulid_text(c.sub@) ==> (r matches Err(AppError::InvalidJwt(t))
        && t@ == "invalid id"@)))
    &&& (decoded matches Ok(c) ==> (users.repository.infallible() && is_ulid_text(c.sub@) ==> (r is Ok
        <==> has_user_id(users.users(), ulid_canonical(c.sub@)))))
    &&& (decoded matches Ok(c) ==> (users.repository.infallible() && is_ulid_text(c.sub@) && !has_user_id(
        users.users(),
        ulid_canonical(c.sub@),
    ) ==> (r matches Err(AppError::InvalidJwt(t)) && t@ == "user not found"@)))
}

/// The outcome of authorisation once the user named by the token has been looked up.
pub fn authorize_outcome(lookup: Result<Option<UserView>, UseCaseError>) -> (r: Result<UserView, AppError>)
    ensures
        match lookup {
            Ok(Some(v)) => r == Ok::<UserView, AppError>(v),
            Ok(None) => r matches Err(AppError::InvalidJwt(t)) && t@ == "user not found"@,
            Err(e) => r matches Err(AppError::InvalidJwt(t)) && t@ == error_message(e),
        },
{
    match lookup {
        Ok(Some(user)) => Ok(user),
        Ok(None) => Err(AppError::InvalidJwt(String::from_str("user not found"))),
        Err(e) => Err(AppError::InvalidJwt(e.message())),
    }
}

/// The user that the decoded claims of a token name; any failure is an invalid token.
pub fn authorize_current_user<R: UserRepository>(
    users: &UserUseCase<R>,
    decoded: Result<TokenClaims, String>,
) -> (r: Result<UserView, AppError>)
    ensures
        authorize_post(users, decoded, r),
{
    match decoded {
        Ok(claims) => authorize_outcome(users.get_user(claims.sub)),
        Err(message) => Err(AppError::InvalidJwt(message)),
    }
}

/// The message of a successful todo search: whether it found anything.
pub fn find_todo_message(found: usize) -> (r: String)
    ensures
        found == 0 ==> r@ == "todo not found."@,
        found > 0 ==> r@ == "success"@,
{
    if found == 0 {
        String::from_str("todo not found.")
    } else {
        String::from_str("success")
    }
}

} // verus!
