//! The credential resolver: from what the transport hands over, a session
//! cookie and the `Authorization` header values, to the credential of the
//! request.

use vstd::prelude::*;
use vstd::string::StrSliceExecFns;
use vstd::string::StringExecFns;
use vstd::utf8::{decode_utf8, valid_utf8};

use crate::codec::{base64_decoding, decode_base64, text_from_utf8};
use crate::credential::{Auth, AuthView, Secret, SecretView};
use crate::error::{not_authed, AuthError};

verus! {

/// Whether a header value carries the `Basic ` scheme.
pub open spec fn has_basic_scheme(header: Seq<char>) -> bool {
    header.len() >= 6 && header.subrange(0, 6) == "Basic "@
}

/// What follows the scheme in a header value.
pub open spec fn basic_payload(header: Seq<char>) -> Seq<char> {
    header.subrange(6, header.len() as int)
}

/// Whether `text` has a colon at `at` and nowhere else.
pub open spec fn only_colon(text: Seq<char>, at: int) -> bool {
    &&& 0 <= at < text.len()
    &&& forall|i: int| 0 <= i < text.len() ==> (text[i] == ':' <==> i == at)
}

/// The two fields of `username:password`: what stands before and what stands
/// after the colon, where `text` holds exactly one.
pub open spec fn basic_fields(text: Seq<char>) -> Option<(Seq<char>, Seq<char>)> {
    if exists|at: int| only_colon(text, at) {
        let at = choose|at: int| only_colon(text, at);
        Some((text.subrange(0, at), text.subrange(at + 1, text.len() as int)))
    } else {
        None
    }
}

/// The secret that a decoded `Basic` payload holds: the bytes must be UTF-8
/// and the text must split into exactly two fields.
pub open spec fn basic_secret(decoded: Seq<u8>) -> Option<SecretView> {
    if valid_utf8(decoded) {
        match basic_fields(decode_utf8(decoded)) {
            Some((username, password)) => Some(SecretView::BasicAuth(username, password)),
            None => None,
        }
    } else {
        None
    }
}

/// A credential that holds `secret` and no identity yet.
pub open spec fn unresolved(secret: SecretView) -> AuthView {
    AuthView { uid: None, access: None, secret: Some(secret) }
}

/// The credential of a request.
///
/// A session cookie wins: the headers are then not looked at. Otherwise there
/// must be exactly one `Authorization` value, and it must carry the `Basic `
/// scheme, or the request is anonymous. A value that does carry the scheme
/// must hold base64 of UTF-8 text of the form `username:password`; if it does
/// not, the request is refused rather than taken for anonymous.
pub open spec fn resolved_request(
    session: Option<Seq<char>>,
    authorization: Seq<Seq<char>>,
) -> Result<AuthView, AuthError> {
    match session {
        Some(token) => Ok(unresolved(SecretView::SessionToken(token))),
        None => if authorization.len() != 1 || !has_basic_scheme(authorization[0]) {
            Ok(AuthView::anonymous())
        } else {
            match base64_decoding(basic_payload(authorization[0])) {
                Some(decoded) => match basic_secret(decoded) {
                    Some(secret) => Ok(unresolved(secret)),
                    None => Err(AuthError::NotAuthenticated),
                },
                None => Err(AuthError::NotAuthenticated),
            }
        },
    }
}

/// Splits `username:password` at its only colon.
pub fn split_basic(text: &str) -> (fields: Option<(String, String)>)
    ensures
        fields.deep_view() == basic_fields(text@),
{
    let len = text.unicode_len();
    let mut first: usize = 0;
    let mut found: bool = false;
    let mut again: bool = false;
    let mut k: usize = 0;
    for c in it: text.chars()
        invariant
            k == it.index(),
            it.seq() == text@,
            len == text@.len(),
            !found ==> !again && forall|i: int| 0 <= i < k ==> text@[i] != ':',
            found ==> first < k && text@[first as int] == ':' && forall|i: int|
                0 <= i < first ==> text@[i] != ':',
            found && !again ==> forall|i: int| first < i < k ==> text@[i] != ':',
            again ==> exists|i: int| first < i < k && text@[i] == ':',
    {
        if c == ':' {
            if found {
                again = true;
            } else {
                first = k;
                found = true;
            }
        }
        k = k + 1;
    }
    if found && !again {
        let username = text.substring_char(0, first);
        let password = text.substring_char(first + 1, len);
        proof {
            assert(only_colon(text@, first as int));
            let at = choose|at: int| only_colon(text@, at);
            assert(at == first);
        }
        Some((String::from_str(username), String::from_str(password)))
    } else {
        proof {
            if exists|at: int| only_colon(text@, at) {
                let at = choose|at: int| only_colon(text@, at);
                if found {
                    let other = choose|i: int| first < i < k && text@[i] == ':';
                    assert(text@[first as int] == ':' && text@[other] == ':');
                }
                assert(text@[at] == ':');
                assert(false);
            }
        }
        None
    }
}

impl Auth {
    /// The credential that a decoded `Basic` payload stands for. The request
    /// is refused unless the payload is UTF-8 text of the form
    /// `username:password`.
    pub fn from_basic_payload(decoded: Vec<u8>) -> (r: Result<Auth, AuthError>)
        ensures
            match basic_secret(decoded@) {
                Some(secret) => r matches Ok(auth) && auth@ == unresolved(secret),
                None => r matches Err(e) && e == AuthError::NotAuthenticated,
            },
    {
        match text_from_utf8(decoded) {
            Ok(text) => match split_basic(text.as_str()) {
                Some((username, password)) => Ok(
                    Auth { uid: None, access: None, secret: Some(Secret::BasicAuth(username, password)) },
                ),
                None => Err(not_authed()),
            },
            Err(_) => Err(not_authed()),
        }
    }

    /// Builds the credential of a request from its `session` cookie and its
    /// `Authorization` header values. Nothing is authenticated here: the
    /// secret is only captured.
    pub fn from_request(session: Option<&str>, authorization: &Vec<String>) -> (r: Result<
        Auth,
        AuthError,
    >)
        ensures
            match resolved_request(session.deep_view(), authorization.deep_view()) {
                Ok(resolved) => r matches Ok(auth) && auth@ == resolved,
                Err(refusal) => r matches Err(e) && e == refusal,
            },
    {
        match session {
            Some(token) => {
                return Ok(
                    Auth {
                        uid: None,
                        access: None,
                        secret: Some(Secret::SessionToken(String::from_str(token))),
                    },
                );
            },
            None => (),
        };

        if authorization.len() != 1 {
            return Ok(Auth::new());
        }
        assert(authorization.deep_view()[0] == authorization[0]@);
        let header = authorization[0].as_str();
        let len = header.unicode_len();
        if len < 6 {
            return Ok(Auth::new());
        }
        let scheme = String::from_str(header.substring_char(0, 6));
        if scheme != String::from_str("Basic ") {
            return Ok(Auth::new());
        }
        match decode_base64(header.substring_char(6, len)) {
            Ok(decoded) => Auth::from_basic_payload(decoded),
            Err(_) => Err(not_authed()),
        }
    }
}

/// A session cookie wins over any `Authorization` header, well-formed or not.
pub proof fn lemma_cookie_wins(token: Seq<char>, authorization: Seq<Seq<char>>)
    ensures
        resolved_request(Some(token), authorization) == Ok::<AuthView, AuthError>(
            unresolved(SecretView::SessionToken(token)),
        ),
{
}

/// Without a cookie, a request is anonymous when it has no `Authorization`
/// value, more than one, or one of another scheme.
pub proof fn lemma_other_schemes_are_anonymous(authorization: Seq<Seq<char>>)
    requires
        authorization.len() != 1 || !has_basic_scheme(authorization[0]),
    ensures
        resolved_request(None, authorization) == Ok::<AuthView, AuthError>(AuthView::anonymous()),
{
}

/// Without a cookie, a single `Basic` value is never taken for anonymous: it
/// yields the username and password it holds, or the request is refused. It
/// is refused exactly when the payload is not base64, the bytes are not
/// UTF-8, or the text does not have exactly one colon.
pub proof fn lemma_malformed_basic_is_refused(header: Seq<char>)
    requires
        has_basic_scheme(header),
    ensures
        resolved_request(None, seq![header]) != Ok::<AuthView, AuthError>(AuthView::anonymous()),
        resolved_request(None, seq![header]) is Err <==> ({
            ||| base64_decoding(basic_payload(header)) is None
            ||| !valid_utf8(base64_decoding(basic_payload(header))->0)
            ||| !exists|at: int|
                only_colon(decode_utf8(base64_decoding(basic_payload(header))->0), at)
        }),
{
}

} // verus!
