use access_control::credential::{Auth, Secret};
use access_control::error::AuthError;
use access_control::request::split_basic;

fn basic(username: &str, password: &str) -> Auth {
    Auth {
        uid: None,
        access: None,
        secret: Some(Secret::BasicAuth(
            String::from(username),
            String::from(password),
        )),
    }
}

fn token(value: &str) -> Auth {
    Auth {
        uid: None,
        access: None,
        secret: Some(Secret::SessionToken(String::from(value))),
    }
}

fn header(value: &str) -> Vec<String> {
    vec![String::from(value)]
}

const REFUSED: Result<Auth, AuthError> = Err(AuthError::NotAuthenticated);

#[test]
fn no_cookie_and_no_header_is_anonymous() {
    assert_eq!(Auth::from_request(None, &vec![]), Ok(Auth::new()));
}

#[test]
fn cookie_is_captured_as_session_token() {
    assert_eq!(Auth::from_request(Some("abc123"), &vec![]), Ok(token("abc123")));
    assert_eq!(Auth::from_request(Some(""), &vec![]), Ok(token("")));
}

#[test]
fn cookie_wins_over_a_well_formed_header() {
    // "ingalls:yeaheh"
    let headers = header("Basic aW5nYWxsczp5ZWFoZWg=");
    assert_eq!(Auth::from_request(None, &headers), Ok(basic("ingalls", "yeaheh")));
    assert_eq!(Auth::from_request(Some("abc123"), &headers), Ok(token("abc123")));
}

#[test]
fn cookie_wins_over_a_malformed_header() {
    assert_eq!(
        Auth::from_request(Some("abc123"), &header("Basic !!!")),
        Ok(token("abc123"))
    );
    assert_eq!(
        Auth::from_request(
            Some("abc123"),
            &vec![String::from("Basic a"), String::from("Basic b")]
        ),
        Ok(token("abc123"))
    );
}

#[test]
fn basic_header_is_decoded() {
    // "user:pass"
    assert_eq!(
        Auth::from_request(None, &header("Basic dXNlcjpwYXNz")),
        Ok(basic("user", "pass"))
    );
}

#[test]
fn basic_header_with_empty_fields() {
    // ":"
    assert_eq!(Auth::from_request(None, &header("Basic Og==")), Ok(basic("", "")));
    // "user:"
    assert_eq!(
        Auth::from_request(None, &header("Basic dXNlcjo=")),
        Ok(basic("user", ""))
    );
    // ":pass"
    assert_eq!(
        Auth::from_request(None, &header("Basic OnBhc3M=")),
        Ok(basic("", "pass"))
    );
}

#[test]
fn basic_header_with_non_ascii_text() {
    // "jürgen:pässword" in UTF-8
    assert_eq!(
        Auth::from_request(None, &header("Basic asO8cmdlbjpww6Rzc3dvcmQ=")),
        Ok(basic("jürgen", "pässword"))
    );
}

#[test]
fn several_headers_are_anonymous() {
    let headers = vec![
        String::from("Basic dXNlcjpwYXNz"),
        String::from("Basic dXNlcjpwYXNz"),
    ];
    assert_eq!(Auth::from_request(None, &headers), Ok(Auth::new()));
}

#[test]
fn other_schemes_are_anonymous() {
    assert_eq!(
        Auth::from_request(None, &header("Bearer dXNlcjpwYXNz")),
        Ok(Auth::new())
    );
    assert_eq!(
        Auth::from_request(None, &header("basic dXNlcjpwYXNz")),
        Ok(Auth::new())
    );
    assert_eq!(
        Auth::from_request(None, &header("Basic")),
        Ok(Auth::new())
    );
    assert_eq!(
        Auth::from_request(None, &header("BasicdXNlcjpwYXNz")),
        Ok(Auth::new())
    );
    assert_eq!(Auth::from_request(None, &header("")), Ok(Auth::new()));
    assert_eq!(
        Auth::from_request(None, &header("Bäsic dXNlcjpwYXNz")),
        Ok(Auth::new())
    );
}

#[test]
fn invalid_base64_is_refused() {
    assert_eq!(Auth::from_request(None, &header("Basic !!!!")), REFUSED);
    assert_eq!(Auth::from_request(None, &header("Basic dXNlcjpwYXN")), REFUSED);
    assert_eq!(
        Auth::from_request(None, &header("Basic dXNlcjpwYXNz ")),
        REFUSED
    );
    assert_eq!(
        Auth::from_request(None, &header("Basic  dXNlcjpwYXNz")),
        REFUSED
    );
    assert_eq!(
        Auth::from_request(None, &header("Basic dXNlcjpwYXNzé")),
        REFUSED
    );
}

#[test]
fn payload_that_is_not_utf8_is_refused() {
    // the bytes ff fe 3a 61
    assert_eq!(Auth::from_request(None, &header("Basic //46YQ==")), REFUSED);
}

#[test]
fn wrong_field_count_is_refused() {
    // "userpass"
    assert_eq!(
        Auth::from_request(None, &header("Basic dXNlcnBhc3M=")),
        REFUSED
    );
    // "a:b:c"
    assert_eq!(Auth::from_request(None, &header("Basic YTpiOmM=")), REFUSED);
    // "::"
    assert_eq!(Auth::from_request(None, &header("Basic Ojo=")), REFUSED);
}

#[test]
fn basic_scheme_without_payload_is_refused() {
    assert_eq!(Auth::from_request(None, &header("Basic ")), REFUSED);
}

#[test]
fn payload_bytes_become_a_credential() {
    assert_eq!(
        Auth::from_basic_payload(b"user:pass".to_vec()),
        Ok(basic("user", "pass"))
    );
    assert_eq!(
        Auth::from_basic_payload("é:ü".as_bytes().to_vec()),
        Ok(basic("é", "ü"))
    );
    assert_eq!(Auth::from_basic_payload(vec![]), REFUSED);
    assert_eq!(Auth::from_basic_payload(b"user".to_vec()), REFUSED);
    assert_eq!(Auth::from_basic_payload(b"a:b:c".to_vec()), REFUSED);
    assert_eq!(Auth::from_basic_payload(vec![0xff, 0x3a, 0x61]), REFUSED);
    assert_eq!(Auth::from_basic_payload(vec![0x61, 0x3a, 0xc3]), REFUSED);
}

#[test]
fn payload_from_the_decoder() {
    let decoded = base64::decode("aW5nYWxsczp5ZWFoZWg=").unwrap();
    assert_eq!(
        Auth::from_basic_payload(decoded),
        Ok(basic("ingalls", "yeaheh"))
    );
}

#[test]
fn split_basic_wants_exactly_one_colon() {
    assert_eq!(
        split_basic("user:pass"),
        Some((String::from("user"), String::from("pass")))
    );
    assert_eq!(split_basic(":"), Some((String::new(), String::new())));
    assert_eq!(
        split_basic("a b:c d"),
        Some((String::from("a b"), String::from("c d")))
    );
    assert_eq!(
        split_basic("ü:é"),
        Some((String::from("ü"), String::from("é")))
    );
    assert_eq!(split_basic(""), None);
    assert_eq!(split_basic("userpass"), None);
    assert_eq!(split_basic("a:b:c"), None);
    assert_eq!(split_basic("::"), None);
}
