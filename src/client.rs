//! The client side: the endpoint it talks to, the user-agent string it
//! sends, and how it reads the verdict that comes back.
use vstd::prelude::*;

use rand::seq::SliceRandom;
use tonic::transport::Uri;
use vstd::string::StringExecFns;

use crate::protocol::{Validity, ValidateUserAgentResponse, validity_name, validity_on_wire};
use crate::text::{ascii_lower, same_text_ascii_lowered};

verus! {

#[verifier::external_type_specification]
#[verifier::external_body]
pub struct ExUri(tonic::transport::Uri);

/// What the user asked to send: a canned string for one of the four known
/// browsers, or a literal user-agent string.
#[derive(Clone, Debug)]
pub enum UserAgent {
    Chrome,
    Firefox,
    Safari,
    Opera,
    Other(String),
}

/// How a user's text is read: the four browser names, in any ASCII case,
/// select a canned string; any other text is sent as it stands.
pub open spec fn user_agent_of_text(s: String) -> UserAgent {
    if ascii_lower(s@) == "chrome"@ {
        UserAgent::Chrome
    } else if ascii_lower(s@) == "firefox"@ {
        UserAgent::Firefox
    } else if ascii_lower(s@) == "safari"@ {
        UserAgent::Safari
    } else if ascii_lower(s@) == "opera"@ {
        UserAgent::Opera
    } else {
        UserAgent::Other(s)
    }
}

impl From<String> for UserAgent {
    fn from(s: String) -> (r: UserAgent) {
        if same_text_ascii_lowered(s.as_str(), "chrome") {
            UserAgent::Chrome
        } else if same_text_ascii_lowered(s.as_str(), "firefox") {
            UserAgent::Firefox
        } else if same_text_ascii_lowered(s.as_str(), "safari") {
            UserAgent::Safari
        } else if same_text_ascii_lowered(s.as_str(), "opera") {
            UserAgent::Opera
        } else {
            UserAgent::Other(s)
        }
    }
}

impl vstd::std_specs::convert::FromSpecImpl<String> for UserAgent {
    open spec fn obeys_from_spec() -> bool {
        true
    }

    open spec fn from_spec(s: String) -> UserAgent {
        user_agent_of_text(s)
    }
}

/// Why the client cannot report a verdict.
#[derive(Clone, Copy, Debug, PartialEq, Eq, Structural)]
pub enum ClientError {
    /// The endpoint address cannot be parsed.
    InvalidUrl,
    /// The endpoint address has no scheme such as `http://`.
    MissingScheme,
    /// The response carries an integer that is not one of the three verdicts.
    InvalidResponse,
}

/// Whether `text` parses as a URI.
pub uninterp spec fn uri_parses(text: Seq<char>) -> bool;

/// Whether the URI that `text` parses as has a scheme.
pub uninterp spec fn uri_has_scheme(text: Seq<char>) -> bool;

/// A parsed endpoint address, with the text it was parsed from.
pub struct Endpoint {
    uri: Uri,
    /// The text that `uri` was parsed from; set only by `parse_uri`,
    /// together with the URI.
    text: Ghost<Seq<char>>,
}

/// Relies on `FromStr` for `http::Uri` (re-exported by tonic): whether the
/// text parses depends on the text alone. The error is dropped; the endpoint
/// records the text it was parsed from.
#[verifier::external_body]
fn parse_uri(text: &str) -> (r: Option<Endpoint>)
    ensures
        r is Some <==> uri_parses(text@),
        r matches Some(e) ==> e.text() == text@,
{
    let uri = text.parse::<Uri>().ok()?;
    Some(Endpoint { uri, text: Ghost(text@) })
}

/// Relies on `http::Uri::scheme`: whether the URI that `endpoint.text()`
/// parses as has a scheme.
#[verifier::external_body]
fn endpoint_has_scheme(endpoint: &Endpoint) -> (r: bool)
    ensures
        r == uri_has_scheme(endpoint.text()),
{
    endpoint.uri.scheme().is_some()
}

impl Endpoint {
    /// The text the address was parsed from.
    pub closed spec fn text(&self) -> Seq<char> {
        self.text@
    }

    /// The parsed address.
    pub fn uri(&self) -> &Uri {
        &self.uri
    }
}

/// Reads the endpoint address; it must parse and carry a scheme. Nothing is
/// sent before this succeeds.
pub fn parse_endpoint(url: &str) -> (r: Result<Endpoint, ClientError>)
    ensures
        r == Err::<Endpoint, ClientError>(ClientError::InvalidUrl) <==> !uri_parses(url@),
        r == Err::<Endpoint, ClientError>(ClientError::MissingScheme) <==> uri_parses(url@)
            && !uri_has_scheme(url@),
        r is Ok <==> uri_parses(url@) && uri_has_scheme(url@),
        r matches Ok(e) ==> e.text() == url@,
{
    match parse_uri(url) {
        None => Err(ClientError::InvalidUrl),
        Some(endpoint) => {
            if endpoint_has_scheme(&endpoint) {
                Ok(endpoint)
            } else {
                Err(ClientError::MissingScheme)
            }
        },
    }
}

/// Whether `s` begins with `prefix`.
pub open spec fn starts_with(s: Seq<char>, prefix: Seq<char>) -> bool {
    prefix.len() <= s.len() && s.subrange(0, prefix.len() as int) == prefix
}

/// Whether `part` occurs somewhere in `s`.
pub open spec fn contains_text(s: Seq<char>, part: Seq<char>) -> bool {
    exists|i: int| 0 <= i && i + part.len() <= s.len() && #[trigger] s.subrange(i, i + part.len()) == part
}

/// What every canned string for a named browser looks like: the Mozilla
/// prefix and the browser's own product token, or for Opera its leading
/// product token and its Presto engine token. A literal choice has no
/// canned shape.
pub open spec fn canned_shape(hint: UserAgent, s: Seq<char>) -> bool {
    match hint {
        UserAgent::Chrome => starts_with(s, "Mozilla/5.0 ("@) && contains_text(s, "Chrome/"@),
        UserAgent::Firefox => starts_with(s, "Mozilla/5.0 ("@) && contains_text(s, "Firefox/"@),
        UserAgent::Safari => starts_with(s, "Mozilla/5.0 ("@) && contains_text(s, "Safari/"@),
        UserAgent::Opera => starts_with(s, "Opera/"@) && contains_text(s, " Presto/2."@),
        UserAgent::Other(_) => false,
    }
}

/// Whether `s` has the canned shape of one of the four browsers.
pub open spec fn some_canned_shape(s: Seq<char>) -> bool {
    canned_shape(UserAgent::Chrome, s) || canned_shape(UserAgent::Firefox, s)
        || canned_shape(UserAgent::Safari, s) || canned_shape(UserAgent::Opera, s)
}

/// Relies on `fakeit::user_agent::chrome`: a random Chrome user-agent string,
/// formatted from a template that opens with `Mozilla/5.0 (` and carries
/// `Chrome/`.
#[verifier::external_body]
fn canned_chrome() -> (r: String)
    ensures
        canned_shape(UserAgent::Chrome, r@),
{
    fakeit::user_agent::chrome()
}

/// Relies on `fakeit::user_agent::firefox`: a random Firefox user-agent
/// string; each of its platform templates opens with `(`, after
/// `Mozilla/5.0 `, and it ends with `Firefox/`.
#[verifier::external_body]
fn canned_firefox() -> (r: String)
    ensures
        canned_shape(UserAgent::Firefox, r@),
{
    fakeit::user_agent::firefox()
}

/// Relies on `fakeit::user_agent::safari`: a random Safari user-agent string;
/// each of its platform templates opens with `(`, after `Mozilla/5.0 `, and
/// carries `Safari/`.
#[verifier::external_body]
fn canned_safari() -> (r: String)
    ensures
        canned_shape(UserAgent::Safari, r@),
{
    fakeit::user_agent::safari()
}

/// Relies on `fakeit::user_agent::opera`: a random Opera user-agent string,
/// formatted from a template that opens with `Opera/` and carries
/// ` Presto/2.`.
#[verifier::external_body]
fn canned_opera() -> (r: String)
    ensures
        canned_shape(UserAgent::Opera, r@),
{
    fakeit::user_agent::opera()
}

/// Relies on rand's `SliceRandom::shuffle` with the thread-local generator:
/// the strings are put in a random order, none added or lost.
#[verifier::external_body]
fn shuffle_strings(v: &mut Vec<String>)
    ensures
        final(v)@.len() == old(v)@.len(),
        final(v)@.to_multiset() == old(v)@.to_multiset(),
{
    v.shuffle(&mut rand::thread_rng());
}

/// The user-agent string to send: the literal text when one was given, a
/// canned string for a named browser, and with no choice at all a canned
/// string for one of the four browsers picked at random.
pub fn user_agent_string(choice: Option<UserAgent>) -> (r: String)
    ensures
        choice matches Some(UserAgent::Other(s)) ==> r@ == s@,
        choice matches Some(h) ==> (h is Other || canned_shape(h, r@)),
        choice is None ==> some_canned_shape(r@),
{
    match choice {
        Some(UserAgent::Chrome) => canned_chrome(),
        Some(UserAgent::Firefox) => canned_firefox(),
        Some(UserAgent::Safari) => canned_safari(),
        Some(UserAgent::Opera) => canned_opera(),
        Some(UserAgent::Other(s)) => s,
        None => {
            let mut candidates: Vec<String> = Vec::new();
            candidates.push(canned_opera());
            candidates.push(canned_chrome());
            candidates.push(canned_firefox());
            candidates.push(canned_safari());
            let ghost before = candidates@;
            assert(forall|i: int| 0 <= i < 4 ==> some_canned_shape(#[trigger] before[i]@));
            shuffle_strings(&mut candidates);
            proof {
                broadcast use vstd::seq_lib::group_to_multiset_ensures;

                let first = candidates@[0];
                assert(candidates@.contains(first));
                assert(candidates@.to_multiset().count(first) > 0);
                assert(before.to_multiset().count(first) > 0);
                assert(before.contains(first));
                let k = choose|k: int| 0 <= k < before.len() && before[k] == first;
                assert(some_canned_shape(before[k]@));
            }
            candidates[0].clone()
        },
    }
}

/// The verdict that a response carries, or `InvalidResponse` when its
/// integer is none of the three.
pub fn verdict(response: &ValidateUserAgentResponse) -> (r: Result<Validity, ClientError>)
    ensures
        r == (match validity_on_wire(response.validity) {
            Some(v) => Ok::<Validity, ClientError>(v),
            None => Err(ClientError::InvalidResponse),
        }),
{
    match Validity::from_i32(response.validity) {
        Some(v) => Ok(v),
        None => Err(ClientError::InvalidResponse),
    }
}

/// The line the client prints: the user-agent string, ` => ` and the name
/// of the verdict.
pub fn report_line(user_agent: &str, validity: Validity) -> (r: String)
    ensures
        r@ == user_agent@ + " => "@ + validity_name(validity),
{
    let line = String::from_str(user_agent);
    let line = line.concat(" => ");
    line.concat(validity.as_str_name())
}

} // verus!
