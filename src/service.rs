//! The validation service: one family classifier, built once from its rule
//! data, answering each request with the verdict on the reported family.
use vstd::prelude::*;

use uaparser::Parser;
use uaparser::UserAgentParser;

use crate::engine::{classify, validity_of_family};
use crate::protocol::{ValidateUserAgentRequest, ValidateUserAgentResponse, wire_value};

verus! {

#[verifier::external_type_specification]
#[verifier::external_body]
pub struct ExUserAgentParser(uaparser::UserAgentParser);

#[verifier::external_type_specification]
#[verifier::external_body]
pub struct ExUaParserError(uaparser::Error);

/// Whether the classifier accepts the rule data `rules` (a YAML list of
/// matchers whose patterns all compile).
pub uninterp spec fn rules_accepted(rules: Seq<u8>) -> bool;

/// The browser family that a classifier built from `rules` reports for the
/// user-agent string `user_agent`.
pub uninterp spec fn family_of(rules: Seq<u8>, user_agent: Seq<char>) -> Seq<char>;

/// The reasons the server cannot start.
#[derive(Debug)]
pub enum ServerError {
    /// The classifier could not be built from its rule data.
    UserAgentParser(uaparser::Error),
}

impl From<uaparser::Error> for ServerError {
    fn from(value: uaparser::Error) -> (r: ServerError) {
        ServerError::UserAgentParser(value)
    }
}

impl vstd::std_specs::convert::FromSpecImpl<uaparser::Error> for ServerError {
    open spec fn obeys_from_spec() -> bool {
        true
    }

    open spec fn from_spec(value: uaparser::Error) -> ServerError {
        ServerError::UserAgentParser(value)
    }
}

/// The wire verdict that a classifier built from `rules` gives for
/// `user_agent`.
pub open spec fn answer(rules: Seq<u8>, user_agent: Seq<char>) -> i32 {
    wire_value(validity_of_family(family_of(rules, user_agent)))
}

/// The service, holding the one classifier that serves every request.
pub struct ValidatorService {
    ua_parser: UserAgentParser,
    /// The rule data that `ua_parser` was built from; set only by
    /// `parser_from_bytes`, together with the parser.
    rules: Ghost<Seq<u8>>,
}

/// Relies on `uaparser::UserAgentParser::from_bytes`: it reads the YAML rule
/// data and compiles its patterns; whether that succeeds depends on the bytes
/// alone. The service it returns records those bytes as its rules.
#[verifier::external_body]
fn parser_from_bytes(rules: &[u8]) -> (r: Result<ValidatorService, uaparser::Error>)
    ensures
        r is Ok <==> rules_accepted(rules@),
        r matches Ok(s) ==> s.rules() == rules@,
{
    let ua_parser = UserAgentParser::from_bytes(rules)?;
    Ok(ValidatorService { ua_parser, rules: Ghost(rules@) })
}

/// Relies on `uaparser::Parser::parse` for `UserAgentParser`: the family
/// field of the user-agent part of what it reports. The parser was built from
/// `service.rules()`, and its matching reads nothing but those rules and the
/// string.
#[verifier::external_body]
fn reported_family(service: &ValidatorService, user_agent: &str) -> (r: String)
    ensures
        r@ == family_of(service.rules(), user_agent@),
{
    service.ua_parser.parse(user_agent).user_agent.family.into_owned()
}

impl ValidatorService {
    /// The rule data that the classifier was built from.
    pub closed spec fn rules(&self) -> Seq<u8> {
        self.rules@
    }

    /// Builds the service's classifier from `rule_data`; fails when the
    /// classifier cannot be built from it.
    pub fn new(rule_data: &[u8]) -> (r: Result<ValidatorService, ServerError>)
        ensures
            r is Ok <==> rules_accepted(rule_data@),
            r matches Ok(s) ==> s.rules() == rule_data@,
    {
        match parser_from_bytes(rule_data) {
            Ok(service) => Ok(service),
            Err(e) => Err(ServerError::from(e)),
        }
    }

    /// Answers one request with the verdict on the family that the
    /// classifier reports for its user-agent string. The service is not
    /// changed, so the answer depends on this request alone.
    pub fn user_agent(&self, request: ValidateUserAgentRequest) -> (r: ValidateUserAgentResponse)
        ensures
            r.validity == answer(self.rules(), request.user_agent@),
    {
        let family = reported_family(self, request.user_agent.as_str());
        response_for_family(family.as_str())
    }
}

/// The response that carries the verdict on the family name `family`.
pub fn response_for_family(family: &str) -> (r: ValidateUserAgentResponse)
    ensures
        r.validity == wire_value(validity_of_family(family@)),
{
    ValidateUserAgentResponse { validity: classify(family).to_i32() }
}

/// Requests with equal user-agent strings, sent to services built from the
/// same rules, get equal answers, whatever else is served around them.
pub proof fn lemma_answer_follows_request(a: &ValidatorService, b: &ValidatorService, ua: Seq<char>)
    requires
        a.rules() == b.rules(),
    ensures
        answer(a.rules(), ua) == answer(b.rules(), ua),
{
}

} // verus!
