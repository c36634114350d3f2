use ua_detect::client::{
    parse_endpoint, report_line, user_agent_string, verdict, ClientError, UserAgent,
};
use ua_detect::protocol::{ValidateUserAgentResponse, Validity};

#[test]
fn hints_are_read_in_any_case() {
    assert!(matches!(UserAgent::from("chrome".to_string()), UserAgent::Chrome));
    assert!(matches!(UserAgent::from("FireFox".to_string()), UserAgent::Firefox));
    assert!(matches!(UserAgent::from("SAFARI".to_string()), UserAgent::Safari));
    assert!(matches!(UserAgent::from("Opera".to_string()), UserAgent::Opera));
}

#[test]
fn other_text_is_kept_literally() {
    match UserAgent::from("Mozilla/5.0 Chrome".to_string()) {
        UserAgent::Other(s) => assert_eq!(s, "Mozilla/5.0 Chrome"),
        _ => panic!("expected a literal user agent"),
    }
    match UserAgent::from("chromium".to_string()) {
        UserAgent::Other(s) => assert_eq!(s, "chromium"),
        _ => panic!("expected a literal user agent"),
    }
    assert!(matches!(UserAgent::from(String::new()), UserAgent::Other(_)));
}

#[test]
fn literal_user_agent_is_sent_as_given() {
    let s = user_agent_string(Some(UserAgent::Other("my agent".to_string())));
    assert_eq!(s, "my agent");
}

#[test]
fn hints_produce_canned_strings() {
    for _ in 0..20 {
        let chrome = user_agent_string(Some(UserAgent::Chrome));
        assert!(chrome.starts_with("Mozilla/5.0 (") && chrome.contains("Chrome/"));
        let firefox = user_agent_string(Some(UserAgent::Firefox));
        assert!(firefox.starts_with("Mozilla/5.0 (") && firefox.contains("Firefox/"));
        let safari = user_agent_string(Some(UserAgent::Safari));
        assert!(safari.starts_with("Mozilla/5.0 (") && safari.contains("Safari/"));
        let opera = user_agent_string(Some(UserAgent::Opera));
        assert!(opera.starts_with("Opera/") && opera.contains(" Presto/2."));
    }
}

#[test]
fn no_choice_picks_one_canned_string() {
    for _ in 0..20 {
        let s = user_agent_string(None);
        assert!(s.starts_with("Mozilla/5.0 (") || s.starts_with("Opera/"));
    }
}

#[test]
fn endpoint_with_scheme_is_accepted() {
    let e = parse_endpoint("http://[::1]:9001").ok().unwrap();
    assert_eq!(e.uri().scheme_str(), Some("http"));
    assert_eq!(e.uri().port_u16(), Some(9001));
}

#[test]
fn endpoint_without_scheme_is_refused() {
    assert_eq!(parse_endpoint("localhost:9001").err(), Some(ClientError::MissingScheme));
}

#[test]
fn unparsable_endpoint_is_refused() {
    assert_eq!(parse_endpoint("http://exa mple.com").err(), Some(ClientError::InvalidUrl));
    assert_eq!(parse_endpoint("").err(), Some(ClientError::InvalidUrl));
}

#[test]
fn verdict_decodes_response() {
    assert_eq!(verdict(&ValidateUserAgentResponse { validity: 0 }), Ok(Validity::Unknown));
    assert_eq!(verdict(&ValidateUserAgentResponse { validity: 1 }), Ok(Validity::Valid));
    assert_eq!(verdict(&ValidateUserAgentResponse { validity: 2 }), Ok(Validity::Invalid));
    assert_eq!(
        verdict(&ValidateUserAgentResponse { validity: 7 }),
        Err(ClientError::InvalidResponse)
    );
}

#[test]
fn report_line_names_the_verdict() {
    assert_eq!(report_line("agent", Validity::Valid), "agent => Valid");
    assert_eq!(report_line("", Validity::Unknown), " => Unknown");
    assert_eq!(report_line("x", Validity::Invalid), "x => Invalid");
}
