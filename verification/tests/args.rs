use ot_gitlab_tools::args::{parse_mr_reference, parse_url, ApiUrlError, GitLabMrReference, MrReferenceError, OutputFormat};

#[test]
fn mr_reference_is_split_at_first_bang() {
    assert_eq!(
        parse_mr_reference("opentalk/backend/services/roomserver!680"),
        Ok(("opentalk/backend/services/roomserver".to_string(), 680))
    );
    assert_eq!(parse_mr_reference("!5"), Ok((String::new(), 5)));
    assert_eq!(parse_mr_reference("group/ü!+12"), Ok(("group/ü".to_string(), 12)));
}

#[test]
fn mr_reference_errors() {
    assert_eq!(parse_mr_reference("opentalk/backend"), Err(MrReferenceError::MissingSeparator));
    assert_eq!(parse_mr_reference(""), Err(MrReferenceError::MissingSeparator));
    assert_eq!(parse_mr_reference("project!"), Err(MrReferenceError::InvalidId));
    assert_eq!(parse_mr_reference("a!b!1"), Err(MrReferenceError::InvalidId));
    assert_eq!(parse_mr_reference("a!-1"), Err(MrReferenceError::InvalidId));
    assert_eq!(parse_mr_reference("a!18446744073709551616"), Err(MrReferenceError::InvalidId));
    assert!(MrReferenceError::MissingSeparator.message().contains("missing `!`"));
}

#[test]
fn mr_reference_accessors_and_text() {
    let r = GitLabMrReference::parse("opentalk/backend/services/roomserver!680").unwrap();
    assert_eq!(r.project(), "opentalk/backend/services/roomserver");
    assert_eq!(r.merge_request_id(), 680);
    assert_eq!(r.to_text(), "opentalk/backend/services/roomserver!680");
    let r = GitLabMrReference::new("group/project".to_string(), 0);
    assert_eq!(r.to_text(), "group/project!0");
}

#[test]
fn mr_reference_text_round_trip() {
    for (p, n) in [("a/b", 1u64), ("", 0), ("x y", u64::MAX)] {
        let r = GitLabMrReference::new(p.to_string(), n);
        let back = GitLabMrReference::parse(&r.to_text()).unwrap();
        assert_eq!(back.project(), p);
        assert_eq!(back.merge_request_id(), n);
    }
    // A reference with a non-canonical number reads back to the canonical text.
    let r = GitLabMrReference::parse("p!+007").unwrap();
    assert_eq!(r.to_text(), "p!7");
}

#[test]
fn output_format_default_is_json() {
    assert_eq!(OutputFormat::default(), OutputFormat::Json);
}

#[test]
fn api_url_domain_only() {
    assert_eq!(parse_url("gitlab.example.com"), Ok("gitlab.example.com".to_string()));
    assert_eq!(parse_url("https://gitlab.example.com/api/v4"), Ok("gitlab.example.com".to_string()));
    assert_eq!(parse_url("https://gitlab.example.com"), Ok("gitlab.example.com".to_string()));
    assert_eq!(parse_url("https://gitlab.example.com/"), Ok("gitlab.example.com".to_string()));
}

#[test]
fn api_url_errors() {
    assert_eq!(parse_url("https://gitlab.example.com/gitlab"), Err(ApiUrlError::PathNotAllowed));
    assert_eq!(parse_url("https://gitlab.example.com/api/v3"), Err(ApiUrlError::PathNotAllowed));
    assert_eq!(parse_url("https://127.0.0.1/api/v4"), Err(ApiUrlError::NoDomain));
    assert_eq!(
        ApiUrlError::PathNotAllowed.message(),
        "Only the domain is allowed, the path is automatically set to `/api/v4`"
    );
}
