use bekoedit::link_click::{decide_click, path_request, ClickDecision, DestinationKind, LinkAction, LinkRefusal};

#[test]
fn a_relative_path_with_no_document_or_workspace_has_no_base() {
    assert_eq!(path_request("a.md", false, false), Err(LinkRefusal::NoBase));
    assert_eq!(path_request("a.md", true, false), Err(LinkRefusal::NoBase));
    assert_eq!(path_request("a.md", false, true), Err(LinkRefusal::NoBase));
    assert_eq!(path_request("sub/a.md", true, true), Ok(vec!["sub".to_string(), "a.md".to_string()]));
}

#[test]
fn the_text_refusals_come_before_the_base_is_needed() {
    assert_eq!(path_request("?only-a-query", false, false), Err(LinkRefusal::NoTarget));
    assert_eq!(path_request("%FF.md", false, false), Err(LinkRefusal::InvalidPath));
    assert_eq!(path_request("a%00.md", false, false), Err(LinkRefusal::InvalidPath));
    assert_eq!(path_request("%2F%2Fhost%2Fshare", false, false), Err(LinkRefusal::NetworkPath));
    assert_eq!(path_request("/a.md", false, false), Err(LinkRefusal::AbsolutePath));
    assert_eq!(path_request("\\a.md", false, false), Err(LinkRefusal::AbsolutePath));
    assert_eq!(path_request("%2Fetc%2Fpasswd", false, false), Err(LinkRefusal::AbsolutePath));
}

#[test]
fn clicks_decided_without_the_disk_do_not_depend_on_the_base() {
    for (document, workspace) in [(false, false), (true, true)] {
        assert_eq!(
            decide_click(DestinationKind::Fragment, "#section-2", document, workspace),
            ClickDecision::Decided(LinkAction::InPage("section-2".into()))
        );
        assert_eq!(
            decide_click(DestinationKind::Fragment, "#", document, workspace),
            ClickDecision::Decided(LinkAction::InPage(String::new()))
        );
        assert_eq!(
            decide_click(DestinationKind::Other, "javascript:alert(1)", document, workspace),
            ClickDecision::Decided(LinkAction::Refuse(LinkRefusal::UnsupportedScheme))
        );
        assert_eq!(
            decide_click(DestinationKind::NetworkPath, "//host/share/a.md", document, workspace),
            ClickDecision::Decided(LinkAction::Refuse(LinkRefusal::NetworkPath))
        );
        match decide_click(DestinationKind::Web, "https://example.com", document, workspace) {
            ClickDecision::Decided(LinkAction::OpenExternal(url)) => assert_eq!(url.as_str(), "https://example.com"),
            other => panic!("{other:?}"),
        }
    }
    assert_eq!(
        decide_click(DestinationKind::Path, "a.md", false, false),
        ClickDecision::Decided(LinkAction::Refuse(LinkRefusal::NoBase))
    );
    assert_eq!(
        decide_click(DestinationKind::Path, "a.md", true, true),
        ClickDecision::Resolve(vec!["a.md".to_string()])
    );
}
