use bekoedit::export::{export_document, export_title, title_of_path};
use bekoedit::session::DocumentSession;
use bekoedit::store::{AppState, StoreError};

#[test]
fn export_without_a_document_is_refused() {
    let state = AppState::new(100);
    assert_eq!(state.export_html("<p>x</p>"), Err(StoreError::NoDocument));
}

#[test]
fn export_wraps_the_body_under_the_file_stem() {
    let mut state = AppState::new(100);
    let id = state.allocate_document_id();
    state.open_document(DocumentSession::from_text(id, "/ws/todo.md".into(), "# T".into()));
    let page = state.export_html("<h1>T</h1>").expect("a document is open");
    assert!(page.starts_with("<!doctype html>\n"), "{page}");
    assert!(page.contains("<title>todo</title>"), "{page}");
    assert!(page.contains("\n    <body>\n    <h1>T</h1>\n    </body>\n"), "{page}");
    assert!(page.contains("body { max-width: 780px;"), "{page}");
    assert!(page.ends_with("</html>\n    "), "{page}");
}

#[test]
fn the_title_drops_only_the_final_extension() {
    assert_eq!(title_of_path("/a/b.tar.gz"), "b.tar");
    assert_eq!(title_of_path("/a/.hidden"), ".hidden");
    assert_eq!(title_of_path("notes"), "notes");
}

#[test]
fn a_path_without_a_file_name_gets_the_fallback_title() {
    assert_eq!(title_of_path(""), "bekoedit export");
    assert_eq!(title_of_path("/"), "bekoedit export");
    assert_eq!(export_title(None), "bekoedit export");
    assert_eq!(export_title(Some("x".into())), "x");
}

#[test]
fn the_page_is_head_title_style_body_tail() {
    let page = export_document("T", "B");
    let head_end = page.find("<title>T</title>").expect("title present");
    let body_at = page.find("    B\n").expect("body present");
    assert!(head_end < body_at);
    assert_eq!(page.matches("<title>").count(), 1);
}
