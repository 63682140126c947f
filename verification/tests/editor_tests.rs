use prtgn::init::text_editor::{buffer_lines, buffer_text, classify_key, status_cursor, status_path, uses_hard_tabs, EditorAction, EditorKey, EditorState};

#[test]
fn keys() {
    assert_eq!(classify_key(Some('q'), true), EditorKey::Quit);
    assert_eq!(classify_key(Some('t'), true), EditorKey::Switch);
    assert_eq!(classify_key(Some('s'), true), EditorKey::Save);
    assert_eq!(classify_key(Some('s'), false), EditorKey::Other);
    assert_eq!(classify_key(None, true), EditorKey::Other);
}

#[test]
fn switching_goes_round() {
    let mut st = EditorState::new(3);
    assert_eq!(st.status_slot(), "[1/3]");
    assert_eq!(st.on_key(EditorKey::Switch), EditorAction::Redraw);
    assert_eq!(st.message().unwrap(), "Switched to buffer #2");
    st.on_key(EditorKey::Switch);
    assert_eq!(st.current(), 2);
    assert_eq!(st.status_slot(), "[3/3]");
    st.on_key(EditorKey::Switch);
    assert_eq!(st.current(), 0);
    assert_eq!(st.message().unwrap(), "Switched to buffer #1");
    st.clear_message();
    assert!(st.message().is_none());
}

#[test]
fn save_flow() {
    let mut st = EditorState::new(2);
    assert_eq!(st.on_key(EditorKey::Save), EditorAction::Redraw);
    assert_eq!(st.message().unwrap(), "No changes to save");
    assert_eq!(st.on_key(EditorKey::Other), EditorAction::Edit);
    st.edited(false);
    assert!(!st.current_modified());
    st.edited(true);
    assert!(st.current_modified());
    st.edited(false);
    assert!(st.current_modified());
    assert_eq!(st.on_key(EditorKey::Save), EditorAction::Save(0));
    st.saved();
    assert!(!st.current_modified());
    assert_eq!(st.message().unwrap(), "Saved!");
    assert_eq!(st.on_key(EditorKey::Quit), EditorAction::Exit);
}

#[test]
fn status_parts() {
    assert_eq!(status_path("/tmp/a.prtgn", true), " /tmp/a.prtgn [modified] ");
    assert_eq!(status_path("/tmp/a.prtgn", false), " /tmp/a.prtgn ");
    assert_eq!(status_cursor(0, 9), "(1,10)");
}

#[test]
fn save_and_reopen() {
    let lines: Vec<String> = vec!["first".into(), "\tsecond".into(), "".into(), "last".into()];
    let text = buffer_text(&lines);
    assert_eq!(text, "first\n\tsecond\n\nlast");
    assert_eq!(buffer_lines(&text), lines);
    assert!(uses_hard_tabs(&lines));
    assert!(!uses_hard_tabs(&vec!["  x".to_string()]));
    assert_eq!(buffer_lines("a\r\nb\n"), vec!["a".to_string(), "b".to_string()]);
}

#[test]
fn two_buffers_switch() {
    let paths = prtgn::init::text_editor::editor_paths("a.prtgn b.prtgn").unwrap();
    let mut st = EditorState::new(paths.len());
    st.on_key(EditorKey::Switch);
    assert_eq!(st.message().unwrap(), "Switched to buffer #2");
    st.clear_message();
    st.on_key(EditorKey::Switch);
    assert_eq!(st.message().unwrap(), "Switched to buffer #1");
    st.clear_message();
    assert_eq!(st.on_key(EditorKey::Quit), EditorAction::Exit);
    assert_eq!(st.current(), 0);
    assert!(st.message().is_none());
}
