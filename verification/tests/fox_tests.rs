use prtgn::fox::{image_url, protocol_choice, FoxAction, FoxState, ProtocolChoice};

#[test]
fn choices() {
    assert_eq!(protocol_choice("2\n"), Some(ProtocolChoice::Kitty));
    assert_eq!(protocol_choice(" 3 "), Some(ProtocolChoice::Iterm2));
    assert_eq!(protocol_choice("4"), Some(ProtocolChoice::Sixel));
    assert_eq!(protocol_choice("\t5\r\n"), Some(ProtocolChoice::Halfblocks));
    assert_eq!(protocol_choice("1"), None);
    assert_eq!(protocol_choice(""), None);
    assert_eq!(protocol_choice("22"), None);
}

#[test]
fn urls() {
    assert_eq!(image_url("[\"https://x/y.jpg\"]"), "https://x/y.jpg");
    assert_eq!(image_url("abcd"), "");
    assert_eq!(image_url("abc"), "");
    assert_eq!(image_url(""), "");
}

#[test]
fn fetch_only_when_idle() {
    let mut st = FoxState::new();
    assert_eq!(st.reload(), FoxAction::Fetch);
    assert_eq!(st.on_key('r'), FoxAction::Nothing);
    st.on_tick();
    st.on_tick();
    assert_eq!(st.loading_text(), "Loading... ⠹");
    assert!(!st.on_image(false));
    assert!(st.loading());
    st.on_load_error();
    assert!(!st.loading());
    st.reload();
    assert!(st.on_image(true));
    assert!(!st.loading());
    st.on_tick();
    assert_eq!(st.on_key('r'), FoxAction::Fetch);
    assert!(st.loading());
    assert_eq!(st.on_key('x'), FoxAction::Nothing);
    assert!(st.running());
    st.on_key('q');
    assert!(!st.running());
}

#[test]
fn spinner_wraps() {
    let mut st = FoxState::new();
    for _ in 0..10 {
        st.on_tick();
    }
    assert_eq!(st.loading_text(), "Loading... ⠋");
}
