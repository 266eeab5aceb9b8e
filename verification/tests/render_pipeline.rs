use cosmic_text::{Buffer, FontSystem, Metrics};
use rem::input::{KeyInput, NamedKeyInput};
use rem::render::{Renderer, SurfaceConfig};

fn new_renderer(width: u32, height: u32) -> Renderer {
    let mut font_system = FontSystem::new();
    let buffer = Buffer::new(&mut font_system, Metrics::new(30.0, 42.0));
    Renderer::new(width, height, font_system, buffer).expect("a font face should be available")
}

fn layout_lines(r: &Renderer) -> Vec<String> {
    r.buffer().lines.iter().map(|l| l.text().to_string()).collect()
}

#[test]
fn construction_uses_the_given_dimensions() {
    let r = new_renderer(800, 600);
    assert_eq!(r.redraw(), SurfaceConfig { width: 800, height: 600 });
    assert_eq!(r.text(), "");
    r.close();
}

#[test]
fn a_usable_face_is_found_among_the_system_fonts() {
    let mut font_system = FontSystem::new();
    assert!(rem::shaping::has_usable_face(&mut font_system));
}

#[test]
fn an_empty_database_has_no_usable_face() {
    let mut font_system = FontSystem::new_with_locale_and_db(
        String::from("en-US"),
        cosmic_text::fontdb::Database::new(),
    );
    assert!(!rem::shaping::has_usable_face(&mut font_system));
}

#[test]
fn a_fontless_font_system_is_rejected() {
    let font_system = FontSystem::new_with_locale_and_db(
        String::from("en-US"),
        cosmic_text::fontdb::Database::new(),
    );
    let buffer = Buffer::new_empty(Metrics::new(30.0, 42.0));
    assert!(Renderer::new(800, 600, font_system, buffer).is_none());
}

#[test]
fn resize_then_redraw_presents_the_new_dimensions() {
    let mut r = new_renderer(800, 600);
    r.resize(1024, 768);
    assert_eq!(r.redraw(), SurfaceConfig { width: 1024, height: 768 });
}

#[test]
fn only_the_second_of_two_rapid_resizes_endures() {
    let mut r = new_renderer(800, 600);
    r.resize(100, 100);
    r.resize(640, 480);
    let presented = r.redraw();
    assert_eq!(presented, SurfaceConfig { width: 640, height: 480 });
    assert_ne!(presented, SurfaceConfig { width: 100, height: 100 });
}

#[test]
fn layout_follows_every_mutation() {
    let mut r = new_renderer(800, 600);
    r.push_str("Hi");
    assert_eq!(layout_lines(&r), vec!["Hi".to_string()]);
    r.pop_char();
    assert_eq!(layout_lines(&r), vec!["H".to_string()]);
    r.clear();
    assert_eq!(layout_lines(&r), vec![String::new()]);
}

#[test]
fn a_line_break_splits_the_layout() {
    let mut r = new_renderer(800, 600);
    r.push_str("a\nb");
    assert_eq!(layout_lines(&r), vec!["a".to_string(), "b".to_string()]);
}

#[test]
fn refresh_buffer_reshapes_the_current_text() {
    let mut r = new_renderer(800, 600);
    r.push_str("abc");
    r.refresh_buffer();
    assert_eq!(layout_lines(&r), vec!["abc".to_string()]);
    assert_eq!(r.text(), "abc");
}

#[test]
fn typing_backspace_and_escape_scenario() {
    let mut r = new_renderer(800, 600);
    assert!(r.handle_key(KeyInput::Character(String::from("Hi")), true));
    assert_eq!(r.text(), "Hi");
    assert!(r.handle_key(KeyInput::Named(NamedKeyInput::Backspace), true));
    assert_eq!(r.text(), "H");
    assert!(r.handle_key(KeyInput::Named(NamedKeyInput::Escape), true));
    assert_eq!(r.text(), "");
    assert_eq!(layout_lines(&r), vec![String::new()]);
}

#[test]
fn releases_and_unidentified_keys_change_nothing() {
    let mut r = new_renderer(800, 600);
    r.push_str("keep");
    assert!(!r.handle_key(KeyInput::Character(String::from("x")), false));
    assert_eq!(r.text(), "keep");
    assert!(!r.handle_key(KeyInput::Unidentified, true));
    assert_eq!(r.text(), "keep");
}

#[test]
fn other_named_keys_append_their_textual_form() {
    let mut r = new_renderer(800, 600);
    assert!(r.handle_key(
        KeyInput::Named(NamedKeyInput::Other { text: Some(String::from("ab")) }),
        true,
    ));
    assert_eq!(r.text(), "ab");
    assert!(r.handle_key(KeyInput::Named(NamedKeyInput::Other { text: None }), true));
    assert_eq!(r.text(), "ab");
}
