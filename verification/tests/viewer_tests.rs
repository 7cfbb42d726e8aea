use pugaipadam::file_name_of;
use pugaipadam::image_data::ImageRepresentation;
use pugaipadam::viewer::key_to_message;
use pugaipadam::viewer::Key;
use pugaipadam::viewer::Message;
use pugaipadam::viewer::Pugaipadam;
use pugaipadam::viewer::WindowMode;

fn sample(path: &str) -> ImageRepresentation {
    ImageRepresentation {
        width: 1,
        height: 1,
        pixel_buffer: vec![0, 0, 0, 255],
        source_path: path.to_string(),
        display_name: file_name_of(path),
    }
}

fn viewer3() -> Pugaipadam {
    Pugaipadam::new(vec![sample("a.png"), sample("b.png"), sample("c.png")])
}

#[test]
fn navigation_stays_in_range() {
    let mut p = viewer3();
    let script = [
        Message::Next,
        Message::Next,
        Message::Previous,
        Message::Next,
        Message::Next,
        Message::Next,
        Message::Previous,
        Message::Previous,
        Message::Previous,
        Message::Previous,
    ];
    for m in script {
        p.update(m);
        assert!(p.current_image < 3);
    }
}

#[test]
fn next_wraps_at_end() {
    let mut p = viewer3();
    p.update(Message::Next);
    p.update(Message::Next);
    assert_eq!(p.current_image, 2);
    p.update(Message::Next);
    assert_eq!(p.current_image, 0);
}

#[test]
fn previous_wraps_at_start() {
    let mut p = viewer3();
    assert_eq!(p.current_image, 0);
    p.update(Message::Previous);
    assert_eq!(p.current_image, 2);
}

#[test]
fn next_full_cycle_returns_to_start() {
    let mut p = viewer3();
    p.update(Message::Next);
    let start = p.current_image;
    for _ in 0..3 {
        p.update(Message::Next);
    }
    assert_eq!(p.current_image, start);
}

#[test]
fn previous_full_cycle_returns_to_start() {
    let mut p = viewer3();
    p.update(Message::Next);
    p.update(Message::Next);
    let start = p.current_image;
    for _ in 0..3 {
        p.update(Message::Previous);
    }
    assert_eq!(p.current_image, start);
}

#[test]
fn empty_collection_navigation_is_noop() {
    let mut p = Pugaipadam::new(vec![]);
    assert_eq!(p.update(Message::Next), None);
    assert_eq!(p.current_image, 0);
    assert_eq!(p.update(Message::Previous), None);
    assert_eq!(p.current_image, 0);
}

#[test]
fn can_go_queries_follow_collection_size() {
    let empty = Pugaipadam::new(vec![]);
    assert!(!empty.can_go_back());
    assert!(!empty.can_go_forward());
    let one = Pugaipadam::new(vec![sample("a.png")]);
    assert!(!one.can_go_back());
    assert!(!one.can_go_forward());
    let two = Pugaipadam::new(vec![sample("a.png"), sample("b.png")]);
    assert!(two.can_go_back());
    assert!(two.can_go_forward());
}

#[test]
fn title_shows_one_based_position() {
    let mut p = viewer3();
    assert_eq!(p.title(), "a.png (1/3)");
    p.update(Message::Next);
    assert_eq!(p.title(), "b.png (2/3)");
}

#[test]
fn title_uses_final_path_component() {
    let p = Pugaipadam::new(vec![sample("shots/holiday/beach.jpg")]);
    assert_eq!(p.title(), "beach.jpg (1/1)");
}

#[test]
fn title_empty_placeholder() {
    let p = Pugaipadam::new(vec![]);
    assert_eq!(p.title(), "Pugaipadam - No images");
}

#[test]
fn title_renders_multi_digit_positions() {
    let mut images = Vec::new();
    for i in 0..12 {
        images.push(sample(&format!("img{}.png", i)));
    }
    let mut p = Pugaipadam::new(images);
    for _ in 0..9 {
        p.update(Message::Next);
    }
    assert_eq!(p.title(), "img9.png (10/12)");
}

#[test]
fn toggle_fullscreen_twice_restores_and_pairs_requests() {
    let mut p = viewer3();
    assert!(!p.fullscreen);
    let first = p.update(Message::Fullscreen);
    assert_eq!(first, Some(WindowMode::Fullscreen));
    assert!(p.fullscreen);
    let second = p.update(Message::Fullscreen);
    assert_eq!(second, Some(WindowMode::Windowed));
    assert!(!p.fullscreen);
}

#[test]
fn escape_windowed_is_noop() {
    let mut p = viewer3();
    let r = p.on_escape();
    assert_eq!(r, None);
    assert!(!p.fullscreen);
    assert_eq!(p.current_image, 0);
}

#[test]
fn escape_fullscreen_exits() {
    let mut p = viewer3();
    p.update(Message::Fullscreen);
    let r = p.on_escape();
    assert_eq!(r, Some(WindowMode::Windowed));
    assert!(!p.fullscreen);
}

#[test]
fn window_mode_matches_flag() {
    let mut p = viewer3();
    assert_eq!(p.window_mode(), WindowMode::Windowed);
    p.update(Message::Fullscreen);
    assert_eq!(p.window_mode(), WindowMode::Fullscreen);
}

#[test]
fn arrow_keys_map_to_navigation() {
    assert_eq!(key_to_message(Key::ArrowLeft), Some(Message::Previous));
    assert_eq!(key_to_message(Key::ArrowRight), Some(Message::Next));
    assert_eq!(key_to_message(Key::Other), None);
}

#[test]
fn current_returns_shown_image() {
    let mut p = viewer3();
    p.update(Message::Next);
    let img = p.current().expect("non-empty collection");
    assert_eq!(img.display_name, "b.png");
}

#[test]
fn current_of_empty_is_none() {
    let p = Pugaipadam::new(vec![]);
    assert!(p.current().is_none());
}

#[test]
fn header_hidden_exactly_while_fullscreen() {
    let mut p = viewer3();
    assert!(p.header_visible());
    p.update(Message::Fullscreen);
    assert!(!p.header_visible());
    p.update(Message::Fullscreen);
    assert!(p.header_visible());
}

#[test]
fn details_render_path_and_dimensions() {
    let img = ImageRepresentation {
        width: 640,
        height: 480,
        pixel_buffer: vec![0; 640 * 480 * 4],
        source_path: "shots/beach.jpg".to_string(),
        display_name: file_name_of("shots/beach.jpg"),
    };
    assert_eq!(img.details(), "shots/beach.jpg - 640x480 pixels");
}

#[test]
fn default_is_empty_viewer() {
    let p = Pugaipadam::default();
    assert_eq!(p.current_image, 0);
    assert!(p.image_list.is_empty());
    assert!(!p.fullscreen);
}
