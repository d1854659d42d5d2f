use ui::windows::{exits_after_close, find_name, plan_open, str_eq, OpenPlan, Window, WindowAttributes, WindowPlatform, WindowRegistry};

#[test]
fn window_defaults() {
    let w = Window::new("main", 0u8);
    assert!(w.open_at_start);
    assert_eq!(
        w.attributes(WindowPlatform::MacOs),
        WindowAttributes {
            inner_size: Some((1044, 800)),
            resizable: Some(true),
            transparent: Some(false),
            decorations: Some(true),
            title: None,
        }
    );
}

#[test]
fn window_attributes_are_system_defaults_elsewhere() {
    let w = Window::new("main", 0u8).inner_size(300, 200).title("Hi");
    assert_eq!(
        w.attributes(WindowPlatform::Other),
        WindowAttributes {
            inner_size: None,
            resizable: None,
            transparent: None,
            decorations: None,
            title: Some("Hi".to_string()),
        }
    );
}

#[test]
fn window_builders_override_defaults() {
    let w = Window::new("main", 0u8)
        .inner_size(300, 200)
        .resizable(false)
        .title("Hello")
        .transparent(true)
        .decorations(false)
        .open_at_start(false);
    assert!(!w.open_at_start);
    assert_eq!(
        w.attributes(WindowPlatform::Windows),
        WindowAttributes {
            inner_size: Some((300, 200)),
            resizable: Some(false),
            transparent: Some(true),
            decorations: Some(false),
            title: Some("Hello".to_string()),
        }
    );
}

#[test]
fn registry_lists_windows_opened_at_start() {
    let mut r = WindowRegistry::new(Window::new("main", 1u8));
    r.add(Window::new("settings", 2u8).open_at_start(false));
    r.add(Window::new("about", 3u8));
    assert_eq!(r.initial_windows(), &vec!["main", "about"]);
    assert_eq!(r.get("settings").map(|w| w.view), Some(2));
    assert!(r.get("missing").is_none());
}

#[test]
fn registry_replaces_same_name() {
    let mut r = WindowRegistry::new(Window::new("main", 1u8).open_at_start(false));
    assert!(r.initial_windows().is_empty());
    r.add(Window::new("main", 5u8));
    assert_eq!(r.get("main").map(|w| w.view), Some(5));
    assert_eq!(r.initial_windows(), &vec!["main"]);
}

#[test]
fn opening_focuses_creates_or_ignores() {
    let mut r = WindowRegistry::new(Window::new("main", ()));
    r.add(Window::new("tools", ()).inner_size(10, 20));
    let open = vec!["main"];
    assert_eq!(plan_open(&open, &r, "main", WindowPlatform::MacOs), OpenPlan::Focus(0));
    match plan_open(&open, &r, "tools", WindowPlatform::MacOs) {
        OpenPlan::Create(a) => assert_eq!(a.inner_size, Some((10, 20))),
        other => panic!("unexpected plan {:?}", other),
    }
    assert_eq!(plan_open(&open, &r, "nope", WindowPlatform::MacOs), OpenPlan::Unknown);
}

#[test]
fn names_compare_by_characters() {
    assert!(str_eq("abc", "abc"));
    assert!(!str_eq("abc", "abd"));
    assert!(!str_eq("ab", "abc"));
    assert!(str_eq("", ""));
    assert_eq!(find_name(&vec!["x", "y", "y"], "y"), Some(1));
    assert_eq!(find_name(&vec!["x"], "z"), None);
}

#[test]
fn exit_when_last_window_closes() {
    assert!(exits_after_close(0));
    assert!(!exits_after_close(2));
}
