use gnyprland::command::Workspace;
use gnyprland::event::ActiveWindowData;
use gnyprland::window::{class_override, title_override, ActiveWindow, Message};
use gnyprland::workspace::{calculate, cname, recalculate_active, ActiveSlider, OpenIndicator};

fn workspace(name: &str, windows: usize) -> Workspace {
    Workspace { id: 0, name: name.to_string(), windows }
}

#[test]
fn mask_marks_workspaces_with_windows() {
    assert_eq!(calculate(&[]), 0);
    assert_eq!(calculate(&[workspace("1", 1)]), 0b1);
    assert_eq!(calculate(&[workspace("1", 0)]), 0);
    assert_eq!(
        calculate(&[workspace("1", 2), workspace("2", 0), workspace("3", 1), workspace("10", 4)]),
        0b10_0000_0101
    );
    assert_eq!(calculate(&[workspace("16", 1)]), 0x8000);
}

#[test]
fn mask_puts_unnumbered_workspaces_on_the_first_bit() {
    assert_eq!(calculate(&[workspace("special:magic", 1)]), 0b1);
    assert_eq!(calculate(&[workspace("", 3), workspace("4", 1)]), 0b1001);
}

#[test]
fn mask_skips_numbers_without_a_bit() {
    assert_eq!(calculate(&[workspace("0", 1)]), 0);
    assert_eq!(calculate(&[workspace("17", 1)]), 0);
    assert_eq!(calculate(&[workspace("-3", 1), workspace("-2147483648", 1)]), 0);
    assert_eq!(calculate(&[workspace("2147483647", 1), workspace("2", 1)]), 0b10);
}

#[test]
fn mask_looks_at_the_first_ten_only() {
    let mut list: Vec<Workspace> = (0..10).map(|_| workspace("1", 0)).collect();
    list.push(workspace("5", 1));
    assert_eq!(calculate(&list), 0);
    list[9] = workspace("6", 1);
    assert_eq!(calculate(&list), 0b10_0000);
}

#[test]
fn marks_carry_their_classes() {
    assert_eq!(cname(0b101, 0), vec!["workspace-indicator", "with-windows"]);
    assert_eq!(cname(0b101, 1), vec!["workspace-indicator"]);
    assert_eq!(cname(0b101, 2), vec!["workspace-indicator", "with-windows"]);
    assert_eq!(cname(0xffff, 15), vec!["workspace-indicator", "with-windows"]);
    assert_eq!(cname(0xffff, 16), vec!["workspace-indicator"]);
    assert_eq!(cname(0xffff, usize::MAX), vec!["workspace-indicator"]);
}

#[test]
fn indicator_draws_ten_marks() {
    let mut indicator = OpenIndicator::new();
    let marks = indicator.update_view();
    assert_eq!(marks.len(), 10);
    assert!(marks.iter().all(|m| m == &vec!["workspace-indicator"]));
    indicator.update(0b10_0000_0010);
    let marks = indicator.update_view();
    for (i, mark) in marks.iter().enumerate() {
        if i == 1 || i == 9 {
            assert_eq!(mark, &vec!["workspace-indicator", "with-windows"]);
        } else {
            assert_eq!(mark, &vec!["workspace-indicator"]);
        }
    }
}

#[test]
fn active_workspace_numbers() {
    assert_eq!(recalculate_active("1"), Some(1));
    assert_eq!(recalculate_active("255"), Some(255));
    assert_eq!(recalculate_active("+7"), Some(7));
    assert_eq!(recalculate_active("256"), None);
    assert_eq!(recalculate_active("-0"), None);
    assert_eq!(recalculate_active("-1"), None);
    assert_eq!(recalculate_active("special:magic"), None);
    assert_eq!(recalculate_active(""), None);
    for s in ["0", "00012", "+0", "-0", "300", "12a", "+", "99"] {
        assert_eq!(recalculate_active(s), s.parse::<u8>().ok(), "{:?}", s);
    }
}

#[test]
fn slider_moves_from_where_it_was_going() {
    let mut slider = ActiveSlider::new(3);
    assert_eq!((slider.draw_data().from(), slider.draw_data().to()), (2, 2));
    assert_eq!(slider.next_frame(), 1);
    assert_eq!(slider.next_frame(), 2);
    slider.update(5);
    assert_eq!((slider.draw_data().from(), slider.draw_data().to()), (2, 4));
    assert_eq!(slider.draw_data().frames(), 2);
    slider.update_view();
    assert_eq!(slider.draw_data().frames(), 0);
    assert_eq!(slider.next_frame(), 1);
    slider.update(1);
    assert_eq!((slider.draw_data().from(), slider.draw_data().to()), (4, 0));
    assert_eq!(slider.draw_data().frames(), 1);
}

#[test]
fn window_titles_are_shortened() {
    assert_eq!(title_override("kitty", String::from("~/src — zsh")), "Terminal");
    assert_eq!(
        title_override("code", String::from("main.rs - gnyprland - Visual Studio Code")),
        "main.rs - gnyprland"
    );
    assert_eq!(
        title_override("firefox", String::from("Rust — Mozilla Firefox")),
        "Rust — Firefox"
    );
    assert_eq!(title_override("", String::from("whatever")), "Desktop");
    assert_eq!(title_override("mpv", String::from("film.mkv")), "film.mkv");
    assert_eq!(title_override("Kitty", String::from("x")), "x");
}

#[test]
fn window_title_replacement_agrees_with_std() {
    let titles = [
        "",
        "Mozilla Firefox",
        "Mozilla FirefoxMozilla Firefox",
        "Mozilla Firefo",
        "MMozilla Firefox x Mozilla Firefox",
        "Mozilla Mozilla Firefox",
        "é Mozilla Firefox é",
    ];
    for title in titles {
        assert_eq!(
            title_override("firefox", title.to_string()),
            title.replace("Mozilla Firefox", "Firefox"),
            "{:?}",
            title
        );
    }
    let titles = ["a - Visual Studio Code", " - Visual Studio Code - Visual Studio Code", " - V"];
    for title in titles {
        assert_eq!(
            title_override("code", title.to_string()),
            title.replace(" - Visual Studio Code", ""),
            "{:?}",
            title
        );
    }
}

#[test]
fn window_classes_are_shortened() {
    assert_eq!(class_override(String::from("dev.zed.Zed")), "zed");
    assert_eq!(class_override(String::new()), "desktop");
    assert_eq!(class_override(String::from("firefox")), "firefox");
}

#[test]
fn window_label_follows_the_focus() {
    let mut label = ActiveWindow::new(String::new(), String::new());
    assert_eq!((label.title_label(), label.class_label()), (String::from("Desktop"), String::from("desktop")));
    label.update(Message::Update(ActiveWindowData {
        class: String::from("firefox"),
        title: String::from("Verus — Mozilla Firefox"),
    }));
    assert_eq!(label.title_label(), "Verus — Firefox");
    assert_eq!(label.class_label(), "firefox");
}
