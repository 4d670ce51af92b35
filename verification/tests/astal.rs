use gnyprland::astal::{
    class_after, class_before, class_current, class_of, get_title_transformer, override_class,
    override_title, window_mask, TitleTransformer,
};
use gnyprland::css::{compiled, recompiles, watch, Change, Compiled, Watch, FILE};
use gnyprland::text::to_decimal;

#[test]
fn decimal_numerals() {
    assert_eq!(to_decimal(0), "0");
    assert_eq!(to_decimal(7), "7");
    assert_eq!(to_decimal(10), "10");
    assert_eq!(to_decimal(114), "114");
    assert_eq!(to_decimal(u64::MAX), "18446744073709551615");
    for n in [1u64, 9, 11, 99, 100, 101, 1234567890, 4294967295, 4294967296] {
        assert_eq!(to_decimal(n), n.to_string());
    }
}

#[test]
fn slider_segments_are_sized_by_rules() {
    assert_eq!(class_before(0), "background-color: transparent;");
    assert_eq!(class_before(1), "min-width: 6px;");
    assert_eq!(class_before(2), "min-width: 18px;");
    assert_eq!(class_before(9), "min-width: 102px;");
    assert_eq!(class_before(u32::MAX), "min-width: 51539607534px;");
    assert_eq!(class_current(0), "min-width: 6px; margin-left: 0;");
    assert_eq!(class_current(9), "min-width: 6px; margin-right: 0;");
    assert_eq!(class_current(4), "min-width: 6px; ;");
    assert_eq!(class_after(9), "background-color: transparent;");
    assert_eq!(class_after(8), "min-width: 6px;");
    assert_eq!(class_after(0), "min-width: 102px;");
    for id in 0..9u32 {
        assert_eq!(
            class_after(id),
            format!("min-width: {}px;", (9 - id) * 6 + (8 - id) * 6)
        );
    }
}

#[test]
fn marks_of_the_astal_front_end() {
    assert_eq!(class_of(0, 0), vec!["WorkspaceIndicator"]);
    assert_eq!(class_of(0b1, 0), vec!["WorkspaceIndicator", "Windows"]);
    assert_eq!(class_of(0b1, 9), vec!["WorkspaceIndicator", "Last"]);
    assert_eq!(class_of(1 << 9, 9), vec!["WorkspaceIndicator", "Last", "Windows"]);
    assert_eq!(class_of(u32::MAX, 31), vec!["WorkspaceIndicator", "Windows"]);
    assert_eq!(class_of(u32::MAX, 32), vec!["WorkspaceIndicator"]);
}

#[test]
fn mask_of_workspaces_by_number() {
    assert_eq!(window_mask(&[]), 0);
    assert_eq!(window_mask(&[(1, 1), (2, 0), (3, 5)]), 0b101);
    assert_eq!(window_mask(&[(0, 1)]), 0b1);
    assert_eq!(window_mask(&[(-99, 2)]), 0b1);
    assert_eq!(window_mask(&[(32, 1)]), 1 << 31);
    assert_eq!(window_mask(&[(33, 1), (i32::MAX, 1)]), 0);
    assert_eq!(window_mask(&[(10, 1), (10, 0), (4, 1)]), (1 << 9) | (1 << 3));
}

#[test]
fn titles_of_the_astal_front_end() {
    let class = String::from("kitty");
    assert_eq!(get_title_transformer(&class), TitleTransformer::Terminal);
    assert_eq!(override_title(String::from("zsh"), &class), "Terminal");
    let class = String::from("code-url-handler");
    assert_eq!(get_title_transformer(&class), TitleTransformer::Editor);
    assert_eq!(
        override_title(String::from("lib.rs - Visual Studio Code"), &class),
        "lib.rs - VSCode"
    );
    let class = String::from("firefox");
    assert_eq!(
        override_title(String::from("Mozilla Firefox"), &class),
        "Firefox"
    );
    assert_eq!(override_title(String::from("x"), &String::new()), "Desktop");
    assert_eq!(override_title(String::from("x"), &String::from("mpv")), "x");
    assert_eq!(get_title_transformer(&String::from("code")), TitleTransformer::Keep);
    assert_eq!(TitleTransformer::Keep.apply(String::from("t")), "t");
}

#[test]
fn classes_of_the_astal_front_end() {
    assert_eq!(override_class(String::from("code-url-handler")), "vscode");
    assert_eq!(override_class(String::from("dev.zed.Zed")), "zed");
    assert_eq!(override_class(String::new()), "hyprland");
    assert_eq!(override_class(String::from("kitty")), "kitty");
}

#[test]
fn style_sheet_is_recompiled_on_changes() {
    assert_eq!(FILE, "/tmp/gnyprland/index.css");
    assert!(recompiles(Change::Create));
    assert!(recompiles(Change::Modify));
    assert!(recompiles(Change::Remove));
    assert!(!recompiles(Change::Any));
    assert!(!recompiles(Change::Access));
    assert!(!recompiles(Change::Other));
}

#[test]
fn watcher_lets_changes_pass_in_the_quiet_time() {
    assert_eq!(watch(Change::Other, 0), Watch::Stop);
    assert_eq!(watch(Change::Other, 10_000), Watch::Stop);
    assert_eq!(watch(Change::Access, 10_000), Watch::Skip);
    assert_eq!(watch(Change::Any, 10_000), Watch::Skip);
    assert_eq!(watch(Change::Modify, 0), Watch::Skip);
    assert_eq!(watch(Change::Modify, 500), Watch::Skip);
    assert_eq!(watch(Change::Modify, 501), Watch::Recompile);
    assert_eq!(watch(Change::Create, 501), Watch::Recompile);
    assert_eq!(watch(Change::Remove, u64::MAX), Watch::Recompile);
}

#[test]
fn compiler_exit_codes() {
    assert_eq!(compiled(Some(0)), Compiled::Succeeded);
    assert_eq!(compiled(Some(65)), Compiled::Failed(65));
    assert_eq!(compiled(Some(-1)), Compiled::Failed(-1));
    assert_eq!(compiled(None), Compiled::Killed);
}
