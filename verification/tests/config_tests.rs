use hybar::config::BarConfig;
use hybar::config::CustomAppsConfig;
use hybar::config::SectionsConfig;
use hybar::config::SeenKeys;
use hybar::config::UiConfig;
use hybar::config::UserConfig;
use hybar::config::WidgetsConfig;
use hybar::config::normalize_duplicate_keys;
use hybar::config::normalize_user_config;

fn strings(items: &[&str]) -> Vec<String> {
    items.iter().map(|s| s.to_string()).collect()
}

#[test]
fn first_occurrence_keeps_its_key() {
    let mut seen = SeenKeys::new();
    let out = normalize_duplicate_keys(strings(&["separator", "clock"]), &mut seen);
    assert_eq!(out, strings(&["separator", "clock"]));
}

#[test]
fn duplicates_get_numbered_suffixes() {
    let mut seen = SeenKeys::new();
    let out = normalize_duplicate_keys(
        strings(&["separator", "clock", "separator", "separator"]),
        &mut seen,
    );
    assert_eq!(out, strings(&["separator", "clock", "separator_1", "separator_2"]));
}

#[test]
fn seen_keys_carry_across_lists() {
    let mut seen = SeenKeys::new();
    let first = normalize_duplicate_keys(strings(&["separator"]), &mut seen);
    let second = normalize_duplicate_keys(strings(&["separator"]), &mut seen);
    assert_eq!(first, strings(&["separator"]));
    assert_eq!(second, strings(&["separator_1"]));
}

#[test]
fn counts_above_nine_render_both_digits() {
    let mut seen = SeenKeys::new();
    let keys: Vec<String> = std::iter::repeat("sep".to_string()).take(12).collect();
    let out = normalize_duplicate_keys(keys, &mut seen);
    assert_eq!(out[0], "sep");
    assert_eq!(out[9], "sep_9");
    assert_eq!(out[10], "sep_10");
    assert_eq!(out[11], "sep_11");
}

#[test]
fn config_normalization_walks_left_center_right() {
    let config = UserConfig {
        theme: "default".to_string(),
        ui: UiConfig { background: "#1a202c".to_string(), accent: "#fff".to_string() },
        bar: BarConfig { height: 20, autohide: false, position: "top".to_string() },
        sections: SectionsConfig {
            left: strings(&["separator", "clock"]),
            center: strings(&["separator"]),
            right: strings(&["clock", "clock"]),
        },
        widgets: Vec::new(),
        custom_apps: Vec::new(),
    };
    let normalized = normalize_user_config(config);
    assert_eq!(normalized.sections.left, strings(&["separator", "clock"]));
    assert_eq!(normalized.sections.center, strings(&["separator_1"]));
    assert_eq!(normalized.sections.right, strings(&["clock_1", "clock_2"]));
    assert_eq!(normalized.theme, "default");
    assert_eq!(normalized.bar.height, 20);
}

fn widget_entry(favorites: &[&str]) -> WidgetsConfig {
    WidgetsConfig {
        favorites: Some(strings(favorites)),
        icon: None,
        size: None,
        format: None,
        timezone: None,
        show_icons: None,
        max_workspaces: None,
    }
}

fn config_with_widgets() -> UserConfig {
    UserConfig {
        theme: String::new(),
        ui: UiConfig { background: String::new(), accent: String::new() },
        bar: BarConfig { height: 0, autohide: false, position: String::new() },
        sections: SectionsConfig {
            left: strings(&["workspaces"]),
            center: strings(&["clock"]),
            right: strings(&["title"]),
        },
        widgets: vec![("apps".to_string(), widget_entry(&["firefox", "kitty"]))],
        custom_apps: vec![(
            "browser".to_string(),
            CustomAppsConfig {
                name: Some("Firefox".to_string()),
                icon: None,
                cmd: Some("firefox".to_string()),
                tooltip: None,
            },
        )],
    }
}

#[test]
fn widget_exists_searches_all_three_sections() {
    let config = config_with_widgets();
    assert!(config.widget_exists("workspaces"));
    assert!(config.widget_exists("clock"));
    assert!(config.widget_exists("title"));
    assert!(!config.widget_exists("player"));
}

#[test]
fn widget_and_custom_app_lookup_find_first_entry() {
    let config = config_with_widgets();
    assert_eq!(
        config.widget_config("apps").and_then(|w| w.favorites.clone()),
        Some(strings(&["firefox", "kitty"]))
    );
    assert!(config.widget_config("clock").is_none());
    assert_eq!(
        config.custom_app("browser").and_then(|a| a.cmd.clone()),
        Some("firefox".to_string())
    );
    assert!(config.custom_app("missing").is_none());
}

#[test]
fn favorites_decide_which_buttons_stay() {
    let config = config_with_widgets();
    assert!(config.is_favorite_app("firefox"));
    assert!(config.is_favorite_app("kitty"));
    assert!(!config.is_favorite_app("discord"));
}
