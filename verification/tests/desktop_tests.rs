use hybar::desktop::DesktopFile;
use hybar::desktop::clean_exec;
use hybar::desktop::normalize_app_query;
use hybar::desktop::parse_desktop_file;
use hybar::desktop::path_matches_query;

#[test]
fn full_entry_parses_all_three_fields() {
    let content = "[Desktop Entry]\nName=Visual Studio Code\nExec=/usr/bin/code %F\nIcon=vscode\n";
    let parsed = parse_desktop_file(content);
    assert_eq!(
        parsed,
        Some(DesktopFile {
            name: "Visual Studio Code".to_string(),
            exec_cmd: "/usr/bin/code".to_string(),
            icon: Some("vscode".to_string()),
        })
    );
}

#[test]
fn entry_without_exec_is_rejected() {
    assert_eq!(parse_desktop_file("Name=Discord\nIcon=discord\n"), None);
}

#[test]
fn entry_without_name_is_rejected() {
    assert_eq!(parse_desktop_file("Exec=discord\nIcon=discord\n"), None);
}

#[test]
fn icon_is_optional() {
    let parsed = parse_desktop_file("Name=Discord\nExec=discord\n");
    assert_eq!(
        parsed,
        Some(DesktopFile {
            name: "Discord".to_string(),
            exec_cmd: "discord".to_string(),
            icon: None,
        })
    );
}

#[test]
fn first_occurrence_of_each_field_wins() {
    let content = "Name=First\nName=Second\nExec=one\nExec=two\n";
    let parsed = parse_desktop_file(content).unwrap();
    assert_eq!(parsed.name, "First");
    assert_eq!(parsed.exec_cmd, "one");
}

#[test]
fn carriage_returns_are_stripped() {
    let content = "Name=Discord\r\nExec=discord\r\n";
    let parsed = parse_desktop_file(content).unwrap();
    assert_eq!(parsed.name, "Discord");
    assert_eq!(parsed.exec_cmd, "discord");
}

#[test]
fn exec_cleaning_drops_placeholders_and_joins() {
    assert_eq!(clean_exec("env FOO=1 %U code %i --flag"), "env FOO=1 code --flag");
    assert_eq!(clean_exec("discord"), "discord");
    assert_eq!(clean_exec("%U"), "");
    assert_eq!(clean_exec("  spaced   out  "), "spaced out");
}

#[test]
fn queries_are_trimmed_lowercased_and_dashed() {
    assert_eq!(normalize_app_query("  Visual Studio Code "), "visual-studio-code");
    assert_eq!(normalize_app_query("Discord"), "discord");
}

#[test]
fn paths_match_case_insensitively() {
    assert!(path_matches_query("/usr/share/applications/Code.desktop", "code"));
    assert!(path_matches_query(
        "/var/lib/flatpak/exports/share/applications/com.discordapp.Discord.desktop",
        "discord"
    ));
    assert!(!path_matches_query("/usr/share/applications/firefox.desktop", "discord"));
}
