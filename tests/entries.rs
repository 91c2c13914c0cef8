use quickshards::clock::{clock_text, LocalTime};
use quickshards::entry::{format_flat_entry, format_log_entry};
use quickshards::paths::{
    config_file_path, resolve_daily_path, resolve_working_memory_path, scratch_file_name,
    EntryError,
};
use quickshards::settings::{editor_default, Cli, Settings};
use quickshards::shards::{Action, Event, QuickShards};
use quickshards::tags::{route, Tag};
use quickshards::text::{chars_of, has_prefix, remove_all, string_of};

fn tag(t: &str, v: &str) -> Tag {
    Tag::new(t.to_string(), v.to_string())
}

fn settings(tags: Vec<Tag>) -> Settings {
    Settings {
        obsidian_vault_path: "/vault".to_string(),
        daily_path: "daily".to_string(),
        daily_format: None,
        working_memory_file_path: Some("memory.md".to_string()),
        text_editor: editor_default(),
        tags,
    }
}

fn cli(working_memory: bool, edit_settings: bool, interactive: bool, text: Option<&str>) -> Cli {
    Cli { working_memory, edit_settings, interactive, text: text.map(|t| t.to_string()) }
}

fn march_seventh() -> LocalTime {
    LocalTime::new(2024, 3, 7, 10, 0, 0, 3600).unwrap()
}

#[test]
fn route_relabels_first_matching_rule() {
    let rules = vec![tag("@W ", "Movie")];
    assert_eq!(route(&rules, "@W Dune"), "Movie:: Dune");
}

#[test]
fn route_first_rule_wins() {
    let rules = vec![tag("@B ", "Book"), tag("@", "Any"), tag("@B", "Later")];
    assert_eq!(route(&rules, "@B Dune"), "Book:: Dune");
    assert_eq!(route(&rules, "@X Dune"), "Any:: X Dune");
}

#[test]
fn route_strips_every_occurrence_of_the_tag() {
    // The tag text is removed wherever it occurs, not only at the start.
    let rules = vec![tag("@W ", "Movie")];
    assert_eq!(route(&rules, "@W Dune @W part two"), "Movie:: Dune part two");
}

#[test]
fn route_needs_the_tag_at_the_start() {
    let rules = vec![tag("@W ", "Movie")];
    assert_eq!(route(&rules, "see @W Dune"), "see @W Dune");
}

#[test]
fn route_without_rules_passes_through() {
    assert_eq!(route(&Vec::new(), "@W Dune"), "@W Dune");
    assert_eq!(route(&Vec::new(), ""), "");
    assert_eq!(route(&Vec::new(), "line\nline"), "line\nline");
}

#[test]
fn handle_tags_uses_the_settings_rules() {
    let app = QuickShards::new(settings(vec![tag("#idea ", "Idea")]), cli(false, false, false, None));
    assert_eq!(app.handle_tags("#idea fly".to_string()), "Idea:: fly");
    assert_eq!(app.handle_tags("plain".to_string()), "plain");
}

#[test]
fn log_entry_drops_empty_lines() {
    assert_eq!(
        format_log_entry("09:15", "line one\n\nline two"),
        "\n- 09:15\n\t- line one\n\t- line two"
    );
}

#[test]
fn log_entry_single_line() {
    assert_eq!(format_log_entry("23:59", "hello"), "\n- 23:59\n\t- hello");
}

#[test]
fn log_entry_keeps_header_for_empty_body() {
    assert_eq!(format_log_entry("09:15", ""), "\n- 09:15\n");
    assert_eq!(format_log_entry("09:15", "\n\n\r\n"), "\n- 09:15\n");
}

#[test]
fn log_entry_handles_crlf_and_trailing_newline() {
    assert_eq!(format_log_entry("07:00", "a\r\nb\n"), "\n- 07:00\n\t- a\n\t- b");
    assert_eq!(format_log_entry("07:00", "  \nb"), "\n- 07:00\n\t-   \n\t- b");
}

#[test]
fn flat_entry_is_one_bullet() {
    assert_eq!(format_flat_entry("buy milk"), "- buy milk");
    assert_eq!(format_flat_entry("a\nb"), "- a\nb");
    assert_eq!(format_flat_entry(""), "- ");
}

#[test]
fn daily_path_from_default_pattern() {
    let p = resolve_daily_path(&settings(vec![]), &march_seventh()).unwrap();
    assert_eq!(p, "/vault/daily/2024-03-07.md");
}

#[test]
fn daily_path_from_custom_pattern() {
    let mut s = settings(vec![]);
    s.daily_format = Some("%d.%m.%Y".to_string());
    assert_eq!(resolve_daily_path(&s, &march_seventh()).unwrap(), "/vault/daily/07.03.2024.md");
}

#[test]
fn daily_path_with_unusable_pattern() {
    let mut s = settings(vec![]);
    s.daily_format = Some("%Q".to_string());
    assert_eq!(resolve_daily_path(&s, &march_seventh()), Err(EntryError::Configuration));
}

#[test]
fn daily_path_is_stable_for_one_reading() {
    let s = settings(vec![]);
    let now = march_seventh();
    assert_eq!(resolve_daily_path(&s, &now), resolve_daily_path(&s, &now));
}

#[test]
fn working_memory_path() {
    let mut s = settings(vec![]);
    assert_eq!(resolve_working_memory_path(&s).unwrap(), "/vault/memory.md");
    s.working_memory_file_path = None;
    assert_eq!(resolve_working_memory_path(&s), Err(EntryError::Configuration));
}

#[test]
fn clock_label_is_zero_padded() {
    let t = LocalTime::new(2024, 1, 2, 9, 5, 0, 0).unwrap();
    assert_eq!(clock_text(&t), "09:05");
}

#[test]
fn local_time_checks_the_calendar() {
    assert!(LocalTime::new(2024, 2, 29, 0, 0, 0, 0).is_some());
    assert!(LocalTime::new(2023, 2, 29, 0, 0, 0, 0).is_none());
    assert!(LocalTime::new(1900, 2, 29, 0, 0, 0, 0).is_none());
    assert!(LocalTime::new(2000, 2, 29, 0, 0, 0, 0).is_some());
    assert!(LocalTime::new(2024, 4, 31, 0, 0, 0, 0).is_none());
    assert!(LocalTime::new(2024, 13, 1, 0, 0, 0, 0).is_none());
    assert!(LocalTime::new(2024, 1, 1, 24, 0, 0, 0).is_none());
    assert!(LocalTime::new(2024, 1, 1, 0, 0, 0, 86400).is_none());
}

#[test]
fn config_file_under_config_dir() {
    assert_eq!(config_file_path("/home/u/.config"), "/home/u/.config/QuickShards/config.toml");
}

#[test]
fn scratch_names_are_fresh() {
    let a = scratch_file_name();
    let b = scratch_file_name();
    assert_eq!(a.len(), 39);
    assert!(a.ends_with(".md"));
    assert_eq!(&a[8..9], "-");
    assert_ne!(a, b);
}

#[test]
fn default_editor_is_vim() {
    assert_eq!(editor_default(), "vim");
}

#[test]
fn text_helpers() {
    let s = chars_of("aaab");
    assert_eq!(string_of(&s), "aaab");
    assert!(has_prefix(&s, &chars_of("aa")));
    assert!(!has_prefix(&s, &chars_of("ab")));
    assert_eq!(string_of(&remove_all(&s, &chars_of("aa"))), "ab");
    assert_eq!(string_of(&remove_all(&s, &chars_of(""))), "aaab");
    assert_eq!(string_of(&chars_of("héllo")), "héllo");
}

#[test]
fn step_appends_daily_entry_from_text() {
    let app = QuickShards::new(settings(vec![tag("@W ", "Movie")]), cli(false, false, false, Some("@W Dune")));
    assert_eq!(
        app.step(&march_seventh(), &Event::Started),
        Action::Append {
            path: "/vault/daily/2024-03-07.md".to_string(),
            text: "\n- 10:00\n\t- Movie:: Dune".to_string(),
        }
    );
    assert_eq!(app.step(&march_seventh(), &Event::Appended), Action::Done);
}

#[test]
fn step_appends_working_memory_entry() {
    let app = QuickShards::new(settings(vec![]), cli(true, false, false, Some("buy milk")));
    assert_eq!(
        app.step(&march_seventh(), &Event::Started),
        Action::Append { path: "/vault/memory.md".to_string(), text: "- buy milk".to_string() }
    );
}

#[test]
fn step_working_memory_needs_a_path() {
    let mut s = settings(vec![]);
    s.working_memory_file_path = None;
    let app = QuickShards::new(s, cli(true, false, false, Some("x")));
    assert_eq!(app.step(&march_seventh(), &Event::Started), Action::Fail(EntryError::Configuration));
}

#[test]
fn step_without_text_fails() {
    let app = QuickShards::new(settings(vec![]), cli(false, false, false, None));
    assert_eq!(app.step(&march_seventh(), &Event::Started), Action::Fail(EntryError::Input));
}

#[test]
fn step_edit_settings_first() {
    let app = QuickShards::new(settings(vec![]), cli(true, true, true, Some("x")));
    assert_eq!(app.step(&march_seventh(), &Event::Started), Action::EditSettings("vim".to_string()));
    assert_eq!(app.step(&march_seventh(), &Event::SettingsEdited), Action::Done);
}

#[test]
fn step_interactive_uses_editor_text() {
    let app = QuickShards::new(settings(vec![]), cli(false, false, true, None));
    let now = march_seventh();
    assert_eq!(app.step(&now, &Event::Started), Action::EditEntry("vim".to_string()));
    assert_eq!(
        app.step(&now, &Event::EditorClosed("one\n\ntwo\n".to_string())),
        Action::Append {
            path: "/vault/daily/2024-03-07.md".to_string(),
            text: "\n- 10:00\n\t- one\n\t- two".to_string(),
        }
    );
    assert_eq!(app.step(&now, &Event::EditorFailed), Action::Fail(EntryError::EditorSpawn));
}

#[test]
fn step_missing_destination_fails() {
    let app = QuickShards::new(settings(vec![]), cli(false, false, false, Some("x")));
    assert_eq!(
        app.step(&march_seventh(), &Event::DestinationMissing),
        Action::Fail(EntryError::DestinationNotFound)
    );
    assert_eq!(app.step(&march_seventh(), &Event::WriteFailed), Action::Fail(EntryError::Io));
}

