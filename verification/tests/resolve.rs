use calendar2discord::config::{
    choice_status, line_status, lower_keys, map_event_to_status, resolve, Config, DiscordConfig,
    EventMapping, Mappings,
};
use calendar2discord::matching::{find_exact, find_mapping, find_partial};
use calendar2discord::status::Status;

fn status(message: &str, emoji: &str) -> Status {
    Status { message: message.to_string(), emoji: emoji.to_string() }
}

fn line(event: &str, message: Option<&str>, emoji: Option<&str>) -> EventMapping {
    EventMapping {
        event: event.to_string(),
        message: message.map(|m| m.to_string()),
        emoji: emoji.map(|e| e.to_string()),
    }
}

fn table(default: Status, lines: Vec<EventMapping>) -> Mappings {
    Mappings { default, mapping: lines }
}

fn keys(list: &[&str]) -> Vec<String> {
    list.iter().map(|k| k.to_string()).collect()
}

#[test]
fn title_matches_key_whatever_the_case() {
    let mappings =
        table(status("", ""), vec![line("standup", Some("In a meeting"), Some("📅"))]);
    assert_eq!(resolve("Standup", &mappings.mapping, &mappings.default), status("In a meeting", "📅"));
    assert_eq!(resolve("STANDUP", &mappings.mapping, &mappings.default), status("In a meeting", "📅"));
    assert_eq!(resolve("standup", &mappings.mapping, &mappings.default), status("In a meeting", "📅"));
}

#[test]
fn key_in_upper_case_matches_title_in_lower_case() {
    let mappings = table(status("", ""), vec![line("LUNCH", Some("Eating"), Some("🍜"))]);
    assert_eq!(resolve("lunch", &mappings.mapping, &mappings.default), status("Eating", "🍜"));
    assert_eq!(resolve("Team Lunch", &mappings.mapping, &mappings.default), status("Eating", "🍜"));
}

#[test]
fn title_that_contains_key_matches() {
    let mappings =
        table(status("Away", "🌙"), vec![line("standup", Some("In a meeting"), Some("📅"))]);
    assert_eq!(resolve("Daily Standup Meeting", &mappings.mapping, &mappings.default), status("In a meeting", "📅"));
}

#[test]
fn key_that_contains_title_does_not_match() {
    let mappings = table(
        status("Away", "🌙"),
        vec![line("daily standup meeting", Some("In a meeting"), Some("📅"))],
    );
    assert_eq!(resolve("standup", &mappings.mapping, &mappings.default), status("Away", "🌙"));
}

#[test]
fn exact_match_wins_over_earlier_partial_match() {
    let mappings = table(
        status("Away", "🌙"),
        vec![
            line("standup", Some("In a meeting"), Some("📅")),
            line("Daily Standup Meeting", Some("Daily"), Some("☀")),
        ],
    );
    assert_eq!(resolve("daily standup meeting", &mappings.mapping, &mappings.default), status("Daily", "☀"));
    assert_eq!(resolve("Weekly Standup", &mappings.mapping, &mappings.default), status("In a meeting", "📅"));
}

#[test]
fn first_of_two_exact_matches_wins() {
    let mappings = table(
        status("", ""),
        vec![
            line("other", Some("no"), None),
            line("Focus", Some("first"), Some("1")),
            line("focus", Some("second"), Some("2")),
        ],
    );
    assert_eq!(resolve("FOCUS", &mappings.mapping, &mappings.default), status("first", "1"));
}

#[test]
fn first_of_two_partial_matches_wins() {
    let mappings = table(
        status("", ""),
        vec![line("planning", Some("Planning"), Some("P")), line("sprint", Some("Sprinting"), Some("S"))],
    );
    assert_eq!(resolve("Sprint Planning", &mappings.mapping, &mappings.default), status("Planning", "P"));
}

#[test]
fn title_without_match_gives_default() {
    let mappings =
        table(status("Away", "🌙"), vec![line("standup", Some("In a meeting"), Some("📅"))]);
    assert_eq!(resolve("Dentist", &mappings.mapping, &mappings.default), status("Away", "🌙"));
}

#[test]
fn empty_table_gives_default() {
    let mappings = table(status("Away", "🌙"), vec![]);
    assert_eq!(resolve("Standup", &mappings.mapping, &mappings.default), status("Away", "🌙"));
    assert_eq!(resolve("", &mappings.mapping, &mappings.default), status("Away", "🌙"));
}

#[test]
fn empty_key_is_contained_in_every_title() {
    let mappings = table(
        status("Away", "🌙"),
        vec![line("", Some("Busy"), Some("⏳")), line("standup", Some("In a meeting"), None)],
    );
    assert_eq!(resolve("Dentist", &mappings.mapping, &mappings.default), status("Busy", "⏳"));
    assert_eq!(resolve("Standup", &mappings.mapping, &mappings.default), status("In a meeting", "🌙"));
    assert_eq!(resolve("", &mappings.mapping, &mappings.default), status("Busy", "⏳"));
}

#[test]
fn line_without_icon_takes_default_icon() {
    let mappings =
        table(status("Away", "🌙"), vec![line("standup", Some("In a meeting"), None)]);
    assert_eq!(resolve("standup", &mappings.mapping, &mappings.default), status("In a meeting", "🌙"));
}

#[test]
fn line_without_text_takes_default_text() {
    let mappings = table(status("Away", "🌙"), vec![line("standup", None, Some("📅"))]);
    assert_eq!(resolve("standup", &mappings.mapping, &mappings.default), status("Away", "📅"));
}

#[test]
fn line_without_text_and_icon_gives_default() {
    let mappings = table(status("Away", "🌙"), vec![line("standup", None, None)]);
    assert_eq!(resolve("standup", &mappings.mapping, &mappings.default), status("Away", "🌙"));
}

#[test]
fn changed_default_shows_through_lines_that_leave_a_part_out() {
    let mut mappings =
        table(status("Away", "🌙"), vec![line("standup", Some("In a meeting"), None)]);
    assert_eq!(resolve("standup", &mappings.mapping, &mappings.default), status("In a meeting", "🌙"));
    mappings.default = status("Gone", "🚪");
    assert_eq!(resolve("standup", &mappings.mapping, &mappings.default), status("In a meeting", "🚪"));
}

#[test]
fn resolving_twice_gives_the_same_status() {
    let mappings = table(
        status("Away", "🌙"),
        vec![line("standup", Some("In a meeting"), Some("📅")), line("lunch", None, Some("🍜"))],
    );
    for title in ["Standup", "Team Lunch", "Dentist", ""] {
        let first = resolve(title, &mappings.mapping, &mappings.default);
        let second = resolve(title, &mappings.mapping, &mappings.default);
        assert_eq!(first, second);
    }
}

#[test]
fn non_ascii_titles_are_compared_in_lower_case() {
    let mappings = table(status("", ""), vec![line("ÜBUNG", Some("Practice"), Some("🎻"))]);
    assert_eq!(resolve("Übung", &mappings.mapping, &mappings.default), status("Practice", "🎻"));
    assert_eq!(resolve("große übung", &mappings.mapping, &mappings.default), status("Practice", "🎻"));
}

#[test]
fn map_event_to_status_resolves_over_the_configuration() {
    let config = Config {
        discord: DiscordConfig { token: "t".to_string() },
        mappings: table(
            status("Away", "🌙"),
            vec![line("standup", Some("In a meeting"), Some("📅"))],
        ),
    };
    assert_eq!(map_event_to_status(Some(&config), "Standup"), status("In a meeting", "📅"));
    assert_eq!(map_event_to_status(Some(&config), "Dentist"), status("Away", "🌙"));
}

#[test]
fn map_event_to_status_without_configuration_is_empty() {
    assert_eq!(map_event_to_status(None, "Standup"), status("", ""));
    assert_eq!(map_event_to_status(None, "Standup"), Status::default());
}

#[test]
fn lower_keys_keeps_table_order() {
    let lines = vec![line("Standup", None, None), line("LUNCH", None, None), line("x", None, None)];
    assert_eq!(lower_keys(&lines), keys(&["standup", "lunch", "x"]));
    assert_eq!(lower_keys(&vec![]), Vec::<String>::new());
}

#[test]
fn find_exact_gives_first_equal_key() {
    assert_eq!(find_exact(&keys(&["a", "b", "a"]), "a"), Some(0));
    assert_eq!(find_exact(&keys(&["a", "b", "a"]), "b"), Some(1));
    assert_eq!(find_exact(&keys(&["a", "b", "a"]), "c"), None);
    assert_eq!(find_exact(&keys(&["a", "b"]), "A"), None);
    assert_eq!(find_exact(&keys(&[]), "a"), None);
}

#[test]
fn find_partial_gives_first_contained_key() {
    assert_eq!(find_partial(&keys(&["x", "stand", "up"]), "standup"), Some(1));
    assert_eq!(find_partial(&keys(&["x", "up", "stand"]), "standup"), Some(1));
    assert_eq!(find_partial(&keys(&["standup meeting"]), "standup"), None);
    assert_eq!(find_partial(&keys(&["x", ""]), "standup"), Some(1));
    assert_eq!(find_partial(&keys(&["tdu"]), "standup"), None);
    assert_eq!(find_partial(&keys(&["ndu"]), "standup"), Some(0));
}

#[test]
fn find_mapping_prefers_exact_match() {
    assert_eq!(find_mapping(&keys(&["stand", "standup"]), "standup"), Some(1));
    assert_eq!(find_mapping(&keys(&["stand", "up"]), "standup"), Some(0));
    assert_eq!(find_mapping(&keys(&["x", "y"]), "standup"), None);
}

#[test]
fn line_status_falls_back_by_field() {
    let default = status("Away", "🌙");
    assert_eq!(line_status(&line("k", Some("m"), Some("e")), &default), status("m", "e"));
    assert_eq!(line_status(&line("k", Some("m"), None), &default), status("m", "🌙"));
    assert_eq!(line_status(&line("k", None, Some("e")), &default), status("Away", "e"));
    assert_eq!(line_status(&line("k", None, None), &default), status("Away", "🌙"));
}

#[test]
fn choice_status_without_choice_is_default() {
    let mappings = table(status("Away", "🌙"), vec![line("a", Some("A"), None)]);
    assert_eq!(choice_status(None, &mappings.mapping, &mappings.default), status("Away", "🌙"));
    assert_eq!(choice_status(Some(0), &mappings.mapping, &mappings.default), status("A", "🌙"));
}
