use calendar2discord::status::{
    frame_status_body, judge_response, status_body, status_request, PushFailure, Status,
};

fn status(message: &str, emoji: &str) -> Status {
    Status { message: message.to_string(), emoji: emoji.to_string() }
}

#[test]
fn default_status_is_empty() {
    assert_eq!(Status::default(), status("", ""));
}

#[test]
fn statuses_are_equal_when_both_parts_are() {
    assert_eq!(status("a", "b"), status("a", "b"));
    assert_ne!(status("a", "b"), status("a", "c"));
    assert_ne!(status("a", "b"), status("c", "b"));
    assert_ne!(status("a", "b"), status("b", "a"));
    assert_eq!(status("a", "b").clone(), status("a", "b"));
}

#[test]
fn body_holds_text_and_icon() {
    assert_eq!(
        status_body(&status("In a meeting", "📅")),
        "{\"custom_status\":{\"emoji_name\":\"📅\",\"text\":\"In a meeting\"}}"
    );
    assert_eq!(
        status_body(&status("", "")),
        "{\"custom_status\":{\"emoji_name\":\"\",\"text\":\"\"}}"
    );
}

#[test]
fn body_escapes_what_json_cannot_hold() {
    assert_eq!(
        status_body(&status("say \"hi\"\n", "a\\b")),
        "{\"custom_status\":{\"emoji_name\":\"a\\\\b\",\"text\":\"say \\\"hi\\\"\\n\"}}"
    );
}

#[test]
fn body_is_what_serde_json_writes_for_the_same_value() {
    for (message, emoji) in [("In a meeting", "📅"), ("tab\there", "\u{1}"), ("", "x\"y")] {
        let mut inner = serde_json::Map::new();
        inner.insert("text".to_string(), serde_json::Value::String(message.to_string()));
        inner.insert("emoji_name".to_string(), serde_json::Value::String(emoji.to_string()));
        let mut outer = serde_json::Map::new();
        outer.insert("custom_status".to_string(), serde_json::Value::Object(inner));
        let expected = serde_json::Value::Object(outer);
        let body = status_body(&status(message, emoji));
        let parsed: serde_json::Value = serde_json::from_str(&body).unwrap();
        assert_eq!(parsed, expected);
    }
}

#[test]
fn frame_puts_icon_before_text() {
    assert_eq!(
        frame_status_body("\"T\"", "\"E\""),
        "{\"custom_status\":{\"emoji_name\":\"E\",\"text\":\"T\"}}"
    );
}

#[test]
fn request_goes_to_the_settings_of_the_user() {
    let request = status_request(&status("Away", "🌙"), "secret-token");
    assert_eq!(request.url, "https://discord.com/api/v10/users/@me/settings");
    assert_eq!(request.authorization, "secret-token");
    assert_eq!(request.content_type, "application/json");
    assert_eq!(request.body, "{\"custom_status\":{\"emoji_name\":\"🌙\",\"text\":\"Away\"}}");
}

#[test]
fn codes_from_200_to_299_are_a_success() {
    assert_eq!(judge_response(Some(200)), Ok(()));
    assert_eq!(judge_response(Some(204)), Ok(()));
    assert_eq!(judge_response(Some(299)), Ok(()));
}

#[test]
fn other_codes_are_a_rejection() {
    assert_eq!(judge_response(Some(199)), Err(PushFailure::Rejected(199)));
    assert_eq!(judge_response(Some(300)), Err(PushFailure::Rejected(300)));
    assert_eq!(judge_response(Some(304)), Err(PushFailure::Rejected(304)));
    assert_eq!(judge_response(Some(401)), Err(PushFailure::Rejected(401)));
    assert_eq!(judge_response(Some(429)), Err(PushFailure::Rejected(429)));
    assert_eq!(judge_response(Some(500)), Err(PushFailure::Rejected(500)));
    assert_eq!(judge_response(Some(0)), Err(PushFailure::Rejected(0)));
    assert_eq!(judge_response(Some(u16::MAX)), Err(PushFailure::Rejected(u16::MAX)));
}

#[test]
fn no_response_is_a_failure_of_the_transport() {
    assert_eq!(judge_response(None), Err(PushFailure::Transport));
}
