use voice_assistant::app_state::{App, AppMode, AppStatus, Key, KeyAction, Message};

fn typed(app: &mut App, text: &str) {
    for c in text.chars() {
        assert_eq!(app.handle_key(Key::Char(c)), KeyAction::Nothing);
    }
}

fn app_with_sessions(ids: &[&str]) -> App {
    let mut app = App::new();
    let names: Vec<String> = ids.iter().map(|i| format!("{}.json", i)).collect();
    app.refresh_session_list(&names);
    app
}

#[test]
fn new_app_defaults() {
    let app = App::new();
    assert_eq!(app.status, AppStatus::StartingServices);
    assert_eq!(app.mode, AppMode::Chat);
    assert_eq!(app.active_model, "qwen2.5:3b");
    assert_eq!(app.active_speaker_id, 14);
    assert_eq!(app.speaker_name, "冥鳴ひまり");
    assert_eq!(app.current_session_id, "");
    assert!(app.save_target().is_none());
}

#[test]
fn commands_on_empty_line() {
    let mut app = App::new();
    assert_eq!(app.handle_key(Key::Char('q')), KeyAction::Quit);
    assert_eq!(app.handle_key(Key::Char('n')), KeyAction::NewSession);
    assert_eq!(
        app.handle_key(Key::Char(' ')),
        KeyAction::StartVoice { model: "qwen2.5:3b".to_string(), speaker_id: 14 }
    );
    assert_eq!(app.handle_key(Key::Char('l')), KeyAction::OpenSessionList);
    assert_eq!(app.mode, AppMode::SessionSelect);
    assert_eq!(app.handle_key(Key::Char('l')), KeyAction::Nothing);
    assert_eq!(app.mode, AppMode::Chat);
}

#[test]
fn command_letters_are_typed_when_line_is_not_empty() {
    let mut app = App::new();
    typed(&mut app, "aq ns");
    assert_eq!(app.input, "aq ns");
}

#[test]
fn typing_backspace_and_enter() {
    let mut app = App::new();
    typed(&mut app, "今日は");
    assert_eq!(app.handle_key(Key::Backspace), KeyAction::Nothing);
    assert_eq!(app.input, "今日");
    assert_eq!(
        app.handle_key(Key::Enter),
        KeyAction::Submit { text: "今日".to_string(), model: "qwen2.5:3b".to_string(), speaker_id: 14 }
    );
    assert_eq!(app.input, "");
    assert_eq!(app.handle_key(Key::Enter), KeyAction::Nothing);
    assert_eq!(app.handle_key(Key::Backspace), KeyAction::Nothing);
    assert_eq!(app.input, "");
}

#[test]
fn tab_switches_between_two_models() {
    let mut app = App::new();
    app.handle_key(Key::Tab);
    assert_eq!(app.active_model, "phi3:mini");
    app.handle_key(Key::Tab);
    assert_eq!(app.active_model, "qwen2.5:3b");
    typed(&mut app, "x");
    app.handle_key(Key::Tab);
    assert_eq!(app.active_model, "phi3:mini");
}

#[test]
fn s_cycles_through_three_voices() {
    let mut app = App::new();
    app.handle_key(Key::Char('s'));
    assert_eq!((app.active_speaker_id, app.speaker_name.as_str()), (3, "ずんだもん"));
    app.handle_key(Key::Char('s'));
    assert_eq!((app.active_speaker_id, app.speaker_name.as_str()), (2, "四国めたん"));
    app.handle_key(Key::Char('s'));
    assert_eq!((app.active_speaker_id, app.speaker_name.as_str()), (14, "冥鳴ひまり"));
}

#[test]
fn session_list_navigation_wraps() {
    let mut app = app_with_sessions(&["chat_1", "chat_3", "chat_2"]);
    assert_eq!(app.sessions, vec!["chat_3", "chat_2", "chat_1"]);
    app.handle_key(Key::Char('l'));
    app.handle_key(Key::Down);
    assert_eq!(app.selected, Some(0));
    app.handle_key(Key::Up);
    assert_eq!(app.selected, Some(2));
    app.handle_key(Key::Down);
    assert_eq!(app.selected, Some(0));
    app.handle_key(Key::Down);
    assert_eq!(app.selected, Some(1));
    assert_eq!(app.handle_key(Key::Enter), KeyAction::LoadSession("chat_2".to_string()));
    assert_eq!(app.handle_key(Key::Esc), KeyAction::Nothing);
    assert_eq!(app.mode, AppMode::Chat);
}

#[test]
fn navigation_in_empty_list_stays_at_zero() {
    let mut app = App::new();
    app.handle_key(Key::Char('l'));
    app.handle_key(Key::Up);
    assert_eq!(app.selected, Some(0));
    app.handle_key(Key::Down);
    assert_eq!(app.selected, Some(0));
    assert_eq!(app.handle_key(Key::Enter), KeyAction::Nothing);
}

#[test]
fn sessions_start_load_and_save() {
    let mut app = App::new();
    app.start_new_session("20240101_000000");
    assert_eq!(app.current_session_id, "chat_20240101_000000");
    assert_eq!(app.save_target(), Some("sessions/chat_20240101_000000.json".to_string()));
    app.record_message(Message { role: "User".into(), content: "hi".into() });
    assert_eq!(app.messages.len(), 1);
    app.load_session("chat_x".to_string(), None);
    assert_eq!(app.current_session_id, "chat_20240101_000000");
    app.mode = AppMode::SessionSelect;
    app.load_session(
        "chat_x".to_string(),
        Some(vec![Message { role: "Siri".into(), content: "yo".into() }]),
    );
    assert_eq!(app.current_session_id, "chat_x");
    assert_eq!(app.mode, AppMode::Chat);
    assert_eq!(app.messages[0].content, "yo");
    app.start_new_session("t");
    assert!(app.messages.is_empty());
}

#[test]
fn status_and_ticks() {
    let mut app = App::new();
    app.set_status(AppStatus::Thinking);
    assert_eq!(app.status, AppStatus::Thinking);
    assert_eq!(app.advance_tick(), 1);
    assert_eq!(app.advance_tick(), 2);
    assert_eq!(app.tick_count, 2);
}

#[test]
fn keys_never_touch_the_conversation() {
    let mut app = App::new();
    app.start_new_session("20240101_000000");
    app.record_message(Message { role: "User".into(), content: "keep me".into() });
    app.set_status(AppStatus::Idle);
    for key in [
        Key::Char('a'),
        Key::Backspace,
        Key::Tab,
        Key::Char('s'),
        Key::Char('l'),
        Key::Down,
        Key::Up,
        Key::Esc,
        Key::Enter,
        Key::Other,
    ] {
        app.handle_key(key);
        assert_eq!(app.messages, vec![Message { role: "User".into(), content: "keep me".into() }]);
        assert_eq!(app.current_session_id, "chat_20240101_000000");
        assert_eq!(app.status, AppStatus::Idle);
    }
}

#[test]
fn shown_list_pulls_highlight_back() {
    let mut app = app_with_sessions(&["chat_1", "chat_2"]);
    app.handle_key(Key::Char('l'));
    app.selected = Some(5);
    app.show_session_list();
    assert_eq!(app.selected, Some(1));
    assert_eq!(app.handle_key(Key::Enter), KeyAction::LoadSession("chat_1".to_string()));
    app.handle_key(Key::Up);
    assert_eq!(app.selected, Some(0));

    let mut empty = App::new();
    empty.selected = Some(3);
    empty.show_session_list();
    assert_eq!(empty.selected, None);
}
