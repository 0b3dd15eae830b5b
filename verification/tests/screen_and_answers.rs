use voice_assistant::app_state::{App, AppStatus, Message};
use voice_assistant::assistant::{
    assistant_message, plan_interaction, system_message, user_message, wants_news, Interaction,
};
use voice_assistant::display::{format_message, role_color, visualizer_color, Tint};
use voice_assistant::layout::{centered_rect, screen_panes, Area};
use voice_assistant::services::{readiness, Readiness};

const BASE: &str = "あなたは優秀なアシスタントです。必ず日本語で、短く簡潔に回答してください。";

fn news(n: usize) -> Vec<String> {
    (1..=n).map(|i| format!("見出し{}", i)).collect()
}

#[test]
fn empty_utterance_is_ignored() {
    assert_eq!(plan_interaction("", &news(3)), Interaction::Ignore);
}

#[test]
fn music_request_starts_player() {
    let expected = Interaction::LaunchMusic {
        notice: "音楽プレイヤーを起動します...".to_string(),
        reply: "はい、音楽プレイヤーを起動しますね。".to_string(),
    };
    assert_eq!(plan_interaction("音楽かけて", &news(0)), expected);
    assert_eq!(plan_interaction("ミュージックを", &news(0)), expected);
}

#[test]
fn plain_question_gets_base_prompt() {
    assert_eq!(
        plan_interaction("天気は?", &news(3)),
        Interaction::Converse { system_prompt: BASE.to_string() }
    );
    assert_eq!(
        plan_interaction("ニュースは?", &news(0)),
        Interaction::Converse { system_prompt: BASE.to_string() }
    );
}

#[test]
fn news_question_lists_at_most_five_headlines() {
    let expected = format!(
        "{}\n最新ニュース:\n1. 見出し1\n2. 見出し2\n3. 見出し3\n4. 見出し4\n5. 見出し5\n",
        BASE
    );
    assert_eq!(
        plan_interaction("今日のニュース", &news(7)),
        Interaction::Converse { system_prompt: expected }
    );
    let two = format!("{}\n最新ニュース:\n1. 見出し1\n2. 見出し2\n", BASE);
    assert_eq!(
        plan_interaction("何か出来事ある?", &news(2)),
        Interaction::Converse { system_prompt: two }
    );
}

#[test]
fn message_constructors() {
    assert_eq!(user_message("a"), Message { role: "User".into(), content: "a".into() });
    assert_eq!(assistant_message("b"), Message { role: "Siri".into(), content: "b".into() });
    assert_eq!(system_message("Ready!"), Message { role: "System".into(), content: "Ready!".into() });
}

#[test]
fn colours() {
    assert_eq!(role_color("User"), Tint::Yellow);
    assert_eq!(role_color("Siri"), Tint::Green);
    assert_eq!(role_color("System"), Tint::DarkGray);
    assert_eq!(visualizer_color(AppStatus::Thinking), Tint::Cyan);
    assert_eq!(visualizer_color(AppStatus::Speaking), Tint::Magenta);
    assert_eq!(visualizer_color(AppStatus::Listening), Tint::Red);
    assert_eq!(visualizer_color(AppStatus::Idle), Tint::Blue);
    assert_eq!(visualizer_color(AppStatus::StartingServices), Tint::Blue);
}

#[test]
fn screen_shows_last_ten_messages() {
    let mut app = App::new();
    for i in 0..12 {
        let role = if i % 2 == 0 { "User" } else { "Siri" };
        app.record_message(Message { role: role.into(), content: format!("m{}", i) });
    }
    let lines = app.visible_lines();
    assert_eq!(lines.len(), 10);
    assert_eq!(lines[0], ("User: m2".to_string(), Tint::Yellow));
    assert_eq!(lines[9], ("Siri: m11".to_string(), Tint::Green));
    assert_eq!(format_message(&Message { role: "System".into(), content: "Ready!".into() }), "System: Ready!");
}

#[test]
fn titles() {
    let mut app = App::new();
    app.start_new_session("20240101_000000");
    assert_eq!(app.chat_title(), "Chat: chat_20240101_000000");
    assert_eq!(app.system_info(), "Model: qwen2.5:3b | Voice: 冥鳴ひまり | [N] New [L] List");
}

#[test]
fn popup_is_centred() {
    let r = Area { x: 0, y: 0, width: 100, height: 50 };
    assert_eq!(centered_rect(60, 60, r), Area { x: 20, y: 10, width: 60, height: 30 });
    let full = centered_rect(100, 100, r);
    assert_eq!(full, r);
}

#[test]
fn startup_probes() {
    assert_eq!(readiness(0, true, true), Readiness::Ready);
    assert_eq!(readiness(0, true, false), Readiness::Retry);
    assert_eq!(readiness(28, false, true), Readiness::Retry);
    assert_eq!(readiness(29, false, false), Readiness::GiveUp);
    assert_eq!(readiness(29, true, true), Readiness::Ready);
}

#[test]
fn popup_stays_inside_an_offset_area() {
    let r = Area { x: 10, y: 5, width: 41, height: 23 };
    let c = centered_rect(60, 60, r);
    assert_eq!(c, Area { x: 18, y: 10, width: 25, height: 13 });
    assert_eq!(centered_rect(50, 50, Area { x: 0, y: 0, width: 2, height: 2 }), Area { x: 1, y: 1, width: 1, height: 1 });
    assert!(r.x <= c.x && c.x + c.width <= r.x + r.width);
    assert!(r.y <= c.y && c.y + c.height <= r.y + r.height);
}

#[test]
fn screen_has_four_stacked_panes() {
    let screen = Area { x: 0, y: 0, width: 80, height: 40 };
    let panes = screen_panes(screen);
    assert_eq!(panes.len(), 4);
    for p in &panes {
        assert_eq!((p.x, p.width), (0, 80));
        assert!(p.y + p.height <= 40);
    }
    assert_eq!(panes[0], Area { x: 0, y: 0, width: 80, height: 14 });
    assert_eq!(panes[2].height, 3);
    assert_eq!(panes[3].height, 3);
    assert!(panes[1].height >= 5);
}

#[test]
fn news_questions() {
    assert!(wants_news("今日のニュース"));
    assert!(wants_news("何か出来事は"));
    assert!(!wants_news("天気"));
}

fn rounded_offset(origin: u32, size: u32, total: u32) -> u32 {
    (100 * origin + size * total + 50) / 100
}

fn expected_centre(px: u16, py: u16, r: Area) -> Area {
    let (sx, sy) = (((100 - px) / 2) as u32, ((100 - py) / 2) as u32);
    let y0 = rounded_offset(r.y as u32, r.height as u32, sy);
    let y1 = rounded_offset(r.y as u32, r.height as u32, sy + py as u32);
    let x0 = rounded_offset(r.x as u32, r.width as u32, sx);
    let x1 = rounded_offset(r.x as u32, r.width as u32, sx + px as u32);
    Area { x: x0 as u16, y: y0 as u16, width: (x1 - x0) as u16, height: (y1 - y0) as u16 }
}

#[test]
fn popup_matches_rounded_percentages_everywhere() {
    for w in 0..70u16 {
        for h in [0u16, 1, 2, 3, 7, 19, 50] {
            for p in [0u16, 1, 10, 33, 50, 60, 77, 99, 100] {
                let r = Area { x: w % 7, y: h % 5, width: w, height: h };
                assert_eq!(centered_rect(p, 100 - p / 2, r), expected_centre(p, 100 - p / 2, r));
            }
        }
    }
}
