use voice_assistant::news::{collect_headlines, feed_headlines, keep_present, NewsMonitor, NewsUpdate};
use voice_assistant::transcribe::{join_segments, transcript_from_result, TranscribeError};
use voice_assistant::voicevox::VoicevoxClient;

const FEED: &str = r#"<?xml version="1.0" encoding="UTF-8"?>
<rss version="2.0"><channel><title>NHK</title><link>https://example.org</link><description>d</description>
<item><title>地震のニュース</title></item>
<item><description>no title</description></item>
<item><title>天気</title></item>
</channel></rss>"#;

#[test]
fn feed_titles_in_order() {
    assert_eq!(feed_headlines(FEED.as_bytes()), vec!["地震のニュース", "天気"]);
}

#[test]
fn broken_feed_has_no_headlines() {
    assert!(feed_headlines(b"not xml at all").is_empty());
}

#[test]
fn headlines_of_several_feeds() {
    let feeds = vec![FEED.as_bytes().to_vec(), b"junk".to_vec(), FEED.as_bytes().to_vec()];
    assert_eq!(collect_headlines(&feeds), vec!["地震のニュース", "天気", "地震のニュース", "天気"]);
}

#[test]
fn keep_present_drops_missing_titles() {
    assert_eq!(
        keep_present(&vec![Some("a".to_string()), None, Some("b".to_string())]),
        vec!["a", "b"]
    );
}

#[test]
fn breaking_news_only_on_change() {
    let mut m = NewsMonitor::new();
    let first = vec!["A".to_string(), "B".to_string()];
    assert_eq!(m.observe(&first), NewsUpdate { alert: None, store: true });
    assert_eq!(m.observe(&first), NewsUpdate { alert: None, store: true });
    let second = vec!["C".to_string()];
    assert_eq!(
        m.observe(&second),
        NewsUpdate { alert: Some("ニュース速報です。C".to_string()), store: true }
    );
    assert_eq!(m.observe(&Vec::new()), NewsUpdate { alert: None, store: false });
    assert_eq!(m.observe(&second), NewsUpdate { alert: None, store: true });
}

#[test]
fn vosk_result_text_is_the_transcript() {
    assert_eq!(transcript_from_result(Some("こんにちは")), Ok("こんにちは".to_string()));
    assert_eq!(transcript_from_result(Some("")), Ok(String::new()));
    assert_eq!(transcript_from_result(None), Err(TranscribeError::NoResult));
    assert_eq!(TranscribeError::NoResult.message(), "No transcription result");
}

#[test]
fn whisper_segments_joined() {
    let segs = vec![Some("今日は".to_string()), None, Some("晴れ".to_string())];
    assert_eq!(join_segments(&segs), "今日は晴れ");
    assert_eq!(join_segments(&Vec::new()), "");
}

#[test]
fn voicevox_urls() {
    let c = VoicevoxClient::new("http://localhost:50021");
    assert_eq!(
        c.audio_query_url("こんにちは", 14),
        "http://localhost:50021/audio_query?text=%E3%81%93%E3%82%93%E3%81%AB%E3%81%A1%E3%81%AF&speaker=14"
    );
    assert_eq!(c.audio_query_url("a b-c_d.e~f!", 3), "http://localhost:50021/audio_query?text=a%20b-c_d.e~f%21&speaker=3");
    assert_eq!(c.synthesis_url(2), "http://localhost:50021/synthesis?speaker=2");
}
