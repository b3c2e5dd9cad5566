use downloader::event::ProcessEvent;
use downloader::outcome::{conclude, into_text};
use downloader::video_info::VideoInfo;
use serde_json::Value;

fn text_field(document: &Value, key: &str) -> Option<String> {
    document.get(key).and_then(|value| value.as_str()).map(|text| text.to_string())
}

/// Reads the fields of a metadata document that the extractor printed.
fn read_info(printed: &str) -> VideoInfo {
    let document: Value = serde_json::from_str(printed).expect("Failed to deserialize JSON");
    VideoInfo {
        id: text_field(&document, "id").unwrap_or_default(),
        title: text_field(&document, "title").unwrap_or_default(),
        thumbnail: text_field(&document, "thumbnail"),
        duration: document.get("duration").and_then(|value| value.as_u64()).map(|n| n as u32),
        uploader: text_field(&document, "uploader"),
    }
}

/// What the caller receives when the child prints `document` in two chunks
/// and ends with the code zero.
fn fetched(document: Value) -> String {
    let printed = document.to_string().into_bytes();
    let middle = printed.len() / 2;
    let mut cut = middle;
    while cut < printed.len() && (printed[cut] & 0xC0) == 0x80 {
        cut += 1;
    }
    let events = vec![
        ProcessEvent::StdoutChunk(printed[..cut].to_vec()),
        ProcessEvent::StdoutChunk(printed[cut..].to_vec()),
        ProcessEvent::Terminated(Some(0)),
    ];
    let received = into_text(conclude(Ok(events))).expect("the invocation succeeds");
    assert_eq!(received.as_bytes(), &printed[..]);
    received
}

fn text(value: &str) -> Value {
    Value::String(value.to_string())
}

#[test]
fn test_video_info_deserialization() {
    let mut fields = serde_json::Map::new();
    fields.insert("id".to_string(), text("dQw4w9WgXcQ"));
    fields.insert("title".to_string(), text("Rick Astley - Never Gonna Give You Up"));
    fields.insert("thumbnail".to_string(), text("https://example.com/thumb.jpg"));
    fields.insert("duration".to_string(), Value::from(212));
    fields.insert("uploader".to_string(), text("Rick Astley"));

    let parsed = read_info(&fetched(Value::Object(fields)));

    assert_eq!(parsed.id, "dQw4w9WgXcQ");
    assert_eq!(parsed.title, "Rick Astley - Never Gonna Give You Up");
    assert_eq!(parsed.thumbnail, Some("https://example.com/thumb.jpg".to_string()));
    assert_eq!(parsed.duration, Some(212));
    assert_eq!(parsed.uploader, Some("Rick Astley".to_string()));
}

#[test]
fn test_video_info_partial_deserialization() {
    let mut fields = serde_json::Map::new();
    fields.insert("id".to_string(), text("12345"));
    fields.insert("title".to_string(), text("Unknown Video"));

    let parsed = read_info(&fetched(Value::Object(fields)));

    assert_eq!(parsed.id, "12345");
    assert_eq!(parsed.duration, None);
    assert_eq!(parsed.uploader, None);
}

#[test]
fn test_video_info_empty_json() {
    let parsed = read_info(&fetched(Value::Object(serde_json::Map::new())));

    assert_eq!(parsed.id, "");
    assert_eq!(parsed.title, "");
    assert_eq!(parsed.thumbnail, None);
    assert_eq!(parsed.duration, None);
    assert_eq!(parsed.uploader, None);
}

#[test]
fn test_video_info_complex_json() {
    let mut format = serde_json::Map::new();
    format.insert("format_id".to_string(), text("137"));
    format.insert("ext".to_string(), text("mp4"));
    format.insert("resolution".to_string(), text("1920x1080"));
    format.insert("fps".to_string(), Value::from(60));
    format.insert("vcodec".to_string(), text("avc1.640028"));
    format.insert("acodec".to_string(), text("none"));

    let mut fields = serde_json::Map::new();
    fields.insert("id".to_string(), text("abc123"));
    fields.insert("title".to_string(), text("Test Video"));
    fields.insert(
        "thumbnail".to_string(),
        text("https://i.ytimg.com/vi/abc123/maxresdefault.jpg"),
    );
    fields.insert("duration".to_string(), Value::from(3600));
    fields.insert("uploader".to_string(), text("Test Channel"));
    fields.insert("uploader_id".to_string(), text("UCxxx"));
    fields.insert("upload_date".to_string(), text("20240101"));
    fields.insert("description".to_string(), text("This is a test video"));
    fields.insert("view_count".to_string(), Value::from(1000000));
    fields.insert("like_count".to_string(), Value::from(50000));
    fields.insert("formats".to_string(), Value::Array(vec![Value::Object(format)]));

    let parsed = read_info(&fetched(Value::Object(fields)));

    assert_eq!(parsed.id, "abc123");
    assert_eq!(parsed.title, "Test Video");
    assert_eq!(parsed.duration, Some(3600));
}

#[test]
fn test_video_info_special_chars() {
    let mut fields = serde_json::Map::new();
    fields.insert("id".to_string(), text("test_123-abc"));
    fields.insert("title".to_string(), text("Test Video 🎵 日本語"));
    fields.insert("thumbnail".to_string(), text("https://example.com/thumb?size=large"));
    fields.insert("duration".to_string(), Value::from(0));
    fields.insert("uploader".to_string(), text("Channel & Co."));

    let parsed = read_info(&fetched(Value::Object(fields)));

    assert_eq!(parsed.id, "test_123-abc");
    assert_eq!(parsed.title, "Test Video 🎵 日本語");
    assert_eq!(parsed.uploader, Some("Channel & Co.".to_string()));
}
