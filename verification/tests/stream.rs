use santosobot::config::ProviderConfig;
use santosobot::json::{parse, Json};
use santosobot::providers::types::{StreamChoice, StreamDelta, StreamResponse};
use santosobot::providers::{
    decode_frame, decode_frames, delta_of, FrameDecoder, FrameEvent, OpenAIProvider,
};

#[test]
fn frames_yield_their_text_in_order_and_end() {
    let chunk = "data: {\"choices\":[{\"delta\":{\"content\":\"He\"}}]}\ndata: {\"choices\":[{\"delta\":{\"content\":\"llo\"}}]}\ndata: [DONE]\n";
    let batch = decode_frames(chunk);
    assert_eq!(batch.items, vec!["He", "llo"]);
    assert!(batch.done);
}

#[test]
fn nothing_is_read_behind_the_end() {
    let chunk = "data: [DONE]\ndata: {\"choices\":[{\"delta\":{\"content\":\"late\"}}]}\n";
    let batch = decode_frames(chunk);
    assert!(batch.items.is_empty());
    assert!(batch.done);
}

#[test]
fn bad_frames_are_passed_over() {
    let chunk = "event: ping\r\ndata: {broken\r\n\r\ndata: {\"choices\":[]}\ndata: {\"choices\":[{\"delta\":{\"content\":\"\"}}]}\ndata: {\"choices\":[{\"delta\":{\"role\":\"assistant\"}}]}\ndata:{\"choices\":[{\"delta\":{\"content\":\"no space\"}}]}\ndata: {\"id\":\"x\",\"choices\":[{\"delta\":{\"content\":\"ok\"},\"finish_reason\":null}]}";
    let batch = decode_frames(chunk);
    assert_eq!(batch.items, vec!["ok"]);
    assert!(!batch.done);
    let empty = decode_frames("");
    assert!(empty.items.is_empty());
    assert!(!empty.done);
}

#[test]
fn a_frame_cut_by_a_piece_is_not_lost() {
    let mut decoder = FrameDecoder::new();
    assert!(decoder.feed("data: {\"choices\":[{\"delta\":{\"con").is_empty());
    assert_eq!(decoder.feed("tent\":\"He\"}}]}\ndata: {\"choices\""), vec!["He"]);
    assert!(decoder.feed("").is_empty());
    assert_eq!(
        decoder.feed(":[{\"delta\":{\"content\":\"llo\"}}]}\r\n\r\ndata: [DO"),
        vec!["llo"]
    );
    assert!(!decoder.is_done());
    assert!(decoder.feed("NE]\ndata: {\"choices\":[{\"delta\":{\"content\":\"late\"}}]}\n").is_empty());
    assert!(decoder.is_done());
    assert!(decoder.feed("data: {\"choices\":[{\"delta\":{\"content\":\"later\"}}]}\n").is_empty());
    assert!(decoder.finish().is_empty());
    assert!(decoder.is_done());
}

#[test]
fn the_last_line_is_read_at_the_end() {
    let mut decoder = FrameDecoder::new();
    assert_eq!(
        decoder.feed("data: {\"choices\":[{\"delta\":{\"content\":\"a\"}}]}\ndata: {\"choices\":[{\"delta\":{\"content\":\"b\"}}]}"),
        vec!["a"]
    );
    assert_eq!(decoder.finish(), vec!["b"]);
    assert!(decoder.is_done());
    assert!(decoder.feed("data: {\"choices\":[{\"delta\":{\"content\":\"c\"}}]}\n").is_empty());
    let mut empty = FrameDecoder::new();
    assert!(empty.finish().is_empty());
    assert!(empty.is_done());
}

#[test]
fn pieces_give_what_the_whole_gives() {
    let whole = "data: {\"choices\":[{\"delta\":{\"content\":\"He\"}}]}\n\ndata: {\"choices\":[{\"delta\":{\"content\":\"llo\"}}]}\n\ndata: [DONE]\n\n";
    let chars: Vec<char> = whole.chars().collect();
    for cut in 0..=chars.len() {
        let first: String = chars[..cut].iter().collect();
        let second: String = chars[cut..].iter().collect();
        let mut decoder = FrameDecoder::new();
        let mut items = decoder.feed(&first);
        items.extend(decoder.feed(&second));
        items.extend(decoder.finish());
        assert_eq!(items, vec!["He", "llo"]);
    }
}

#[test]
fn single_frames() {
    assert!(matches!(decode_frame("data: [DONE]"), FrameEvent::Done));
    assert!(matches!(decode_frame("data: [DONE] "), FrameEvent::Skip));
    assert!(matches!(decode_frame(" data: [DONE]"), FrameEvent::Skip));
    assert!(matches!(decode_frame("data: "), FrameEvent::Skip));
    match decode_frame("data: {\"choices\":[{\"delta\":{\"content\":\"Hé 🤖\"}},{\"delta\":{\"content\":\"second\"}}]}") {
        FrameEvent::Item(text) => assert_eq!(text, "Hé 🤖"),
        other => panic!("unexpected event {:?}", other),
    }
}

#[test]
fn delta_of_reads_the_first_choice() {
    let frame = parse("{\"choices\":[{\"delta\":{\"content\":\"He\"}}]}").unwrap();
    assert_eq!(delta_of(&frame), Some("He".to_string()));
    let empty = parse("{\"choices\":[{\"delta\":{\"content\":\"\"}}]}").unwrap();
    assert_eq!(delta_of(&empty), None);
    let number = parse("{\"choices\":[{\"delta\":{\"content\":5}}]}").unwrap();
    assert_eq!(delta_of(&number), None);
    assert_eq!(delta_of(&Json::Null), None);
    assert_eq!(delta_of(&Json::Object(vec![("choices".to_string(), Json::Array(vec![]))])), None);
}

#[test]
fn typed_frame_carries_its_first_text() {
    let frame = StreamResponse {
        id: "f1".to_string(),
        choices: vec![
            StreamChoice {
                delta: StreamDelta { role: None, content: Some("He".to_string()) },
                finish_reason: None,
            },
            StreamChoice {
                delta: StreamDelta { role: None, content: Some("other".to_string()) },
                finish_reason: None,
            },
        ],
    };
    assert_eq!(frame.first_text(), Some("He"));
    let silent = StreamResponse {
        id: "f2".to_string(),
        choices: vec![StreamChoice {
            delta: StreamDelta { role: Some("assistant".to_string()), content: Some(String::new()) },
            finish_reason: Some("stop".to_string()),
        }],
    };
    assert_eq!(silent.first_text(), None);
    assert_eq!(StreamResponse { id: String::new(), choices: vec![] }.first_text(), None);
}

#[test]
fn provider_addresses_requests() {
    let mut config = ProviderConfig::default();
    config.api_key = "sk-test".to_string();
    config.model = "base-model".to_string();
    config.api_base = "https://api.example.com/v1///".to_string();
    let provider = OpenAIProvider::new(config);
    assert_eq!(provider.endpoint(), "https://api.example.com/v1/chat/completions");
    assert_eq!(provider.authorization(), "Bearer sk-test");
    assert_eq!(
        provider.api_error("401 Unauthorized", "{\"error\":\"bad key\"}"),
        "LLM API error: 401 Unauthorized - {\"error\":\"bad key\"}"
    );
    assert_eq!(provider.model_or_default(None), "base-model");
    assert_eq!(provider.model_or_default(Some("other".to_string())), "other");
    let plain = OpenAIProvider::new(ProviderConfig::default());
    assert_eq!(plain.endpoint(), "https://api.openai.com/v1/chat/completions");
}
