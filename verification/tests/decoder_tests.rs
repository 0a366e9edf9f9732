//! The wire decoders against literal protocol text: each dialect's frame
//! extraction, the tolerance and abort policies for malformed frames, and
//! chunk-boundary invariance for streams cut at awkward byte positions.

use aether::client::ErrorKind;
use aether::decode::{DecoderSession, Dialect};

fn feed_all(dialect: Dialect, chunks: &[&[u8]]) -> Result<Vec<String>, String> {
    let mut session = DecoderSession::new(dialect);
    let mut out: Vec<String> = Vec::new();
    for chunk in chunks {
        match session.feed(chunk) {
            Ok(frags) => out.extend(frags),
            Err(e) => return Err(e.message()),
        }
    }
    match session.finish() {
        Ok(()) => Ok(out),
        Err(e) => Err(e.message()),
    }
}

#[test]
fn test_anthropic_stream_single_chunk() {
    let text = b"event: content_block_delta\n\
        data: {\"type\":\"content_block_delta\",\"delta\":{\"type\":\"text_delta\",\"text\":\"ls\"}}\n\
        data: {\"type\":\"content_block_delta\",\"delta\":{\"type\":\"text_delta\",\"text\":\" -la\"}}\n\
        data: {\"type\":\"message_stop\"}\n";
    let frags = feed_all(Dialect::Anthropic, &[text]).unwrap();
    assert_eq!(frags, vec!["ls".to_string(), " -la".to_string()]);
}

#[test]
fn test_anthropic_malformed_non_content_skipped() {
    let text = b"data: this is not json at all\n\
        data: {\"type\":\"content_block_delta\",\"delta\":{\"type\":\"text_delta\",\"text\":\"ok\"}}\n";
    let frags = feed_all(Dialect::Anthropic, &[text]).unwrap();
    assert_eq!(frags, vec!["ok".to_string()]);
}

#[test]
fn test_anthropic_content_event_without_text_aborts() {
    let text = b"data: {\"type\":\"content_block_delta\",\"delta\":{\"type\":\"input_json_delta\"}}\n";
    let mut session = DecoderSession::new(Dialect::Anthropic);
    let r = session.feed(text);
    assert!(r.is_err());
    assert!(matches!(r.unwrap_err(), ErrorKind::Decode));
}

#[test]
fn test_openai_stream_with_done_sentinel() {
    let text = b"data: {\"choices\":[{\"delta\":{\"content\":\"git\"}}]}\n\
        data: {\"choices\":[{\"delta\":{\"content\":\" status\"}}]}\n\
        data: [DONE]\n";
    let frags = feed_all(Dialect::OpenAi, &[text]).unwrap();
    assert_eq!(frags, vec!["git".to_string(), " status".to_string()]);
}

#[test]
fn test_openai_batched_choices_kept_in_order() {
    let text = b"data: {\"choices\":[{\"delta\":{\"content\":\"a\"}},{\"delta\":{}},{\"delta\":{\"content\":\"b\"}}]}\n";
    let frags = feed_all(Dialect::OpenAi, &[text]).unwrap();
    assert_eq!(frags, vec!["a".to_string(), "b".to_string()]);
}

#[test]
fn test_openai_malformed_payload_aborts() {
    let text = b"data: {\"choices\": oops}\n";
    let mut session = DecoderSession::new(Dialect::OpenAi);
    let r = session.feed(text);
    assert!(matches!(r, Err(ErrorKind::Decode)));
}

#[test]
fn test_ollama_lines_and_done_flag() {
    let text = b"{\"message\":{\"role\":\"assistant\",\"content\":\"ls\"},\"done\":false}\n\
        \n\
        {\"message\":{\"role\":\"assistant\",\"content\":\" -la\"},\"done\":true}\n";
    let frags = feed_all(Dialect::Ollama, &[text]).unwrap();
    assert_eq!(frags, vec!["ls".to_string(), " -la".to_string()]);
}

#[test]
fn test_ollama_malformed_line_skipped() {
    let text = b"not json\n{\"message\":{\"content\":\"ok\"},\"done\":true}\n";
    let frags = feed_all(Dialect::Ollama, &[text]).unwrap();
    assert_eq!(frags, vec!["ok".to_string()]);
}

#[test]
fn test_gemini_candidates_and_parts_in_order() {
    let text = b"{\"candidates\":[{\"content\":{\"parts\":[{\"text\":\"fi\"},{\"text\":\"nd\"}]}}]}\n\
        {\"candidates\":[{\"content\":{\"parts\":[{\"text\":\" .\"}]}}]}\n";
    let frags = feed_all(Dialect::Gemini, &[text]).unwrap();
    assert_eq!(frags, vec!["fi".to_string(), "nd".to_string(), " .".to_string()]);
}

#[test]
fn test_chunk_boundary_invariance_mid_line() {
    let whole: &[u8] = b"data: {\"choices\":[{\"delta\":{\"content\":\"hello\"}}]}\n\
        data: {\"choices\":[{\"delta\":{\"content\":\" world\"}}]}\n";
    let single = feed_all(Dialect::OpenAi, &[whole]).unwrap();

    for cut in 0..whole.len() {
        let split = feed_all(Dialect::OpenAi, &[&whole[..cut], &whole[cut..]]).unwrap();
        assert_eq!(split, single);
    }
}

#[test]
fn test_chunk_boundary_invariance_byte_at_a_time() {
    let whole: &[u8] = b"data: {\"type\":\"content_block_delta\",\"delta\":{\"text\":\"ab\"}}\r\n\
        data: {\"type\":\"ping\"}\r\n\
        data: {\"type\":\"content_block_delta\",\"delta\":{\"text\":\"cd\"}}\r\n";
    let single = feed_all(Dialect::Anthropic, &[whole]).unwrap();

    let bytes: Vec<&[u8]> = (0..whole.len()).map(|i| &whole[i..i + 1]).collect();
    let split = feed_all(Dialect::Anthropic, &bytes).unwrap();
    assert_eq!(split, single);
    assert_eq!(split, vec!["ab".to_string(), "cd".to_string()]);
}

#[test]
fn test_incomplete_trailing_line_is_a_decode_error() {
    let mut session = DecoderSession::new(Dialect::Ollama);
    let frags = session
        .feed(b"{\"message\":{\"content\":\"ok\"},\"done\":false}\n{\"message\":")
        .unwrap();
    assert_eq!(frags, vec!["ok".to_string()]);
    let r = session.finish();
    assert!(matches!(r, Err(ErrorKind::Decode)));
}

#[test]
fn test_clean_finish_after_complete_lines() {
    let mut session = DecoderSession::new(Dialect::Gemini);
    session.feed(b"{\"candidates\":[]}\n").unwrap();
    assert!(session.finish().is_ok());
}

#[test]
fn test_lines_without_marker_are_skipped() {
    let text = b"event: ping\nretry: 1000\n\ndata: [DONE]\n";
    let frags = feed_all(Dialect::OpenAi, &[text]).unwrap();
    assert!(frags.is_empty());
}
