use clio_ai::{read_gemini_reply, read_groq_reply, read_ollama_reply, ReplyError};

#[test]
fn gemini_answer_is_found() {
    let body = "{\"candidates\": [{\"content\": {\"parts\": [{\"text\": \"{\\\"response\\\": \\\"hi\\\"}\"}], \"role\": \"model\"}}]}";
    assert_eq!(read_gemini_reply(body).ok().as_deref(), Some("{\"response\": \"hi\"}"));
}

#[test]
fn gemini_error_message_comes_first() {
    let body = "{\"error\": {\"code\": 400, \"message\": \"API key not valid\"}}";
    assert!(matches!(read_gemini_reply(body), Err(ReplyError::Api(ref m)) if m == "API key not valid"));
}

#[test]
fn gemini_without_candidates_is_missing() {
    assert!(matches!(read_gemini_reply("{\"candidates\": []}"), Err(ReplyError::Missing)));
    assert!(matches!(read_gemini_reply("not json"), Err(ReplyError::Malformed)));
}

#[test]
fn groq_answer_is_found() {
    let body = "{\"choices\": [{\"index\": 0, \"message\": {\"role\": \"assistant\", \"content\": \"ok\"}}]}";
    assert_eq!(read_groq_reply(body).ok().as_deref(), Some("ok"));
    assert!(matches!(read_groq_reply("{\"choices\": [{\"message\": {\"content\": 3}}]}"), Err(ReplyError::Missing)));
}

#[test]
fn ollama_answer_must_not_be_empty() {
    assert_eq!(read_ollama_reply("{\"response\": \"text\", \"done\": true}").ok().as_deref(), Some("text"));
    assert!(matches!(read_ollama_reply("{\"response\": \"\"}"), Err(ReplyError::Empty)));
    assert!(matches!(read_ollama_reply("{\"done\": true}"), Err(ReplyError::Missing)));
    assert!(matches!(read_ollama_reply("{"), Err(ReplyError::Malformed)));
}
