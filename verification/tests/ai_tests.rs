use std::collections::VecDeque;

use manami::ai::{request_headers, reply_outcome, ChatBackend, ChatMessage, Role, MANAMI_PROMPT, MATOME_PROMPT, MAX_LOG};
use manami::gpt::{GptAI, GptBackend, GptModel};

fn messages_of(body: &str) -> Vec<(String, String)> {
    let v: serde_json::Value = serde_json::from_str(body).unwrap();
    v["messages"]
        .as_array()
        .unwrap()
        .iter()
        .map(|m| {
            (
                m["role"].as_str().unwrap().to_owned(),
                m["content"].as_str().unwrap().to_owned(),
            )
        })
        .collect()
}

fn model_of(body: &str) -> String {
    let v: serde_json::Value = serde_json::from_str(body).unwrap();
    v["model"].as_str().unwrap().to_owned()
}

#[test]
fn test_gpt_generate() {
    let mut ai = GptAI::manami("");
    ai.add_user_log("宇田", "まなさ、おはよう！　今日は何をする予定？");
    let model = ai.get_model();
    let body = ai.request_body(&model);
    let expected = format!(
        "{{\"model\":\"gpt-5-nano\",\"messages\":[{{\"role\":\"system\",\"content\":{}}},{{\"role\":\"user\",\"content\":{}}}]}}",
        serde_json::to_string(MANAMI_PROMPT).unwrap(),
        serde_json::to_string("宇田: まなさ、おはよう！　今日は何をする予定？").unwrap()
    );
    assert_eq!(body, expected);
    assert_eq!(ai.debug(), expected);
}

#[test]
fn user_message_is_prefixed_with_name() {
    let m = ChatMessage::user("alice", "hi");
    assert_eq!(m.role, Role::User);
    assert_eq!(m.text, "alice: hi");
    let m = ChatMessage::model("hello");
    assert_eq!(m.role, Role::Model);
    assert_eq!(m.text, "hello");
}

#[test]
fn new_client_has_no_instruction_and_empty_log() {
    let ai = GptAI::new("key");
    assert_eq!(ai.debug(), "{\"model\":\"gpt-5-nano\",\"messages\":[]}");
}

#[test]
fn system_instruction_is_sent_first_when_not_empty() {
    let mut ai = GptAI::new("key");
    ai.add_model_log("ok");
    ai.set_system_instruction("be brief");
    assert_eq!(
        messages_of(&ai.debug()),
        vec![("system".to_owned(), "be brief".to_owned()), ("assistant".to_owned(), "ok".to_owned())]
    );
    ai.set_system_instruction("");
    assert_eq!(messages_of(&ai.debug()), vec![("assistant".to_owned(), "ok".to_owned())]);
}

#[test]
fn log_keeps_the_last_five_hundred_messages() {
    let mut ai = GptAI::new("key");
    for i in 0..(MAX_LOG + 1) {
        ai.add_user_log("u", &i.to_string());
    }
    let msgs = messages_of(&ai.debug());
    assert_eq!(msgs.len(), 500);
    assert_eq!(msgs[0].1, "u: 1");
    assert_eq!(msgs[499].1, "u: 500");
}

#[test]
fn model_log_is_capped_too() {
    let mut ai = GptAI::new("key");
    for i in 0..502 {
        ai.add_model_log(&i.to_string());
    }
    let msgs = messages_of(&ai.debug());
    assert_eq!(msgs.len(), 500);
    assert_eq!(msgs[0], ("assistant".to_owned(), "2".to_owned()));
}

#[test]
fn bulk_marks_model_entries_and_trims() {
    let mut ai = GptAI::new("key");
    ai.add_log_bulk(vec![("model".to_owned(), "reply"), ("bob".to_owned(), "question")]);
    assert_eq!(
        messages_of(&ai.debug()),
        vec![
            ("assistant".to_owned(), "reply".to_owned()),
            ("user".to_owned(), "bob: question".to_owned())
        ]
    );
    let texts: Vec<String> = (0..600).map(|i| i.to_string()).collect();
    let batch: Vec<(String, &str)> = texts.iter().map(|t| ("u".to_owned(), t.as_str())).collect();
    ai.add_log_bulk(batch);
    let msgs = messages_of(&ai.debug());
    assert_eq!(msgs.len(), 500);
    assert_eq!(msgs[0].1, "u: 100");
    assert_eq!(msgs[499].1, "u: 599");
}

#[test]
fn bulk_equals_one_by_one() {
    let mut a = GptAI::new("key");
    let mut b = GptAI::new("key");
    let texts: Vec<String> = (0..510).map(|i| i.to_string()).collect();
    for t in &texts {
        a.add_user_log("x", t);
    }
    b.add_log_bulk(texts.iter().map(|t| ("x".to_owned(), t.as_str())).collect());
    assert_eq!(a.debug(), b.debug());
}

#[test]
fn clear_empties_the_log() {
    let mut ai = GptAI::manami("key");
    ai.add_user_log("a", "b");
    ai.clear();
    assert_eq!(messages_of(&ai.debug()).len(), 1);
}

#[test]
fn set_model_then_get_model() {
    let mut ai = GptAI::new("key");
    assert_eq!(ai.get_model(), GptModel::Gpt5Nano);
    ai.set_model(GptModel::Gpt5);
    assert_eq!(ai.get_model(), GptModel::Gpt5);
    assert_eq!(model_of(&ai.debug()), "gpt-5");
    assert_eq!(model_of(&ai.request_body(&GptModel::Gpt5Mini)), "gpt-5-mini");
}

#[test]
fn successful_generation_is_logged() {
    let mut ai = GptAI::new("key");
    let r = ai.complete_generation(200, "answer".to_owned());
    assert_eq!(r, Ok("answer".to_owned()));
    assert_eq!(messages_of(&ai.debug()), vec![("assistant".to_owned(), "answer".to_owned())]);
}

#[test]
fn failed_generation_is_an_error_and_not_logged() {
    let mut ai = GptAI::new("key");
    let r = ai.complete_generation(500, "boom".to_owned());
    assert_eq!(r, Err("boom".to_owned()));
    assert!(messages_of(&ai.debug()).is_empty());
    assert_eq!(reply_outcome(299, "x".to_owned()), Ok("x".to_owned()));
}

#[test]
fn summary_request_uses_default_model_and_summary_instruction() {
    let (model, body) = GptAI::summary_request(vec![ChatMessage::user("a", "hello"), ChatMessage::model("hi")]);
    assert_eq!(model, GptModel::Gpt5Nano);
    assert_eq!(model_of(&body), "gpt-5-nano");
    assert_eq!(
        messages_of(&body),
        vec![
            ("system".to_owned(), MATOME_PROMPT.to_owned()),
            ("user".to_owned(), "a: hello".to_owned()),
            ("assistant".to_owned(), "hi".to_owned())
        ]
    );
}

#[test]
fn endpoint_and_headers() {
    assert_eq!(GptBackend::endpoint(&GptModel::Gpt5), "https://api.openai.com/v1/chat/completions");
    assert_eq!(GptBackend::headers("sk"), vec![("Authorization", "Bearer sk".to_owned())]);
    assert_eq!(
        request_headers::<GptBackend>("sk"),
        vec![("Content-Type", "application/json".to_owned()), ("Authorization", "Bearer sk".to_owned())]
    );
}

#[test]
fn body_escapes_like_serde_json() {
    let text = "quote \" backslash \\ newline \n tab \t bell \u{7} del \u{7f} \u{8}\u{c}\r é";
    let mut contents = VecDeque::new();
    contents.push_back(ChatMessage::model(text));
    let body = GptBackend::build_body(&GptModel::Gpt5Mini, "", &contents);
    let expected = format!(
        "{{\"model\":\"gpt-5-mini\",\"messages\":[{{\"role\":\"assistant\",\"content\":{}}}]}}",
        serde_json::to_string(text).unwrap()
    );
    assert_eq!(body, expected);
    assert!(body.contains("\\u0007"));
}

#[test]
fn parse_response_picks_first_choice() {
    assert_eq!(
        GptBackend::parse_response("b", Ok(vec!["one".to_owned(), "two".to_owned()])),
        Ok("one".to_owned())
    );
    assert_eq!(GptBackend::parse_response("b", Ok(vec![])), Err("No choices found".to_owned()));
    assert_eq!(
        GptBackend::parse_response("{bad", Err("expected value".to_owned())),
        Err("Failed to parse response: expected value\n {bad".to_owned())
    );
}

#[test]
fn model_names_round_trip() {
    for m in [GptModel::Gpt5, GptModel::Gpt5Mini, GptModel::Gpt5Nano] {
        assert_eq!(GptModel::from_name(m.as_str()), m);
        assert_eq!(GptModel::from(m.as_str()), m);
    }
    assert_eq!(GptModel::from_name("gpt-4"), GptModel::Gpt5Nano);
    assert_eq!(GptModel::default(), GptModel::Gpt5Nano);
}

#[test]
fn status_ranges() {
    assert_eq!(reply_outcome(199, "x".to_owned()), Err("x".to_owned()));
    assert_eq!(reply_outcome(200, "x".to_owned()), Ok("x".to_owned()));
    assert_eq!(reply_outcome(300, "x".to_owned()), Err("x".to_owned()));
    assert_eq!(reply_outcome(42, "x".to_owned()), Err("x".to_owned()));
    assert_eq!(reply_outcome(1200, "x".to_owned()), Err("x".to_owned()));
}
