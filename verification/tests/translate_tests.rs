use translate_me::settings::Provider;
use translate_me::translate::{
    answer_text, begin_translation, chat_url, finish_translation, instruction_for, request_body,
    request_headers, ChatReply, MISSING_API_KEY_MESSAGE, UNDECODABLE_REPLY_MESSAGE,
};
use translate_me::Settings;

fn settings(provider: Provider, key: &str, base: &str, model: &str, source: &str, target: &str) -> Settings {
    Settings {
        api_key: key.to_string(),
        provider,
        base_url: base.to_string(),
        model: model.to_string(),
        source_lang: source.to_string(),
        target_lang: target.to_string(),
        hotkey: "Alt+Space".to_string(),
        font_size: 15,
    }
}

fn pairs(h: Vec<(String, String)>) -> Vec<(String, String)> {
    h
}

#[test]
fn chat_url_drops_trailing_slashes() {
    assert_eq!(chat_url(Provider::OpenAi, "https://api.deepseek.com/v1"), "https://api.deepseek.com/v1/chat/completions");
    assert_eq!(chat_url(Provider::OpenAi, "https://api.deepseek.com/v1/"), "https://api.deepseek.com/v1/chat/completions");
    assert_eq!(chat_url(Provider::OpenAi, "https://api.deepseek.com/v1///"), "https://api.deepseek.com/v1/chat/completions");
    assert_eq!(chat_url(Provider::OpenAi, ""), "/chat/completions");
    assert_eq!(chat_url(Provider::Anthropic, "https://api.anthropic.com/v1/"), "https://api.anthropic.com/v1/messages");
}

#[test]
fn headers_follow_the_provider() {
    assert_eq!(
        pairs(request_headers(Provider::OpenAi, "sk-1")),
        vec![
            ("Authorization".to_string(), "Bearer sk-1".to_string()),
            ("Content-Type".to_string(), "application/json".to_string()),
        ]
    );
    assert_eq!(
        pairs(request_headers(Provider::Anthropic, "sk-2")),
        vec![
            ("x-api-key".to_string(), "sk-2".to_string()),
            ("anthropic-version".to_string(), "2023-06-01".to_string()),
            ("Content-Type".to_string(), "application/json".to_string()),
        ]
    );
}

#[test]
fn instruction_detects_or_names_the_source() {
    let auto = "You are a translation engine. Translate the user's text into English. Output ONLY the translation itself — no quotes, no explanations, no extra text.";
    assert_eq!(instruction_for("auto", "English"), auto);
    assert_eq!(instruction_for("AUTO", "English"), auto);
    assert_eq!(instruction_for("", "English"), auto);
    assert_eq!(
        instruction_for("Chinese", "English"),
        "You are a translation engine. Translate the user's text from Chinese into English. Output ONLY the translation itself — no quotes, no explanations, no extra text."
    );
    assert_eq!(
        instruction_for(" auto", "French"),
        "You are a translation engine. Translate the user's text from  auto into French. Output ONLY the translation itself — no quotes, no explanations, no extra text."
    );
}

#[test]
fn openai_request_body() {
    let text = "say \"hi\"\n\\ back\u{1}";
    let body = request_body(Provider::OpenAi, "deepseek-chat", "instr \"x\"", text);
    let v: serde_json::Value = serde_json::from_str(&body).expect("valid JSON");
    assert_eq!(v["model"], "deepseek-chat");
    assert_eq!(v["temperature"], 0);
    assert_eq!(v["stream"], false);
    assert_eq!(v["messages"][0]["role"], "system");
    assert_eq!(v["messages"][0]["content"], "instr \"x\"");
    assert_eq!(v["messages"][1]["role"], "user");
    assert_eq!(v["messages"][1]["content"], text);
    assert_eq!(v["messages"].as_array().unwrap().len(), 2);
    assert_eq!(
        request_body(Provider::OpenAi, "m", "a", "b"),
        "{\"model\":\"m\",\"messages\":[{\"role\":\"system\",\"content\":\"a\"},{\"role\":\"user\",\"content\":\"b\"}],\"temperature\":0,\"stream\":false}"
    );
}

#[test]
fn anthropic_request_body() {
    let body = request_body(Provider::Anthropic, "chat-model-b", "sys", "hello");
    assert_eq!(
        body,
        "{\"model\":\"chat-model-b\",\"max_tokens\":4096,\"system\":\"sys\",\"messages\":[{\"role\":\"user\",\"content\":\"hello\"}],\"temperature\":0,\"stream\":false}"
    );
    let v: serde_json::Value = serde_json::from_str(&body).expect("valid JSON");
    assert_eq!(v["messages"].as_array().unwrap().len(), 1);
}

#[test]
fn json_escaping_is_exact() {
    // quote, backslash, the short escapes, a \u00xx escape and a non-ASCII char
    let body = request_body(Provider::OpenAi, "m", "\"\\\u{8}\t\n\u{c}\r\u{1f}\u{7f}é/", "x");
    assert!(body.contains("\"content\":\"\\\"\\\\\\b\\t\\n\\f\\r\\u001f\u{7f}é/\""), "{}", body);
}

#[test]
fn blank_text_needs_no_request() {
    let s = settings(Provider::OpenAi, "", "https://api.deepseek.com/v1", "deepseek-chat", "auto", "English");
    assert!(matches!(begin_translation("", &s), Ok(None)));
    assert!(matches!(begin_translation(" \n\t\u{3000}", &s), Ok(None)));
}

#[test]
fn missing_key_is_refused() {
    for key in ["", "   ", "\n"] {
        let s = settings(Provider::OpenAi, key, "https://api.deepseek.com/v1", "deepseek-chat", "auto", "English");
        match begin_translation("hello", &s) {
            Err(m) => {
                assert_eq!(m, MISSING_API_KEY_MESSAGE);
                assert_eq!(m, "尚未配置 API Key（请在设置中填写）");
            }
            other => panic!("{:?}", other),
        }
    }
}

#[test]
fn request_carries_the_trimmed_text_and_the_chosen_model() {
    let s = settings(Provider::OpenAi, " sk-1 ", "https://api.deepseek.com/v1/", "deepseek-reasoner", "Chinese", "English");
    let req = begin_translation("  你好  \n", &s).unwrap().unwrap();
    assert_eq!(req.url, "https://api.deepseek.com/v1/chat/completions");
    assert_eq!(req.headers[0], ("Authorization".to_string(), "Bearer  sk-1 ".to_string()));
    let v: serde_json::Value = serde_json::from_str(&req.body).unwrap();
    assert_eq!(v["model"], "deepseek-reasoner");
    assert_eq!(v["messages"][1]["content"], "你好");
    assert_eq!(v["messages"][0]["content"], instruction_for("Chinese", "English"));
}

#[test]
fn anthropic_request() {
    let s = settings(Provider::Anthropic, "sk-a", "https://api.anthropic.com/v1", "chat-model-b", "auto", "German");
    let req = begin_translation(" hi ", &s).unwrap().unwrap();
    assert_eq!(req.url, "https://api.anthropic.com/v1/messages");
    assert_eq!(req.headers[0], ("x-api-key".to_string(), "sk-a".to_string()));
    let v: serde_json::Value = serde_json::from_str(&req.body).unwrap();
    assert_eq!(v["model"], "chat-model-b");
    assert_eq!(v["system"], instruction_for("auto", "German"));
    assert_eq!(v["messages"][0]["content"], "hi");
}

#[test]
fn rejected_reply() {
    let r = finish_translation(Provider::OpenAi, ChatReply::Rejected {
        status: "401 Unauthorized".to_string(),
        detail: "{\"error\":\"bad key\"}".to_string(),
    });
    assert_eq!(r, Err("DeepSeek API error 401 Unauthorized: {\"error\":\"bad key\"}".to_string()));
}

fn answered(provider: Provider, body: &str) -> Result<String, String> {
    finish_translation(provider, ChatReply::Answered { body: body.as_bytes().to_vec() })
}

#[test]
fn openai_reply_content() {
    let body = "{\"choices\":[{\"message\":{\"role\":\"assistant\",\"content\":\"  Hello.\\n\"}}]}";
    assert_eq!(answered(Provider::OpenAi, body), Ok("Hello.".to_string()));
    assert_eq!(answered(Provider::OpenAi, "{\"choices\":[]}"), Ok(String::new()));
    assert_eq!(answered(Provider::OpenAi, "{\"choices\":[{\"message\":{\"content\":null}}]}"), Ok(String::new()));
    assert_eq!(answered(Provider::OpenAi, "[1,2]"), Ok(String::new()));
    assert_eq!(answered(Provider::OpenAi, "not json"), Err(UNDECODABLE_REPLY_MESSAGE.to_string()));
    assert_eq!(UNDECODABLE_REPLY_MESSAGE, "error decoding response body");
}

#[test]
fn anthropic_reply_content() {
    let body = "{\"content\":[{\"type\":\"text\",\"text\":\" Hallo \"}]}";
    assert_eq!(answered(Provider::Anthropic, body), Ok("Hallo".to_string()));
    // an OpenAI-shaped reply holds nothing where an Anthropic answer goes
    let openai = "{\"choices\":[{\"message\":{\"content\":\"x\"}}]}";
    assert_eq!(answered(Provider::Anthropic, openai), Ok(String::new()));
}

#[test]
fn lookup_indexes_arrays_only() {
    // a numbered key of an object is not an array item: nothing is found there
    let body = "{\"choices\":{\"0\":{\"message\":{\"content\":\"x\"}}}}";
    assert_eq!(answered(Provider::OpenAi, body), Ok(String::new()));
    let body = "{\"content\":{\"0\":{\"text\":\"x\"}}}";
    assert_eq!(answered(Provider::Anthropic, body), Ok(String::new()));
    // a non-string content gives the empty string
    assert_eq!(answered(Provider::OpenAi, "{\"choices\":[{\"message\":{\"content\":42}}]}"), Ok(String::new()));
}

#[test]
fn answer_text_cases() {
    assert_eq!(answer_text(None), Err("error decoding response body".to_string()));
    assert_eq!(answer_text(Some(None)), Ok(String::new()));
    assert_eq!(answer_text(Some(Some("\t ok \n".to_string()))), Ok("ok".to_string()));
}
