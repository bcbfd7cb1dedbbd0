use llama_agent::get_llama_payload;

#[test]
fn payload_for_hi_holds_prompt_and_cap() {
    let payload = get_llama_payload("hi".to_string());
    assert_eq!(
        payload,
        "\n    {\n        \"prompt\": \"hi\" , \"n_predict\": 128 \n    }"
    );
    assert!(payload.contains("\"hi\""));
    assert!(payload.contains("\"n_predict\": 128"));
}

#[test]
fn payload_is_head_prompt_tail() {
    let head = "\n    {\n        \"prompt\": \"";
    let tail = "\" , \"n_predict\": 128 \n    }";
    for prompt in ["", "a", "Tell me a story", "zwölf Boxkämpfer", "line one line two"] {
        let payload = get_llama_payload(prompt.to_string());
        assert_eq!(payload, format!("{}{}{}", head, prompt, tail));
        assert_eq!(payload.chars().count(), prompt.chars().count() + 53);
        assert_eq!(payload.find("\"n_predict\": 128"), Some(30 + prompt.len()));
    }
}

#[test]
fn payload_for_empty_prompt() {
    assert_eq!(
        get_llama_payload(String::new()),
        "\n    {\n        \"prompt\": \"\" , \"n_predict\": 128 \n    }"
    );
}

#[test]
fn payload_parses_as_json_for_plain_prompt() {
    let payload = get_llama_payload("What is the capital of France?".to_string());
    let value: serde_json::Value = serde_json::from_str(&payload).unwrap();
    assert_eq!(
        value.get("prompt").and_then(|p| p.as_str()),
        Some("What is the capital of France?")
    );
    assert_eq!(value.get("n_predict").and_then(|n| n.as_i64()), Some(128));
}

fn prompt_read_back(payload: &str) -> String {
    let value: serde_json::Value = serde_json::from_str(payload).unwrap();
    let members = value.as_object().unwrap();
    assert_eq!(members.len(), 2);
    assert_eq!(value.get("n_predict").and_then(|n| n.as_i64()), Some(128));
    value.get("prompt").and_then(|p| p.as_str()).unwrap().to_string()
}

#[test]
fn payload_escapes_quotes() {
    let payload = get_llama_payload("say \"hi\"".to_string());
    assert_eq!(
        payload,
        "\n    {\n        \"prompt\": \"say \\\"hi\\\"\" , \"n_predict\": 128 \n    }"
    );
    assert_eq!(prompt_read_back(&payload), "say \"hi\"");
}

#[test]
fn payload_escapes_backslashes() {
    let payload = get_llama_payload("C:\\temp\\".to_string());
    assert_eq!(
        payload,
        "\n    {\n        \"prompt\": \"C:\\\\temp\\\\\" , \"n_predict\": 128 \n    }"
    );
    assert_eq!(prompt_read_back(&payload), "C:\\temp\\");
}

#[test]
fn payload_escapes_control_characters() {
    let payload = get_llama_payload("a\nb\tc\u{0}d\u{1f}e\u{7f}".to_string());
    assert_eq!(
        payload,
        "\n    {\n        \"prompt\": \"a\\u000ab\\u0009c\\u0000d\\u001fe\u{7f}\" , \"n_predict\": 128 \n    }"
    );
    assert_eq!(prompt_read_back(&payload), "a\nb\tc\u{0}d\u{1f}e\u{7f}");
}

#[test]
fn prompt_cannot_add_or_change_a_member() {
    let prompt = "x\", \"n_predict\": 9, \"y\": \"z";
    let payload = get_llama_payload(prompt.to_string());
    let value: serde_json::Value = serde_json::from_str(&payload).unwrap();
    assert_eq!(value.get("prompt").and_then(|p| p.as_str()), Some(prompt));
    assert_eq!(value.get("n_predict").and_then(|n| n.as_i64()), Some(128));
    assert!(value.get("y").is_none());
    assert_eq!(value.as_object().unwrap().len(), 2);
    assert_eq!(payload.matches("\"n_predict\": 128").count(), 1);
    assert_eq!(prompt_read_back(&payload), prompt);
}

#[test]
fn every_prompt_reads_back_from_its_payload() {
    let mut every_control = String::new();
    for code in 0u8..32 {
        every_control.push(code as char);
        every_control.push('|');
    }
    let prompts = [
        "",
        "hi",
        "\"",
        "\\",
        "\\\"",
        "\\u0041",
        "\\n stays two characters",
        "line one\nline two\r\n",
        "tab\there",
        "zw\u{f6}lf Boxk\u{e4}mpfer \u{1f600} \u{2028}",
        "{\"prompt\": \"nested\", \"n_predict\": 1}",
        "ends with a backslash \\",
        every_control.as_str(),
    ];
    for prompt in prompts {
        let payload = get_llama_payload(prompt.to_string());
        assert_eq!(prompt_read_back(&payload), prompt);
        assert!(payload.starts_with("\n    {\n        \"prompt\": \""));
        assert!(payload.ends_with("\" , \"n_predict\": 128 \n    }"));
    }
}

#[test]
fn payloads_of_different_prompts_differ() {
    assert_ne!(
        get_llama_payload("one".to_string()),
        get_llama_payload("two".to_string())
    );
    assert_eq!(
        get_llama_payload("one".to_string()),
        get_llama_payload("one".to_string())
    );
}
