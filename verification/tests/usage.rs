use codex_quota::json::{read_message, Json};
use codex_quota::query::{request_lines, Answers};
use codex_quota::usage::{parse_usage_responses, parse_window};
use serde_json::Value;

fn json(text: &str) -> Json {
    read_message(text).unwrap()
}

#[test]
fn reports_a_clear_error_when_codex_is_not_logged_in() {
    let rate = json(r#"{"id":2,"error":{"message":"authentication required"}}"#);
    let account = json(r#"{"id":3,"result":{"account":null,"requiresOpenaiAuth":true}}"#);
    let error = parse_usage_responses(&rate, Some(&account), 0).unwrap_err();
    assert!(error.contains("尚未登录") && error.contains("codex login"));
}

#[test]
fn preserves_server_reset_timestamp_without_recalculating_it() {
    let rate = json(
        r#"{"id":2,"result":{"rateLimits":{"primary":{"usedPercent":12,"windowDurationMins":300,"resetsAt":1790056965},"secondary":null}}}"#,
    );
    let account =
        json(r#"{"id":3,"result":{"account":{"type":"chatgpt","email":"test@example.com"}}}"#);
    assert_eq!(
        parse_usage_responses(&rate, Some(&account), 100)
            .unwrap()
            .primary
            .unwrap()
            .resets_at,
        1790056965
    );
}

#[test]
fn a_missing_account_also_counts_as_logged_out() {
    let rate = json(r#"{"result":{"rateLimits":{}}}"#);
    let account = json(r#"{"result":{"requiresOpenaiAuth":true}}"#);
    assert_eq!(
        parse_usage_responses(&rate, Some(&account), 0).unwrap_err(),
        "这台电脑上的 Codex 尚未登录。请先打开 Codex 登录 ChatGPT 账号，或在终端执行 codex login，然后返回应用重试。"
    );
    let account = json(r#"{"result":{"requiresOpenaiAuth":true,"account":{}}}"#);
    assert!(parse_usage_responses(&rate, Some(&account), 0).is_ok());
    let account = json(r#"{"result":{"requiresOpenaiAuth":"true"}}"#);
    assert!(parse_usage_responses(&rate, Some(&account), 0).is_ok());
}

#[test]
fn api_keys_have_no_rate_limits_in_any_case_of_their_letters() {
    let rate = json(r#"{"result":{"rateLimits":{}}}"#);
    for kind in ["apiKey", "APIKEY", "apikey"] {
        let text = format!("{{\"result\":{{\"account\":{{\"type\":\"{kind}\"}}}}}}");
        let error = parse_usage_responses(&rate, Some(&json(&text)), 0).unwrap_err();
        assert_eq!(
            error,
            "当前 Codex 使用 API Key 登录，无法读取 ChatGPT 订阅额度。请改用 ChatGPT 账号登录 Codex。"
        );
    }
    let account = json(r#"{"result":{"account":{"type":"api-key"}}}"#);
    assert!(parse_usage_responses(&rate, Some(&account), 0).is_ok());
}

#[test]
fn errors_of_the_server_are_passed_on() {
    let rate = json(r#"{"error":{"message":"slow down"},"result":{"rateLimits":{}}}"#);
    assert_eq!(
        parse_usage_responses(&rate, None, 0).unwrap_err(),
        "Codex 无法读取额度：slow down"
    );
    let rate = json(r#"{"error":null}"#);
    assert_eq!(
        parse_usage_responses(&rate, None, 0).unwrap_err(),
        "Codex 无法读取额度：未知错误"
    );
    let rate = json(r#"{"id":2}"#);
    assert_eq!(
        parse_usage_responses(&rate, None, 0).unwrap_err(),
        "Codex 没有返回额度结果"
    );
    let rate = json(r#"{"result":{"rateLimitsByLimitId":{"other":{}}}}"#);
    assert_eq!(
        parse_usage_responses(&rate, None, 0).unwrap_err(),
        "Codex 没有返回可识别的额度数据"
    );
}

#[test]
fn a_full_answer_fills_every_field() {
    let rate = json(
        r#"{"result":{
            "rateLimitsByLimitId":{"codex":{
                "planType":"pro",
                "primary":{"usedPercent":12.5,"windowDurationMins":300,"resetsAt":1790056965},
                "secondary":{"usedPercent":3,"windowDurationMins":10080,"resetsAt":1790056966},
                "credits":{"balance":"4.20","hasCredits":true,"unlimited":true}}},
            "rateLimits":{"planType":"plus"},
            "rateLimitResetCredits":{"availableCount":7}}}"#,
    );
    let account = json(
        r#"{"result":{"account":{"type":"chatgpt","email":"a@b.c","planType":"team"}}}"#,
    );
    let usage = parse_usage_responses(&rate, Some(&account), 99).unwrap();
    assert_eq!(usage.email.as_deref(), Some("a@b.c"));
    assert_eq!(usage.plan_type.as_deref(), Some("pro"));
    let primary = usage.primary.unwrap();
    assert_eq!(f64::from_bits(primary.used_percent_bits), 12.5);
    assert_eq!(primary.window_duration_mins, 300);
    assert_eq!(primary.resets_at, 1790056965);
    let secondary = usage.secondary.unwrap();
    assert_eq!(f64::from_bits(secondary.used_percent_bits), 3.0);
    assert_eq!(secondary.window_duration_mins, 10080);
    assert_eq!(usage.credit_balance.as_deref(), Some("4.20"));
    assert!(usage.has_credits && usage.unlimited);
    assert_eq!(usage.reset_credits, 7);
    assert_eq!(usage.fetched_at, 99);
}

#[test]
fn a_bare_answer_leaves_the_fields_empty() {
    let rate = json(r#"{"result":{"rateLimits":{},"rateLimitResetCredits":{"availableCount":-1}}}"#);
    let account = json(r#"{"result":{"account":{"planType":"team"}}}"#);
    let usage = parse_usage_responses(&rate, Some(&account), 1).unwrap();
    assert!(usage.email.is_none() && usage.credit_balance.is_none());
    assert_eq!(usage.plan_type.as_deref(), Some("team"));
    assert!(usage.primary.is_none() && usage.secondary.is_none());
    assert!(!usage.has_credits && !usage.unlimited);
    assert_eq!(usage.reset_credits, 0);
}

#[test]
fn windows_need_all_three_numbers() {
    assert!(parse_window(None).is_none());
    for text in [
        "null",
        r#"{"usedPercent":"12","windowDurationMins":300,"resetsAt":1}"#,
        r#"{"usedPercent":12,"windowDurationMins":300.5,"resetsAt":1}"#,
        r#"{"usedPercent":12,"windowDurationMins":300,"resetsAt":-1}"#,
        r#"{"usedPercent":12,"windowDurationMins":300}"#,
    ] {
        assert!(parse_window(Some(&json(text))).is_none(), "{text}");
    }
    let window = parse_window(Some(&json(
        r#"{"usedPercent":0.1,"windowDurationMins":1,"resetsAt":18446744073709551615}"#,
    )))
    .unwrap();
    assert_eq!(f64::from_bits(window.used_percent_bits), 0.1);
    assert_eq!(window.resets_at, u64::MAX);
}

#[test]
fn messages_are_read_as_plain_values() {
    assert!(read_message("not json").is_none());
    assert!(read_message("").is_none());
    let message = json(r#"{"b":[1,null,"x"],"a":true,"n":-4,"f":1.5}"#);
    assert_eq!(message.get("a").unwrap().as_bool(), Some(true));
    let number = message.get("n").unwrap();
    assert_eq!(number.as_signed(), Some(-4));
    assert_eq!(number.as_unsigned(), None);
    assert_eq!(number.as_float_bits(), Some((-4.0f64).to_bits()));
    let fraction = message.get("f").unwrap();
    assert_eq!(fraction.as_signed(), None);
    assert_eq!(fraction.as_float_bits(), Some(1.5f64.to_bits()));
    match message.get("b").unwrap() {
        Json::Array(items) => {
            assert_eq!(items.len(), 3);
            assert_eq!(items[0].as_unsigned(), Some(1));
            assert!(items[1].is_null() && !items[0].is_null());
            assert_eq!(items[2].as_text().unwrap(), "x");
        }
        _ => panic!("an array was expected"),
    }
    assert!(message.get("missing").is_none());
    assert!(message.get("a").unwrap().get("a").is_none());
}

#[test]
fn requests_are_sent_as_one_line_each() {
    let lines = request_lines("0.6.1");
    assert_eq!(
        lines,
        vec![
            r#"{"id":1,"method":"initialize","params":{"clientInfo":{"name":"codex_quota","title":"Codex 额度","version":"0.6.1"}}}"#,
            r#"{"method":"initialized","params":{}}"#,
            r#"{"id":2,"method":"account/rateLimits/read","params":{}}"#,
            r#"{"id":3,"method":"account/read","params":{"refreshToken":false}}"#,
        ]
    );
}

#[test]
fn requests_are_read_back_as_they_were_meant() {
    let lines = request_lines("quote \" and \\ and\nline");
    let first: Value = serde_json::from_str(&lines[0]).unwrap();
    assert_eq!(
        first["params"]["clientInfo"]["version"].as_str(),
        Some("quote \" and \\ and\nline")
    );
    let message = read_message(&lines[0]).unwrap();
    assert_eq!(message.get("id").unwrap().as_signed(), Some(1));
    assert_eq!(
        message.get("id").unwrap().as_float_bits(),
        Some(1.0f64.to_bits())
    );
    for line in &lines {
        assert!(!line.contains('\n'));
    }
    let last = read_message(&lines[3]).unwrap();
    let params = last.get("params").unwrap();
    assert_eq!(params.get("refreshToken").unwrap().as_bool(), Some(false));
}

#[test]
fn answers_are_told_apart_by_their_numbers() {
    let mut answers = Answers::new();
    assert!(answers.are_awaited(0));
    assert!(answers.are_awaited(29_999));
    assert!(!answers.are_awaited(30_000));
    answers.hear(json(r#"{"id":1,"result":{}}"#));
    answers.hear(json(r#"{"method":"note"}"#));
    assert!(answers.rate.is_none() && answers.account.is_none());
    answers.hear(json(r#"{"id":2,"result":{"rateLimits":{"planType":"a"}}}"#));
    assert!(answers.are_awaited(10));
    answers.hear(json(r#"{"id":2,"result":{"rateLimits":{"planType":"b"}}}"#));
    answers.hear(json(r#"{"id":3,"result":{"account":{"email":"x@y.z"}}}"#));
    assert!(!answers.are_awaited(10));
    let usage = answers.conclude(5).unwrap();
    assert_eq!(usage.plan_type.as_deref(), Some("b"));
    assert_eq!(usage.email.as_deref(), Some("x@y.z"));
    assert_eq!(usage.fetched_at, 5);
}

#[test]
fn no_answer_about_the_limits_is_an_error() {
    let mut answers = Answers::new();
    answers.hear(json(r#"{"id":3,"result":{}}"#));
    assert_eq!(
        answers.conclude(5).unwrap_err(),
        "Codex App Server 没有返回额度数据。请确认 Codex 已更新到最新版本并已登录。"
    );
}
