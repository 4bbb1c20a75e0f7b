use penguexec::ai::{
    analysis_request_text, analysis_url, extract_reply_text, strip_code_fence, ReplyError,
    ANALYSIS_HEAD, ANALYSIS_ROLE, ANALYSIS_TAIL,
};
use penguexec::jira::{
    analysis_status_error, created_issue_key, issue_create_body, IssueAnalysis, is_success_status, issue_create_url,
    issue_detail_url, issue_from_detail, myself_url, project_metadata_url, project_statuses_url,
    ApiError,
};
use penguexec::json::JsonValue;
use penguexec::logs::{is_log_file_name, log_file_name, new_log_file_name, order_log_names, sorts_after};

fn s(t: &str) -> JsonValue {
    JsonValue::Str(t.to_string())
}

fn obj(members: Vec<(&str, JsonValue)>) -> JsonValue {
    JsonValue::Object(members.into_iter().map(|(k, v)| (k.to_string(), v)).collect())
}

fn reply_with(candidate: JsonValue) -> JsonValue {
    obj(vec![("candidates", JsonValue::Array(vec![candidate]))])
}

fn text_candidate(text: &str) -> JsonValue {
    obj(vec![
        ("finishReason", s("STOP")),
        ("content", obj(vec![("parts", JsonValue::Array(vec![obj(vec![("text", s(text))])]))])),
    ])
}

#[test]
fn fence_with_language_is_stripped() {
    assert_eq!(strip_code_fence("```json\n{\"a\":1}\n```"), "{\"a\":1}\n");
}

#[test]
fn plain_fence_is_stripped() {
    assert_eq!(strip_code_fence("```\n{}```"), "{}");
}

#[test]
fn unfenced_text_is_kept() {
    assert_eq!(strip_code_fence("{\"a\":1}"), "{\"a\":1}");
    assert_eq!(strip_code_fence("```{}"), "```{}");
}

#[test]
fn fence_without_line_break() {
    assert_eq!(strip_code_fence("```x```"), "``x");
    assert_eq!(strip_code_fence("```"), "");
}

#[test]
fn reply_text_is_extracted() {
    let reply = reply_with(text_candidate("```json\n{\"title\":\"t\"}\n```"));
    assert_eq!(extract_reply_text(&reply), Ok("{\"title\":\"t\"}\n".to_string()));
}

#[test]
fn truncated_reply_is_reported() {
    let c = obj(vec![("finishReason", s("MAX_TOKENS")), ("content", obj(vec![]))]);
    assert_eq!(extract_reply_text(&reply_with(c)), Err(ReplyError::Truncated));
}

#[test]
fn reply_errors() {
    assert_eq!(extract_reply_text(&obj(vec![])), Err(ReplyError::NoCandidates));
    assert_eq!(
        extract_reply_text(&obj(vec![("candidates", JsonValue::Array(vec![]))])),
        Err(ReplyError::NoCandidates)
    );
    assert_eq!(extract_reply_text(&reply_with(obj(vec![]))), Err(ReplyError::NoContent));
    assert_eq!(
        extract_reply_text(&reply_with(obj(vec![("content", s("x"))]))),
        Err(ReplyError::NoContent)
    );
    assert_eq!(
        extract_reply_text(&reply_with(obj(vec![("content", obj(vec![]))]))),
        Err(ReplyError::BadContent)
    );
    assert_eq!(
        extract_reply_text(&reply_with(obj(vec![(
            "content",
            obj(vec![("parts", JsonValue::Array(vec![]))])
        )]))),
        Err(ReplyError::EmptyParts)
    );
    assert_eq!(
        extract_reply_text(&reply_with(obj(vec![(
            "content",
            obj(vec![("parts", JsonValue::Array(vec![obj(vec![])]))])
        )]))),
        Err(ReplyError::NoText)
    );
}

#[test]
fn urls_drop_trailing_slashes() {
    assert_eq!(issue_create_url("https://x.atlassian.net//"), "https://x.atlassian.net/rest/api/3/issue");
    assert_eq!(issue_detail_url("https://x.net", "PRJ-1"), "https://x.net/rest/api/3/issue/PRJ-1");
    assert_eq!(myself_url("https://x.net/"), "https://x.net/rest/api/3/myself");
    assert_eq!(
        project_statuses_url("https://x.net/", "PRJ"),
        "https://x.net/rest/api/3/project/PRJ/statuses"
    );
    assert_eq!(
        project_metadata_url("https://x.net", "PRJ"),
        "https://x.net/rest/api/3/project/PRJ/metadata"
    );
}

#[test]
fn success_statuses() {
    assert!(is_success_status(200));
    assert!(is_success_status(201));
    assert!(is_success_status(299));
    assert!(!is_success_status(199));
    assert!(!is_success_status(300));
    assert!(!is_success_status(404));
}

#[test]
fn unknown_model_is_named() {
    match analysis_status_error(404, "nf".to_string(), "gemini-x".to_string()) {
        ApiError::ModelNotFound { model } => assert_eq!(model, "gemini-x"),
        _ => panic!("expected an unknown model"),
    }
    match analysis_status_error(500, "boom".to_string(), "m".to_string()) {
        ApiError::Status { code, body } => {
            assert_eq!(code, 500);
            assert_eq!(body, "boom");
        }
        _ => panic!("expected a status error"),
    }
}

#[test]
fn created_key_is_read() {
    match created_issue_key(&obj(vec![("id", s("1")), ("key", s("PRJ-7"))])) {
        Ok(k) => assert_eq!(k, "PRJ-7"),
        Err(_) => panic!("key present"),
    }
    assert!(matches!(created_issue_key(&obj(vec![])), Err(ApiError::MissingIssueKey)));
    assert!(matches!(
        created_issue_key(&obj(vec![("key", JsonValue::Number("3".to_string()))])),
        Err(ApiError::MissingIssueKey)
    ));
}

#[test]
fn issue_detail_is_read() {
    let desc = obj(vec![
        ("type", s("doc")),
        (
            "content",
            JsonValue::Array(vec![obj(vec![
                ("type", s("paragraph")),
                ("content", JsonValue::Array(vec![obj(vec![("type", s("text")), ("text", s("body"))])])),
            ])]),
        ),
    ]);
    let data = obj(vec![(
        "fields",
        obj(vec![
            ("summary", s("Title")),
            ("description", desc),
            ("issuetype", obj(vec![("name", s("Bug"))])),
            ("priority", obj(vec![("name", s("High"))])),
            ("status", obj(vec![("name", s("Done"))])),
        ]),
    )]);
    let issue = issue_from_detail("PRJ-9", &data);
    assert_eq!(issue.key, "PRJ-9");
    assert_eq!(issue.summary, "Title");
    assert_eq!(issue.description, "body");
    assert_eq!(issue.issue_type, "Bug");
    assert_eq!(issue.priority, "High");
    assert_eq!(issue.status, "Done");
}

#[test]
fn issue_detail_defaults() {
    let issue = issue_from_detail("K-1", &obj(vec![("fields", obj(vec![("description", JsonValue::Null)]))]));
    assert_eq!(issue.summary, "");
    assert_eq!(issue.description, "");
    assert_eq!(issue.issue_type, "Task");
    assert_eq!(issue.priority, "Medium");
    assert_eq!(issue.status, "To Do");
}

#[test]
fn log_file_names() {
    assert_eq!(log_file_name("20250101_120000"), "penguexec_logs_20250101_120000.json");
    let fresh = new_log_file_name();
    assert!(fresh.starts_with("penguexec_logs_") && fresh.ends_with(".json"));
    let stamp = &fresh["penguexec_logs_".len()..fresh.len() - ".json".len()];
    assert_eq!(&stamp[8..9], "_");
    assert!(stamp[9..].chars().all(|c| c.is_ascii_digit()));
    assert_eq!(fresh.len(), "penguexec_logs_".len() + 15 + ".json".len());
}

#[test]
fn log_extension_check() {
    assert!(is_log_file_name("a.json"));
    assert!(is_log_file_name("..json"));
    assert!(!is_log_file_name(".json"));
    assert!(!is_log_file_name("a.txt"));
    assert!(!is_log_file_name("a.json.bak"));
}

#[test]
fn log_names_newest_first() {
    let names: Vec<String> = vec![
        "penguexec_logs_20240101_000000.json",
        "notes.txt",
        "penguexec_logs_20250101_000000.json",
        "penguexec_logs_20241231_235959.json",
    ]
    .into_iter()
    .map(String::from)
    .collect();
    assert_eq!(
        order_log_names(&names),
        vec![
            "penguexec_logs_20250101_000000.json",
            "penguexec_logs_20241231_235959.json",
            "penguexec_logs_20240101_000000.json",
        ]
    );
    assert!(order_log_names(&vec![]).is_empty());
}

#[test]
fn name_order() {
    assert!(sorts_after("b", "a"));
    assert!(sorts_after("ab", "a"));
    assert!(!sorts_after("a", "ab"));
    assert!(!sorts_after("a", "a"));
    assert!(sorts_after("\u{e9}", "z"));
}

#[test]
fn create_body_reads_back() {
    let analysis = IssueAnalysis {
        title: "Login fails".to_string(),
        description: "Steps".to_string(),
        issue_type: "Bug".to_string(),
        priority: "High".to_string(),
        labels: vec!["auth".to_string(), "ui".to_string()],
    };
    let body = issue_create_body(&analysis, "PRJ");
    let fields = match &body {
        JsonValue::Object(m) => {
            assert_eq!(m.len(), 1);
            assert_eq!(m[0].0, "fields");
            &m[0].1
        }
        _ => panic!("the body is an object"),
    };
    let detail = obj(vec![("fields", clone_json(fields))]);
    let read = issue_from_detail("PRJ-1", &detail);
    assert_eq!(read.summary, "Login fails");
    assert_eq!(read.description, "Steps");
    assert_eq!(read.issue_type, "Bug");
    assert_eq!(read.priority, "High");
    match fields {
        JsonValue::Object(m) => {
            let names: Vec<&str> = m.iter().map(|(k, _)| k.as_str()).collect();
            assert_eq!(
                names,
                vec!["project", "summary", "description", "issuetype", "priority", "labels"]
            );
            match &m[5].1 {
                JsonValue::Array(a) => {
                    assert_eq!(a.len(), 2);
                    assert!(matches!(&a[0], JsonValue::Str(t) if t == "auth"));
                    assert!(matches!(&a[1], JsonValue::Str(t) if t == "ui"));
                }
                _ => panic!("labels are an array"),
            }
            match &m[0].1 {
                JsonValue::Object(p) => {
                    assert!(matches!(&p[0], (k, JsonValue::Str(v)) if k == "key" && v == "PRJ"))
                }
                _ => panic!("project is an object"),
            }
        }
        _ => panic!("fields is an object"),
    }
}

fn clone_json(v: &JsonValue) -> JsonValue {
    match v {
        JsonValue::Null => JsonValue::Null,
        JsonValue::Bool(b) => JsonValue::Bool(*b),
        JsonValue::Number(n) => JsonValue::Number(n.clone()),
        JsonValue::Str(t) => JsonValue::Str(t.clone()),
        JsonValue::Array(a) => JsonValue::Array(a.iter().map(clone_json).collect()),
        JsonValue::Object(m) => {
            JsonValue::Object(m.iter().map(|(k, x)| (k.clone(), clone_json(x))).collect())
        }
    }
}

#[test]
fn analysis_request_wraps_text() {
    let t = analysis_request_text("버튼이 안 눌려요");
    assert!(t.starts_with(ANALYSIS_ROLE));
    assert!(t.contains("사용자 요청: 버튼이 안 눌려요\n\n다음 JSON 형식으로 응답해주세요:\n{\n\"title\""));
    assert_eq!(t.len(), ANALYSIS_ROLE.len() + ANALYSIS_HEAD.len() + "버튼이 안 눌려요".len() + ANALYSIS_TAIL.len());
    assert!(t.ends_with("- 간단한 내용이면 Low 우선순위"));
    assert_eq!(
        analysis_url("gemini-2.5-flash"),
        "https://generativelanguage.googleapis.com/v1beta/models/gemini-2.5-flash:generateContent"
    );
}
