//! The issue-tracker client's own logic: endpoint URLs, how responses are read,
//! and how failures are classified.
use vstd::prelude::*;

use crate::json::{
    at, first_of, lemma_find_key, member, single_member, text_array, text_of, text_value, JsonValue,
};

verus! {

/// Connection settings of the issue tracker.
pub struct JiraConfig {
    pub base_url: String,
    pub email: String,
    pub api_token: String,
    pub project_key: String,
}

/// An issue draft, as the text-analysis client produces it.
pub struct IssueAnalysis {
    pub title: String,
    pub description: String,
    pub issue_type: String,
    pub priority: String,
    pub labels: Vec<String>,
}

/// An issue as the tracker reports it.
pub struct JiraIssue {
    pub key: String,
    pub summary: String,
    pub description: String,
    pub issue_type: String,
    pub priority: String,
    pub status: String,
}

/// Why a response of a remote API holds no usable answer.
pub enum ApiError {
    /// The server answered with a status outside 200..=299.
    Status { code: u16, body: String },
    /// The text-analysis service does not know the model asked for.
    ModelNotFound { model: String },
    /// The response to an issue creation names no issue key.
    MissingIssueKey,
}

/// `s` without its trailing slashes.
pub open spec fn trim_slashes(s: Seq<char>) -> Seq<char>
    decreases s.len(),
{
    if s.len() > 0 && s.last() == '/' {
        trim_slashes(s.drop_last())
    } else {
        s
    }
}

proof fn lemma_trim_slashes(s: Seq<char>, hi: int)
    requires
        0 <= hi <= s.len(),
        forall|i: int| hi <= i < s.len() ==> #[trigger] s[i] == '/',
        hi == 0 || s[hi - 1] != '/',
    ensures
        trim_slashes(s) == s.take(hi),
    decreases s.len() - hi,
{
    if hi < s.len() {
        let t = s.drop_last();
        assert forall|i: int| hi <= i < t.len() implies #[trigger] t[i] == '/' by {
            assert(t[i] == s[i]);
        }
        if hi > 0 {
            assert(t[hi - 1] == s[hi - 1]);
        }
        lemma_trim_slashes(t, hi);
        assert(t.take(hi) =~= s.take(hi));
    } else {
        assert(s.take(hi) =~= s);
    }
}

/// Appends `s` without its trailing slashes to `out`.
fn push_trimmed_base(out: &mut String, s: &str)
    ensures
        final(out)@ == old(out)@ + trim_slashes(s@),
{
    let _n = s.unicode_len();
    let ghost seq = s@;
    let mut hi: usize = 0;
    let mut idx: usize = 0;
    for c in it: s.chars()
        invariant
            it.seq() == seq,
            idx == it.index(),
            idx <= seq.len(),
            seq.len() <= usize::MAX,
            hi <= idx,
            forall|i: int| hi <= i < idx ==> #[trigger] seq[i] == '/',
            hi == 0 || seq[hi - 1] != '/',
    {
        if c != '/' {
            hi = idx + 1;
        }
        idx = idx + 1;
    }
    proof {
        lemma_trim_slashes(seq, hi as int);
    }
    out.append(s.substring_char(0, hi));
    assert(seq.subrange(0, hi as int) =~= seq.take(hi as int));
}

/// URL that creates an issue.
pub fn issue_create_url(base_url: &str) -> (r: String)
    ensures
        r@ == trim_slashes(base_url@) + "/rest/api/3/issue"@,
{
    let mut r = String::new();
    push_trimmed_base(&mut r, base_url);
    r.append("/rest/api/3/issue");
    assert(r@ =~= trim_slashes(base_url@) + "/rest/api/3/issue"@);
    r
}

/// URL of issue `key`.
pub fn issue_detail_url(base_url: &str, key: &str) -> (r: String)
    ensures
        r@ == trim_slashes(base_url@) + "/rest/api/3/issue/"@ + key@,
{
    let mut r = String::new();
    push_trimmed_base(&mut r, base_url);
    r.append("/rest/api/3/issue/");
    r.append(key);
    assert(r@ =~= trim_slashes(base_url@) + "/rest/api/3/issue/"@ + key@);
    r
}

/// URL that describes the signed-in user; used to test the connection.
pub fn myself_url(base_url: &str) -> (r: String)
    ensures
        r@ == trim_slashes(base_url@) + "/rest/api/3/myself"@,
{
    let mut r = String::new();
    push_trimmed_base(&mut r, base_url);
    r.append("/rest/api/3/myself");
    assert(r@ =~= trim_slashes(base_url@) + "/rest/api/3/myself"@);
    r
}

/// URL of the issue types, with their statuses, of project `project_key`.
pub fn project_statuses_url(base_url: &str, project_key: &str) -> (r: String)
    ensures
        r@ == trim_slashes(base_url@) + "/rest/api/3/project/"@ + project_key@ + "/statuses"@,
{
    let mut r = String::new();
    push_trimmed_base(&mut r, base_url);
    r.append("/rest/api/3/project/");
    r.append(project_key);
    r.append("/statuses");
    assert(r@ =~= trim_slashes(base_url@) + "/rest/api/3/project/"@ + project_key@
        + "/statuses"@);
    r
}

/// URL of the metadata of project `project_key`.
pub fn project_metadata_url(base_url: &str, project_key: &str) -> (r: String)
    ensures
        r@ == trim_slashes(base_url@) + "/rest/api/3/project/"@ + project_key@ + "/metadata"@,
{
    let mut r = String::new();
    push_trimmed_base(&mut r, base_url);
    r.append("/rest/api/3/project/");
    r.append(project_key);
    r.append("/metadata");
    assert(r@ =~= trim_slashes(base_url@) + "/rest/api/3/project/"@ + project_key@
        + "/metadata"@);
    r
}

/// An HTTP status in the success class.
pub open spec fn spec_is_success(code: u16) -> bool {
    200 <= code <= 299
}

pub fn is_success_status(code: u16) -> (r: bool)
    ensures
        r == spec_is_success(code),
{
    200 <= code && code <= 299
}

/// The error for a failed call to the text-analysis service: an unknown model is
/// reported as such, any other status with the response body.
pub fn analysis_status_error(code: u16, body: String, model: String) -> (r: ApiError)
    ensures
        code == 404 ==> r == (ApiError::ModelNotFound { model }),
        code != 404 ==> r == (ApiError::Status { code, body }),
{
    if code == 404 {
        ApiError::ModelNotFound { model }
    } else {
        ApiError::Status { code, body }
    }
}

/// The key of the issue that a creation response names.
pub fn created_issue_key(response: &JsonValue) -> (r: Result<String, ApiError>)
    ensures
        match text_of(at(*response, "key"@)) {
            Some(k) => r matches Ok(s) && s@ == k,
            None => r == Err::<String, ApiError>(ApiError::MissingIssueKey),
        },
{
    match response.text_at("key") {
        Some(k) => Ok(k.clone()),
        None => Err(ApiError::MissingIssueKey),
    }
}

/// The text of the first paragraph's first node of a rich-text description.
pub open spec fn description_text(d: JsonValue) -> Option<Seq<char>> {
    match d {
        JsonValue::Object(_) => match member(d, "content"@) {
            Some(blocks) => match first_of(blocks) {
                Some(para) => match first_of(at(para, "content"@)) {
                    Some(node) => text_of(at(node, "text"@)),
                    None => None,
                },
                None => None,
            },
            None => None,
        },
        _ => None,
    }
}

pub open spec fn text_or(t: Option<Seq<char>>, default: Seq<char>) -> Seq<char> {
    match t {
        Some(s) => s,
        None => default,
    }
}

/// The issue `key` as its detail response `data` describes it. Missing fields read as
/// an empty summary and description, type "Task", priority "Medium", status "To Do".
pub open spec fn is_issue_of(r: JiraIssue, key: Seq<char>, data: JsonValue) -> bool {
    let fields = at(data, "fields"@);
    &&& r.key@ == key
    &&& r.summary@ == text_or(text_of(at(fields, "summary"@)), Seq::empty())
    &&& r.description@ == text_or(description_text(at(fields, "description"@)), Seq::empty())
    &&& r.issue_type@ == text_or(text_of(at(at(fields, "issuetype"@), "name"@)), "Task"@)
    &&& r.priority@ == text_or(text_of(at(at(fields, "priority"@), "name"@)), "Medium"@)
    &&& r.status@ == text_or(text_of(at(at(fields, "status"@), "name"@)), "To Do"@)
}

fn owned_text_or(t: Option<&String>, default: &str) -> (r: String)
    ensures
        r@ == text_or(
            match t {
                Some(s) => Some(s@),
                None => None,
            },
            default@,
        ),
{
    match t {
        Some(s) => s.clone(),
        None => String::from_str(default),
    }
}

fn member_or_null<'a>(v: &'a JsonValue, k: &str, null: &'a JsonValue) -> (r: &'a JsonValue)
    requires
        *null == JsonValue::Null,
    ensures
        *r == at(*v, k@),
{
    match v.get(k) {
        Some(x) => x,
        None => null,
    }
}

fn description_of(d: &JsonValue) -> (r: Option<&String>)
    ensures
        match description_text(*d) {
            Some(t) => r matches Some(s) && s@ == t,
            None => r is None,
        },
{
    match d {
        JsonValue::Object(_) => {},
        _ => {
            return None;
        },
    }
    let blocks = match d.get("content") {
        Some(b) => b,
        None => {
            return None;
        },
    };
    let para = match blocks.first() {
        Some(p) => p,
        None => {
            return None;
        },
    };
    let nodes = match para.get("content") {
        Some(n) => n,
        None => {
            return None;
        },
    };
    let node = match nodes.first() {
        Some(n) => n,
        None => {
            return None;
        },
    };
    node.text_at("text")
}

/// Reads the detail response of issue `key`.
pub fn issue_from_detail(key: &str, data: &JsonValue) -> (r: JiraIssue)
    ensures
        is_issue_of(r, key@, *data),
{
    let null = JsonValue::Null;
    let fields = member_or_null(data, "fields", &null);
    let summary = owned_text_or(fields.text_at("summary"), "");
    let description = owned_text_or(description_of(member_or_null(fields, "description", &null)), "");
    let issue_type = owned_text_or(member_or_null(fields, "issuetype", &null).text_at("name"), "Task");
    let priority = owned_text_or(member_or_null(fields, "priority", &null).text_at("name"), "Medium");
    let status = owned_text_or(member_or_null(fields, "status", &null).text_at("name"), "To Do");
    proof {
        reveal_strlit("");
        assert(""@ =~= Seq::<char>::empty());
    }
    JiraIssue { key: String::from_str(key), summary, description, issue_type, priority, status }
}

/// The texts of an array of strings.
pub open spec fn texts_of(v: JsonValue) -> Option<Seq<Seq<char>>> {
    match v {
        JsonValue::Array(a) => if forall|i: int| 0 <= i < a@.len() ==> (#[trigger] text_of(a@[i])) is Some {
            Some(Seq::new(a@.len(), |i: int| text_of(a@[i])->0))
        } else {
            None
        },
        _ => None,
    }
}

/// `body` is the request that creates an issue from `analysis` in project
/// `project_key`: read back, it names the project, the title, the description as one
/// paragraph of a rich-text document, the issue type, the priority and the labels.
pub open spec fn is_create_body(body: JsonValue, analysis: IssueAnalysis, project_key: Seq<char>) -> bool {
    let f = at(body, "fields"@);
    let d = at(f, "description"@);
    &&& text_of(at(at(f, "project"@), "key"@)) == Some(project_key)
    &&& text_of(at(f, "summary"@)) == Some(analysis.title@)
    &&& text_of(at(d, "type"@)) == Some("doc"@)
    &&& at(d, "version"@) matches JsonValue::Number(n) && n@ == "1"@
    &&& description_text(d) == Some(analysis.description@)
    &&& is_paragraph_of_text(d)
    &&& text_of(at(at(f, "issuetype"@), "name"@)) == Some(analysis.issue_type@)
    &&& text_of(at(at(f, "priority"@), "name"@)) == Some(analysis.priority@)
    &&& texts_of(at(f, "labels"@)) == Some(analysis.labels.deep_view())
}

/// The first block of document `d` is a paragraph whose first node is a text node.
pub open spec fn is_paragraph_of_text(d: JsonValue) -> bool {
    match member(d, "content"@) {
        Some(blocks) => match first_of(blocks) {
            Some(para) => {
                &&& text_of(at(para, "type"@)) == Some("paragraph"@)
                &&& match first_of(at(para, "content"@)) {
                    Some(node) => text_of(at(node, "type"@)) == Some("text"@),
                    None => false,
                }
            },
            None => false,
        },
        None => false,
    }
}

/// A paragraph holding the text `t`, in the tracker's rich-text document format.
fn paragraph_document(t: &str) -> (r: JsonValue)
    ensures
        text_of(at(r, "type"@)) == Some("doc"@),
        at(r, "version"@) matches JsonValue::Number(n) && n@ == "1"@,
        description_text(r) == Some(t@),
        is_paragraph_of_text(r),
{
    proof {
        reveal_strlit("type");
        reveal_strlit("text");
        reveal_strlit("content");
        reveal_strlit("version");
    }
    let mut node: Vec<(String, JsonValue)> = Vec::new();
    node.push((String::from_str("type"), text_value("text")));
    node.push((String::from_str("text"), text_value(t)));
    proof {
        assert("type"@[1] != "text"@[1]);
        lemma_find_key(node@, "text"@, 1);
        lemma_find_key(node@, "type"@, 0);
    }
    let mut nodes: Vec<JsonValue> = Vec::new();
    nodes.push(JsonValue::Object(node));
    let mut para: Vec<(String, JsonValue)> = Vec::new();
    para.push((String::from_str("type"), text_value("paragraph")));
    para.push((String::from_str("content"), JsonValue::Array(nodes)));
    proof {
        lemma_find_key(para@, "content"@, 1);
        lemma_find_key(para@, "type"@, 0);
    }
    let mut blocks: Vec<JsonValue> = Vec::new();
    blocks.push(JsonValue::Object(para));
    let mut doc: Vec<(String, JsonValue)> = Vec::new();
    doc.push((String::from_str("type"), text_value("doc")));
    doc.push((String::from_str("version"), JsonValue::Number(String::from_str("1"))));
    doc.push((String::from_str("content"), JsonValue::Array(blocks)));
    proof {
        assert("version"@[0] != "content"@[0]);
        lemma_find_key(doc@, "type"@, 0);
        lemma_find_key(doc@, "version"@, 1);
        lemma_find_key(doc@, "content"@, 2);
    }
    JsonValue::Object(doc)
}

/// Builds the request that creates an issue from `analysis` in project `project_key`.
pub fn issue_create_body(analysis: &IssueAnalysis, project_key: &str) -> (r: JsonValue)
    ensures
        is_create_body(r, *analysis, project_key@),
{
    proof {
        reveal_strlit("project");
        reveal_strlit("summary");
        reveal_strlit("description");
        reveal_strlit("issuetype");
        reveal_strlit("labels");
        reveal_strlit("priority");
    }
    let labels = text_array(&analysis.labels);
    let ghost lv = labels;
    let mut fields: Vec<(String, JsonValue)> = Vec::new();
    fields.push((String::from_str("project"), single_member("key", text_value(project_key))));
    fields.push((String::from_str("summary"), text_value(analysis.title.as_str())));
    fields.push((String::from_str("description"), paragraph_document(analysis.description.as_str())));
    fields.push(
        (String::from_str("issuetype"), single_member("name", text_value(analysis.issue_type.as_str()))),
    );
    fields.push(
        (String::from_str("priority"), single_member("name", text_value(analysis.priority.as_str()))),
    );
    fields.push((String::from_str("labels"), labels));
    proof {
        assert("project"@[0] != "summary"@[0]);
        assert("issuetype"@.len() != "project"@.len());
        assert("issuetype"@.len() != "summary"@.len());
        assert("issuetype"@.len() != "description"@.len());
        assert("labels"@.len() != "project"@.len());
        assert("labels"@.len() != "summary"@.len());
        assert("labels"@.len() != "description"@.len());
        assert("labels"@.len() != "issuetype"@.len());
        assert("priority"@.len() != "project"@.len());
        assert("priority"@.len() != "summary"@.len());
        assert("priority"@.len() != "description"@.len());
        assert("priority"@.len() != "issuetype"@.len());
        assert("labels"@.len() != "priority"@.len());
        lemma_find_key(fields@, "project"@, 0);
        lemma_find_key(fields@, "summary"@, 1);
        lemma_find_key(fields@, "description"@, 2);
        lemma_find_key(fields@, "issuetype"@, 3);
        lemma_find_key(fields@, "priority"@, 4);
        lemma_find_key(fields@, "labels"@, 5);
        assert(texts_of(lv) == Some(analysis.labels.deep_view())) by {
            if let JsonValue::Array(a) = lv {
                assert(Seq::new(a@.len(), |i: int| text_of(a@[i])->0) =~= analysis.labels.deep_view());
            }
        }
    }
    single_member("fields", JsonValue::Object(fields))
}

} // verus!
