//! The text-analysis client's own logic: the prompt it sends, and how it reads the
//! model's reply down to the JSON text of an issue draft.
use vstd::prelude::*;

use crate::json::{at, first_of, member, str_eq, text_of, JsonValue};

verus! {

/// Why a reply of the model holds no issue draft.
#[derive(Debug, Clone, Copy, PartialEq, Eq, Structural)]
pub enum ReplyError {
    /// The model stopped at its output limit.
    Truncated,
    /// The reply has no candidates.
    NoCandidates,
    /// The first candidate has no content object.
    NoContent,
    /// The content object has no parts array.
    BadContent,
    /// The parts array is empty.
    EmptyParts,
    /// The first part holds no text.
    NoText,
}

pub open spec fn fence() -> Seq<char> {
    seq!['`', '`', '`']
}

/// Index of the first occurrence of `c` in `t` at or after `i`.
pub open spec fn index_from(t: Seq<char>, c: char, i: int) -> Option<int>
    decreases t.len() - i,
{
    if i < 0 || i >= t.len() {
        None
    } else if t[i] == c {
        Some(i)
    } else {
        index_from(t, c, i + 1)
    }
}

/// `t` with a surrounding code fence cut off. A fenced text starts and ends with three
/// backticks; what is kept runs from after its first line break (or from its second
/// character, when it has none) up to the closing fence. Other text is kept whole.
pub open spec fn strip_fence(t: Seq<char>) -> Seq<char> {
    if t.len() >= 3 && t.take(3) == fence() && t.skip(t.len() - 3) == fence() {
        let start = match index_from(t, '\n', 0) {
            Some(i) => i + 1,
            None => 1,
        };
        let end = t.len() - 3;
        if start <= end {
            t.subrange(start, end)
        } else {
            Seq::empty()
        }
    } else {
        t
    }
}

/// What the reading of a model reply gives: the draft's JSON text or why there is none.
pub open spec fn reply_text(reply: JsonValue) -> Result<Seq<char>, ReplyError> {
    match first_of(at(reply, "candidates"@)) {
        None => Err(ReplyError::NoCandidates),
        Some(c) => {
            let finish = match text_of(at(c, "finishReason"@)) {
                Some(t) => t,
                None => Seq::empty(),
            };
            if finish == "MAX_TOKENS"@ {
                Err(ReplyError::Truncated)
            } else {
                reply_after_finish(c)
            }
        },
    }
}

/// How the reply reads on from its first candidate `c`, once it is known not to be cut off.
pub open spec fn reply_after_finish(c: JsonValue) -> Result<Seq<char>, ReplyError> {
    match at(c, "content"@) {
        JsonValue::Object(o) => match member(JsonValue::Object(o), "parts"@) {
            Some(JsonValue::Array(ps)) => if ps@.len() == 0 {
                Err(ReplyError::EmptyParts)
            } else {
                match text_of(at(ps@[0], "text"@)) {
                    Some(t) => Ok(strip_fence(t)),
                    None => Err(ReplyError::NoText),
                }
            },
            _ => Err(ReplyError::BadContent),
        },
        _ => Err(ReplyError::NoContent),
    }
}

/// Position of the first line break in `t`, scanning once.
fn first_line_break(t: &str) -> (r: Option<usize>)
    ensures
        r matches Some(i) ==> index_from(t@, '\n', 0) == Some(i as int) && i < t@.len(),
        r is None ==> index_from(t@, '\n', 0) is None,
{
    let _n = t.unicode_len();
    let ghost s = t@;
    let mut found: Option<usize> = None;
    let mut idx: usize = 0;
    for c in it: t.chars()
        invariant
            it.seq() == s,
            idx == it.index(),
            idx <= s.len(),
            s.len() <= usize::MAX,
            found is None ==> index_from(s, '\n', 0) == index_from(s, '\n', idx as int),
            found matches Some(i) ==> index_from(s, '\n', 0) == Some(i as int) && i < s.len(),
    {
        if found.is_none() && c == '\n' {
            found = Some(idx);
        }
        idx = idx + 1;
    }
    found
}

/// Whether `t` holds three backticks starting at character `i`.
fn fence_at(t: &str, i: usize) -> (r: bool)
    requires
        i + 3 <= t@.len(),
        t@.len() <= usize::MAX,
    ensures
        r == (t@.subrange(i as int, i + 3) == fence()),
{
    let r = t.get_char(i) == '`' && t.get_char(i + 1) == '`' && t.get_char(i + 2) == '`';
    assert(r == (t@.subrange(i as int, i + 3) =~= fence()));
    r
}

/// Cuts a surrounding code fence off the model's text.
pub fn strip_code_fence(t: &str) -> (r: String)
    ensures
        r@ == strip_fence(t@),
{
    let n = t.unicode_len();
    if n >= 3 && fence_at(t, 0) && fence_at(t, n - 3) {
        assert(t@.take(3) =~= t@.subrange(0, 3));
        assert(t@.skip(n - 3) =~= t@.subrange(n - 3, n as int));
        let start = match first_line_break(t) {
            Some(i) => i + 1,
            None => 1,
        };
        let end = n - 3;
        assert(t@.take(3) == fence() && t@.skip(t@.len() - 3) == fence());
        if start <= end {
            let r = t.substring_char(start, end).to_owned();
            assert(r@ == t@.subrange(start as int, end as int));
            r
        } else {
            let r = String::new();
            assert(r@ =~= Seq::<char>::empty());
            r
        }
    } else {
        proof {
            if n >= 3 {
                assert(t@.take(3) =~= t@.subrange(0, 3));
                assert(t@.skip(n - 3) =~= t@.subrange(n - 3, n as int));
            }
        }
        let r = t.to_owned();
        assert(r@ == t@);
        r
    }
}

/// Reads a model reply down to the JSON text of the issue draft.
pub fn extract_reply_text(reply: &JsonValue) -> (r: Result<String, ReplyError>)
    ensures
        match reply_text(*reply) {
            Ok(t) => r matches Ok(s) && s@ == t,
            Err(e) => r == Err::<String, ReplyError>(e),
        },
{
    let cands = reply.get("candidates");
    let c = match cands {
        Some(cs) => match cs.first() {
            Some(c) => c,
            None => {
                return Err(ReplyError::NoCandidates);
            },
        },
        None => {
            return Err(ReplyError::NoCandidates);
        },
    };
    let ghost finish = match text_of(at(*c, "finishReason"@)) {
        Some(t) => t,
        None => Seq::empty(),
    };
    let truncated = match c.text_at("finishReason") {
        Some(f) => str_eq(f.as_str(), "MAX_TOKENS"),
        None => {
            proof {
                reveal_strlit("MAX_TOKENS");
            }
            assert(finish.len() == 0);
            false
        },
    };
    assert(truncated == (finish == "MAX_TOKENS"@));
    if truncated {
        return Err(ReplyError::Truncated);
    }
    assert(first_of(at(*reply, "candidates"@)) == Some(*c));
    assert(reply_text(*reply) == reply_after_finish(*c));
    let content = match c.get("content") {
        Some(x) => x,
        None => {
            return Err(ReplyError::NoContent);
        },
    };
    match content {
        JsonValue::Object(_) => {},
        _ => {
            return Err(ReplyError::NoContent);
        },
    }
    let parts = match content.get("parts") {
        Some(JsonValue::Array(ps)) => ps,
        _ => {
            return Err(ReplyError::BadContent);
        },
    };
    if parts.len() == 0 {
        return Err(ReplyError::EmptyParts);
    }
    match parts[0].text_at("text") {
        Some(t) => Ok(strip_code_fence(t.as_str())),
        None => Err(ReplyError::NoText),
    }
}

/// The instruction that opens every analysis request.
pub const ANALYSIS_ROLE: &'static str = "당신은 Jira 이슈 관리 전문가입니다. 사용자의 자연어 요청을 분석하여 적절한 Jira 이슈로 변환해주세요.\n\n";

/// What comes before the user's text in an analysis request.
pub const ANALYSIS_HEAD: &'static str = "다음 사용자 요청을 분석하여 Jira 이슈로 변환해주세요:\n\n\
    사용자 요청: ";

/// What comes after the user's text: the answer format and the classification rules.
pub const ANALYSIS_TAIL: &'static str = "\n\n\
    다음 JSON 형식으로 응답해주세요:\n\
    {\n\
    \"title\": \"이슈 제목 (한국어, 50자 이내)\",\n\
    \"description\": \"상세 설명 (한국어, 사용자 요청을 바탕으로 구체적으로 작성)\",\n\
    \"issue_type\": \"Bug|Task|Story|Epic 중 하나\",\n\
    \"priority\": \"Low|Medium|High|Critical 중 하나\",\n\
    \"labels\": [\"관련 라벨1\", \"관련 라벨2\"]\n\
    }\n\n\
    분석 기준:\n\
    - 버그 관련 키워드가 있으면 Bug 타입\n\
    - 새로운 기능 요청이면 Story 타입\n\
    - 일반적인 작업이면 Task 타입\n\
    - 큰 프로젝트나 여러 기능을 포함하면 Epic 타입\n\
    - 긴급하거나 중요한 내용이면 High/Critical 우선순위\n\
    - 일반적인 내용이면 Medium 우선순위\n\
    - 간단한 내용이면 Low 우선순위";

/// The text sent to the model for the user's request `text`.
pub open spec fn analysis_prompt(text: Seq<char>) -> Seq<char> {
    ANALYSIS_ROLE@ + ANALYSIS_HEAD@ + text + ANALYSIS_TAIL@
}

/// Builds the text sent to the model for the user's request `text`.
pub fn analysis_request_text(text: &str) -> (r: String)
    ensures
        r@ == analysis_prompt(text@),
{
    let mut r = String::from_str(ANALYSIS_ROLE);
    r.append(ANALYSIS_HEAD);
    r.append(text);
    r.append(ANALYSIS_TAIL);
    r
}

/// The endpoint that generates content with `model`.
pub open spec fn analysis_endpoint(model: Seq<char>) -> Seq<char> {
    "https://generativelanguage.googleapis.com/v1beta/models/"@ + model + ":generateContent"@
}

/// Builds the endpoint URL for `model`.
pub fn analysis_url(model: &str) -> (r: String)
    ensures
        r@ == analysis_endpoint(model@),
{
    let mut r = String::from_str("https://generativelanguage.googleapis.com/v1beta/models/");
    r.append(model);
    r.append(":generateContent");
    r
}

} // verus!
