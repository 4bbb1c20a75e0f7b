//! A JSON document as plain values, for the parts of API responses that the
//! library reads. Object members keep their order; keys are unique.
use vstd::prelude::*;

verus! {

/// A JSON value. Numbers keep their textual form.
pub enum JsonValue {
    Null,
    Bool(bool),
    Number(String),
    Str(String),
    Array(Vec<JsonValue>),
    Object(Vec<(String, JsonValue)>),
}

/// Index of the first member of `m` at or after `i` whose key is `k`.
pub open spec fn find_key(m: Seq<(String, JsonValue)>, k: Seq<char>, i: int) -> Option<int>
    decreases m.len() - i,
{
    if i < 0 || i >= m.len() {
        None
    } else if m[i].0@ == k {
        Some(i)
    } else {
        find_key(m, k, i + 1)
    }
}

/// The value of member `k` of `v`, when `v` is an object that has one.
pub open spec fn member(v: JsonValue, k: Seq<char>) -> Option<JsonValue> {
    match v {
        JsonValue::Object(m) => match find_key(m@, k, 0) {
            Some(i) => Some(m@[i].1),
            None => None,
        },
        _ => None,
    }
}

/// `v` with its members looked up the way an index expression on a JSON value
/// does it: a missing member, or a non-object, reads as `Null`.
pub open spec fn at(v: JsonValue, k: Seq<char>) -> JsonValue {
    match member(v, k) {
        Some(x) => x,
        None => JsonValue::Null,
    }
}

/// The text of `v`, when it is a string.
pub open spec fn text_of(v: JsonValue) -> Option<Seq<char>> {
    match v {
        JsonValue::Str(s) => Some(s@),
        _ => None,
    }
}

/// The first element of `v`, when it is a non-empty array.
pub open spec fn first_of(v: JsonValue) -> Option<JsonValue> {
    match v {
        JsonValue::Array(a) => if a@.len() > 0 {
            Some(a@[0])
        } else {
            None
        },
        _ => None,
    }
}

/// Whether two strings hold the same characters.
pub fn str_eq(a: &str, b: &str) -> (r: bool)
    ensures
        r == (a@ == b@),
{
    let n = a.unicode_len();
    if n != b.unicode_len() {
        return false;
    }
    let mut i: usize = 0;
    while i < n
        invariant
            n == a@.len(),
            n == b@.len(),
            i <= n,
            forall|j: int| 0 <= j < i ==> a@[j] == b@[j],
        decreases n - i,
    {
        if a.get_char(i) != b.get_char(i) {
            return false;
        }
        i = i + 1;
    }
    assert(a@ =~= b@);
    true
}

impl JsonValue {
    /// Looks up member `k`; `None` when `self` is not an object or has no such member.
    pub fn get(&self, k: &str) -> (r: Option<&JsonValue>)
        ensures
            r matches Some(x) ==> member(*self, k@) == Some(*x),
            r is None ==> member(*self, k@) is None,
    {
        match self {
            JsonValue::Object(m) => {
                let n = m.len();
                let mut i: usize = 0;
                while i < n
                    invariant
                        n == m@.len(),
                        i <= n,
                        find_key(m@, k@, 0) == find_key(m@, k@, i as int),
                        *self == JsonValue::Object(*m),
                    decreases n - i,
                {
                    if str_eq(m[i].0.as_str(), k) {
                        assert(find_key(m@, k@, i as int) == Some(i as int));
                        return Some(&m[i].1);
                    }
                    i = i + 1;
                }
                None
            },
            _ => None,
        }
    }

    /// The text of `self`, when it is a string.
    pub fn as_text(&self) -> (r: Option<&String>)
        ensures
            r matches Some(t) ==> text_of(*self) == Some(t@),
            r is None ==> text_of(*self) is None,
    {
        match self {
            JsonValue::Str(s) => Some(s),
            _ => None,
        }
    }

    /// The first element of `self`, when it is a non-empty array.
    pub fn first(&self) -> (r: Option<&JsonValue>)
        ensures
            r matches Some(x) ==> first_of(*self) == Some(*x),
            r is None ==> first_of(*self) is None,
    {
        match self {
            JsonValue::Array(a) => if a.len() > 0 {
                Some(&a[0])
            } else {
                None
            },
            _ => None,
        }
    }

    /// Looks up member `k` and reads it as text.
    pub fn text_at(&self, k: &str) -> (r: Option<&String>)
        ensures
            r matches Some(t) ==> text_of(at(*self, k@)) == Some(t@),
            r is None ==> text_of(at(*self, k@)) is None,
    {
        match self.get(k) {
            Some(x) => x.as_text(),
            None => None,
        }
    }
}

/// A member found at index `i` and at no earlier one is what a lookup finds.
pub proof fn lemma_find_key(m: Seq<(String, JsonValue)>, k: Seq<char>, i: int)
    requires
        0 <= i < m.len(),
        m[i].0@ == k,
        forall|j: int| 0 <= j < i ==> (#[trigger] m[j]).0@ != k,
    ensures
        find_key(m, k, 0) == Some(i),
{
    lemma_find_key_from(m, k, i, 0);
}

proof fn lemma_find_key_from(m: Seq<(String, JsonValue)>, k: Seq<char>, i: int, j: int)
    requires
        0 <= j <= i < m.len(),
        m[i].0@ == k,
        forall|t: int| 0 <= t < i ==> (#[trigger] m[t]).0@ != k,
    ensures
        find_key(m, k, j) == Some(i),
    decreases i - j,
{
    if j < i {
        lemma_find_key_from(m, k, i, j + 1);
    }
}

/// A string value.
pub fn text_value(s: &str) -> (r: JsonValue)
    ensures
        text_of(r) == Some(s@),
{
    JsonValue::Str(String::from_str(s))
}

/// An object with the single member `k`.
pub fn single_member(k: &str, v: JsonValue) -> (r: JsonValue)
    ensures
        member(r, k@) == Some(v),
        r is Object,
{
    let mut m: Vec<(String, JsonValue)> = Vec::new();
    m.push((String::from_str(k), v));
    proof {
        lemma_find_key(m@, k@, 0);
    }
    JsonValue::Object(m)
}

/// An array of the string values of `items`, in order.
pub fn text_array(items: &Vec<String>) -> (r: JsonValue)
    ensures
        r matches JsonValue::Array(a) && a@.len() == items@.len() && forall|i: int|
            0 <= i < a@.len() ==> text_of(#[trigger] a@[i]) == Some(items@[i]@),
{
    let mut a: Vec<JsonValue> = Vec::new();
    let n = items.len();
    let mut i: usize = 0;
    while i < n
        invariant
            n == items@.len(),
            i <= n,
            a@.len() == i,
            forall|j: int| 0 <= j < i ==> text_of(#[trigger] a@[j]) == Some(items@[j]@),
        decreases n - i,
    {
        a.push(JsonValue::Str(items[i].clone()));
        i = i + 1;
    }
    JsonValue::Array(a)
}

} // verus!
