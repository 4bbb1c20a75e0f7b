//! Names of saved log files.
use vstd::prelude::*;
use vstd::seq_lib::to_multiset_insert;

verus! {

/// What every `%Y%m%d_%H%M%S` rendering looks like: a year of at least four
/// characters, then month and day, an underscore, and six digits of the time.
pub open spec fn is_utc_stamp(s: Seq<char>) -> bool {
    &&& s.len() >= 15
    &&& s[s.len() - 7] == '_'
    &&& forall|i: int| s.len() - 6 <= i < s.len() ==> '0' <= #[trigger] s[i] <= '9'
}

/// Relies on chrono's `Utc::now` and `DateTime::format`: the current UTC time written
/// as `%Y%m%d_%H%M%S`. The time depends on the clock; the shape does not: chrono
/// writes the year in at least four characters and every other field in two digits.
#[verifier::external_body]
fn utc_timestamp() -> (r: String)
    ensures
        is_utc_stamp(r@),
{
    chrono::Utc::now().format("%Y%m%d_%H%M%S").to_string()
}

/// The name of the log file saved at time `stamp`: `penguexec_logs_<stamp>.json`.
pub open spec fn log_name(stamp: Seq<char>) -> Seq<char> {
    "penguexec_logs_"@ + stamp + ".json"@
}

/// Names the log file saved at time `stamp`.
pub fn log_file_name(stamp: &str) -> (r: String)
    ensures
        r@ == log_name(stamp@),
{
    let mut r = String::from_str("penguexec_logs_");
    r.append(stamp);
    r.append(".json");
    r
}

/// Names a log file saved now.
pub fn new_log_file_name() -> (r: String)
    ensures
        exists|stamp: Seq<char>| is_utc_stamp(stamp) && r@ == log_name(stamp),
{
    let stamp = utc_timestamp();
    log_file_name(stamp.as_str())
}

pub open spec fn json_ext() -> Seq<char> {
    seq!['.', 'j', 's', 'o', 'n']
}

/// A file name whose extension is `json`: it ends with `.json` and has a stem before it.
/// (A name such as `.json` is a hidden file without extension.)
pub open spec fn is_log_name(name: Seq<char>) -> bool {
    name.len() > 5 && name.skip(name.len() - 5) == json_ext()
}

/// Whether a file name is one that the log listing shows.
pub fn is_log_file_name(name: &str) -> (r: bool)
    ensures
        r == is_log_name(name@),
{
    let n = name.unicode_len();
    if n <= 5 {
        return false;
    }
    let r = name.get_char(n - 5) == '.' && name.get_char(n - 4) == 'j' && name.get_char(n - 3) == 's'
        && name.get_char(n - 2) == 'o' && name.get_char(n - 1) == 'n';
    assert(r == (name@.skip(n - 5) =~= json_ext()));
    r
}

/// `a` sorts after `b`: compared character by character, by code point, with a
/// proper prefix sorting first.
pub open spec fn after(a: Seq<char>, b: Seq<char>) -> bool
    decreases a.len(),
{
    if a.len() == 0 {
        false
    } else if b.len() == 0 {
        true
    } else if a[0] != b[0] {
        a[0] > b[0]
    } else {
        after(a.drop_first(), b.drop_first())
    }
}

/// Newest first: no name sorts after one that precedes it.
pub open spec fn sorted_newest_first(s: Seq<Seq<char>>) -> bool {
    forall|i: int, j: int| 0 <= i < j < s.len() ==> !after(#[trigger] s[j], #[trigger] s[i])
}

proof fn lemma_after_total(a: Seq<char>, b: Seq<char>)
    ensures
        a != b ==> after(a, b) || after(b, a),
        after(a, b) ==> !after(b, a),
    decreases a.len(),
{
    if a.len() > 0 && b.len() > 0 && a[0] == b[0] {
        lemma_after_total(a.drop_first(), b.drop_first());
        if a != b {
            assert(a =~= seq![a[0]] + a.drop_first());
            assert(b =~= seq![b[0]] + b.drop_first());
        }
    } else if a.len() == 0 && b.len() == 0 {
        assert(a =~= b);
    }

}

proof fn lemma_after_transitive(a: Seq<char>, b: Seq<char>, c: Seq<char>)
    requires
        after(a, b),
        after(b, c),
    ensures
        after(a, c),
    decreases a.len(),
{
    if c.len() > 0 && a[0] == b[0] && b[0] == c[0] {
        lemma_after_transitive(a.drop_first(), b.drop_first(), c.drop_first());
    }
}

proof fn lemma_after_skip(a: Seq<char>, b: Seq<char>, i: int)
    requires
        0 <= i <= a.len(),
        i <= b.len(),
        forall|j: int| 0 <= j < i ==> a[j] == b[j],
    ensures
        after(a, b) == after(a.skip(i), b.skip(i)),
    decreases i,
{
    if i > 0 {
        let a1 = a.drop_first();
        let b1 = b.drop_first();
        assert forall|j: int| 0 <= j < i - 1 implies a1[j] == b1[j] by {
            assert(a1[j] == a[j + 1]);
            assert(b1[j] == b[j + 1]);
        }
        lemma_after_skip(a1, b1, i - 1);
        assert(a1.skip(i - 1) =~= a.skip(i));
        assert(b1.skip(i - 1) =~= b.skip(i));
    } else {
        assert(a.skip(0) =~= a);
        assert(b.skip(0) =~= b);
    }
}

/// Whether `a` sorts after `b`.
pub fn sorts_after(a: &str, b: &str) -> (r: bool)
    ensures
        r == after(a@, b@),
{
    let na = a.unicode_len();
    let nb = b.unicode_len();
    let mut i: usize = 0;
    while i < na && i < nb && a.get_char(i) == b.get_char(i)
        invariant
            na == a@.len(),
            nb == b@.len(),
            i <= na,
            i <= nb,
            forall|j: int| 0 <= j < i ==> a@[j] == b@[j],
        decreases na - i,
    {
        i = i + 1;
    }
    proof {
        lemma_after_skip(a@, b@, i as int);
    }
    if i == na {
        false
    } else if i == nb {
        true
    } else {
        assert(a@.skip(i as int)[0] == a@[i as int]);
        assert(b@.skip(i as int)[0] == b@[i as int]);
        a.get_char(i) > b.get_char(i)
    }
}

proof fn lemma_insert_sorted(s: Seq<Seq<char>>, p: int, x: Seq<char>)
    requires
        sorted_newest_first(s),
        0 <= p <= s.len(),
        forall|t: int| 0 <= t < p ==> !after(x, #[trigger] s[t]),
        p == s.len() || after(x, s[p]),
    ensures
        sorted_newest_first(s.insert(p, x)),
{
    let s2 = s.insert(p, x);
    assert forall|i: int, j: int| 0 <= i < j < s2.len() implies !after(
        #[trigger] s2[j],
        #[trigger] s2[i],
    ) by {
        if j < p {
            assert(s2[i] == s[i] && s2[j] == s[j]);
        } else if j == p {
            assert(s2[i] == s[i] && s2[j] == x);
        } else if i < p {
            assert(s2[i] == s[i] && s2[j] == s[j - 1]);
        } else if i == p {
            assert(s2[i] == x && s2[j] == s[j - 1]);
            if after(s[j - 1], x) {
                if j - 1 == p {
                    lemma_after_total(x, s[p]);
                } else {
                    lemma_after_transitive(s[j - 1], x, s[p]);
                }
            }
        } else {
            assert(s2[i] == s[i - 1] && s2[j] == s[j - 1]);
        }
    }
}

/// The log files that a directory listing shows, newest first: the names with
/// extension `json`, ordered by name from last to first (the names carry the
/// time they were saved).
pub fn order_log_names(names: &Vec<String>) -> (r: Vec<String>)
    ensures
        r.deep_view().to_multiset() == names.deep_view().filter(|n: Seq<char>| is_log_name(n)).to_multiset(),
        sorted_newest_first(r.deep_view()),
{
    let ghost pred = |n: Seq<char>| is_log_name(n);
    let mut r: Vec<String> = Vec::new();
    let n = names.len();
    let mut k: usize = 0;
    proof {
        assert(names.deep_view().take(0) =~= Seq::<Seq<char>>::empty());
        assert(Seq::<Seq<char>>::empty().filter(pred) =~= Seq::<Seq<char>>::empty());
        assert(r.deep_view() =~= Seq::<Seq<char>>::empty());
    }
    while k < n
        invariant
            n == names@.len(),
            k <= n,
            pred == (|n: Seq<char>| is_log_name(n)),
            r.deep_view().to_multiset() == names.deep_view().take(k as int).filter(pred).to_multiset(),
            sorted_newest_first(r.deep_view()),
        decreases n - k,
    {
        let ghost before = r.deep_view();
        let ghost x = names.deep_view()[k as int];
        assert(x == names@[k as int].view());
        let keep = is_log_file_name(names[k].as_str());
        if keep {
            let m = r.len();
            let mut p: usize = 0;
            while p < m && !sorts_after(names[k].as_str(), r[p].as_str())
                invariant
                    m == r@.len(),
                    p <= m,
                    k < n,
                    n == names@.len(),
                    r.deep_view() == before,
                    x == names@[k as int]@,
                    forall|t: int| 0 <= t < p ==> !after(x, #[trigger] before[t]),
                    sorted_newest_first(before),
                    is_log_name(x),
                    before.to_multiset() == names.deep_view().take(k as int).filter(pred).to_multiset(),
                decreases m - p,
            {
                p = p + 1;
            }
            proof {
                lemma_insert_sorted(before, p as int, x);
                to_multiset_insert(before, p as int, x);
            }
            r.insert(p, names[k].clone());
            assert(r.deep_view() =~= before.insert(p as int, x));
        }
        proof {
            assert(names.deep_view().take(k + 1) =~= names.deep_view().take(k as int).push(x));
            names.deep_view().take(k as int).lemma_filter_push(x, pred);
            names.deep_view().take(k as int).filter(pred).to_multiset_ensures();
            if keep {
                assert(pred(x));
            } else {
                assert(!pred(x));
            }
        }
        k = k + 1;
    }
    assert(names.deep_view().take(n as int) =~= names.deep_view());
    r
}

} // verus!
