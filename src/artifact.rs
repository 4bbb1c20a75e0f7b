//! Names of the scratch files that hold scripts while they run.
use vstd::prelude::*;

use crate::text::{dec, is_digit, lemma_dec_digits, lemma_dec_injective, push_decimal};

verus! {

/// Relies on rand 0.8's `random::<u32>`: a value drawn from the thread-local
/// generator. Nothing is promised of the value.
#[verifier::external_body]
fn random_u32() -> (r: u32) {
    rand::random::<u32>()
}

pub open spec fn name_prefix() -> Seq<char> {
    seq!['p', 'e', 'n', 'g', 'u', '_', 'e', 'x', 'e', 'c', '_']
}

pub open spec fn name_suffix() -> Seq<char> {
    seq!['.', 'j', 's']
}

/// The scratch file name built from an elapsed-time value and a random value:
/// `pengu_exec_<elapsed>_<nonce>.js`.
pub open spec fn artifact_name(elapsed_ms: u64, nonce: u32) -> Seq<char> {
    name_prefix() + dec(elapsed_ms as nat) + seq!['_'] + dec(nonce as nat) + name_suffix()
}

/// Builds the scratch file name for the given elapsed time and random value.
pub fn artifact_file_name(elapsed_ms: u64, nonce: u32) -> (r: String)
    ensures
        r@ == artifact_name(elapsed_ms, nonce),
{
    let mut s = String::new();
    proof {
        reveal_strlit("pengu_exec_");
        reveal_strlit("_");
        reveal_strlit(".js");
    }
    s.append("pengu_exec_");
    push_decimal(&mut s, elapsed_ms);
    s.append("_");
    push_decimal(&mut s, nonce as u64);
    s.append(".js");
    assert(s@ =~= artifact_name(elapsed_ms, nonce));
    s
}

/// Builds a scratch file name for the given elapsed time with a freshly drawn random value.
pub fn fresh_artifact_file_name(elapsed_ms: u64) -> (r: String)
    ensures
        exists|nonce: u32| r@ == artifact_name(elapsed_ms, nonce),
{
    let nonce: u32 = random_u32();
    artifact_file_name(elapsed_ms, nonce)
}

proof fn lemma_split_digits(d1: Seq<char>, d2: Seq<char>, r1: Seq<char>, r2: Seq<char>, sep: char)
    requires
        forall|i: int| 0 <= i < d1.len() ==> is_digit(#[trigger] d1[i]),
        forall|i: int| 0 <= i < d2.len() ==> is_digit(#[trigger] d2[i]),
        !is_digit(sep),
        d1 + seq![sep] + r1 == d2 + seq![sep] + r2,
    ensures
        d1 == d2,
        r1 == r2,
{
    let x1 = d1 + seq![sep] + r1;
    let x2 = d2 + seq![sep] + r2;
    if d1.len() < d2.len() {
        assert(x1[d1.len() as int] == sep);
        assert(x2[d1.len() as int] == d2[d1.len() as int]);
    } else if d2.len() < d1.len() {
        assert(x2[d2.len() as int] == sep);
        assert(x1[d2.len() as int] == d1[d2.len() as int]);
    }
    assert(d1 =~= x1.take(d1.len() as int));
    assert(d2 =~= x2.take(d2.len() as int));
    assert(r1 =~= x1.skip(d1.len() as int + 1));
    assert(r2 =~= x2.skip(d2.len() as int + 1));
}

/// Two requests whose elapsed-time values or random values differ get distinct
/// scratch file names.
pub proof fn artifact_names_distinct(e1: u64, n1: u32, e2: u64, n2: u32)
    requires
        e1 != e2 || n1 != n2,
    ensures
        artifact_name(e1, n1) != artifact_name(e2, n2),
{
    if artifact_name(e1, n1) == artifact_name(e2, n2) {
        let p = name_prefix();
        let a1 = dec(e1 as nat) + seq!['_'] + (dec(n1 as nat) + name_suffix());
        let a2 = dec(e2 as nat) + seq!['_'] + (dec(n2 as nat) + name_suffix());
        assert(artifact_name(e1, n1) =~= p + a1);
        assert(artifact_name(e2, n2) =~= p + a2);
        assert(a1 =~= (p + a1).skip(p.len() as int));
        assert(a2 =~= (p + a2).skip(p.len() as int));
        lemma_dec_digits(e1 as nat);
        lemma_dec_digits(e2 as nat);
        lemma_split_digits(
            dec(e1 as nat),
            dec(e2 as nat),
            dec(n1 as nat) + name_suffix(),
            dec(n2 as nat) + name_suffix(),
            '_',
        );
        lemma_dec_injective(e1 as nat, e2 as nat);
        let b1 = dec(n1 as nat) + seq!['.'] + seq!['j', 's'];
        let b2 = dec(n2 as nat) + seq!['.'] + seq!['j', 's'];
        assert(b1 =~= dec(n1 as nat) + name_suffix());
        assert(b2 =~= dec(n2 as nat) + name_suffix());
        lemma_dec_digits(n1 as nat);
        lemma_dec_digits(n2 as nat);
        lemma_split_digits(dec(n1 as nat), dec(n2 as nat), seq!['j', 's'], seq!['j', 's'], '.');
        lemma_dec_injective(n1 as nat, n2 as nat);
    }
}

} // verus!
