//! Artifact naming: each successfully recognized file gets an artifact named
//! `<local-timestamp>-<random-token>.txt`. The timestamp has second
//! resolution, so two files completing within the same second are told apart
//! only by the random token, drawn from an unambiguous URL-safe alphabet.

use vstd::prelude::*;

verus! {

/// The length of the random token in an artifact name.
pub const TOKEN_LEN: usize = 7;

/// A character of the URL-safe alphabet the random token is drawn from:
/// underscore, dash, digits, and the basic letters of both cases.
pub open spec fn is_safe_char(c: char) -> bool {
    c == '_' || c == '-' || ('0' <= c && c <= '9') || ('a' <= c && c <= 'z') || ('A' <= c && c
        <= 'Z')
}

/// The name an artifact gets from a timestamp and a token: the two joined by
/// a dash, with the `.txt` extension.
pub open spec fn spec_artifact_name(stamp: Seq<char>, token: Seq<char>) -> Seq<char> {
    stamp + seq!['-'] + token + seq!['.', 't', 'x', 't']
}

/// Relies on chrono's `Local::now` and `DateTime::format`: the current local
/// wall-clock time rendered at second resolution. The result depends on the
/// clock, so nothing is promised of it.
#[verifier::external_body]
fn local_timestamp() -> String {
    chrono::Local::now().format("%Y-%m-%d-%H:%M:%S").to_string()
}

/// Relies on nanoid's `format` with its URL-safe alphabet and default random
/// source: the result is exactly `len` characters, each from that alphabet.
/// The result is random, so nothing more is promised of it.
#[verifier::external_body]
fn random_token(len: usize) -> (r: String)
    ensures
        r@.len() == len,
        forall|i: int| 0 <= i < r@.len() ==> is_safe_char(#[trigger] r@[i]),
{
    nanoid::format(nanoid::rngs::default, &nanoid::alphabet::SAFE, len)
}

/// The artifact file name built from a given timestamp and token.
pub fn artifact_file_name(stamp: &str, token: &str) -> (r: String)
    ensures
        r@ == spec_artifact_name(stamp@, token@),
{
    proof {
        reveal_strlit("-");
        reveal_strlit(".txt");
    }
    let mut r = stamp.to_owned();
    r.append("-");
    r.append(token);
    r.append(".txt");
    assert(r@ =~= spec_artifact_name(stamp@, token@));
    r
}

/// A fresh artifact file name: the current local timestamp and a fresh
/// random token of `TOKEN_LEN` URL-safe characters, joined as
/// `<timestamp>-<token>.txt`.
pub fn fresh_artifact_name() -> (r: String)
    ensures
        exists|stamp: Seq<char>, token: Seq<char>|
            {
                &&& r@ == spec_artifact_name(stamp, token)
                &&& token.len() == TOKEN_LEN
                &&& forall|i: int| 0 <= i < token.len() ==> is_safe_char(#[trigger] token[i])
            },
{
    let stamp = local_timestamp();
    let token = random_token(TOKEN_LEN);
    artifact_file_name(stamp.as_str(), token.as_str())
}

/// Artifacts made within the same clock second share the timestamp, so their
/// names collide only if the random tokens collide: equal-length tokens that
/// differ anywhere give distinct artifact names.
pub proof fn lemma_same_second_distinct_tokens(stamp: Seq<char>, t1: Seq<char>, t2: Seq<char>)
    requires
        t1.len() == t2.len(),
        t1 != t2,
    ensures
        spec_artifact_name(stamp, t1) != spec_artifact_name(stamp, t2),
{
    let n1 = spec_artifact_name(stamp, t1);
    let n2 = spec_artifact_name(stamp, t2);
    if n1 == n2 {
        let base = stamp.len() + 1;
        assert forall|i: int| 0 <= i < t1.len() implies t1[i] == t2[i] by {
            assert(n1[base + i] == t1[i]);
            assert(n2[base + i] == t2[i]);
        }
        assert(t1 =~= t2);
    }
}

} // verus!
