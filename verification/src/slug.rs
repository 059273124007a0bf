//! Slug derivation: turning a free-text display name into a URL-safe
//! candidate identifier, with a random fallback when nothing survives the
//! cleanup.

use crate::text::push_char;
use rand::distributions::Alphanumeric;
use rand::{thread_rng, Rng};
use vstd::prelude::*;

verus! {

/// Characters that may appear in a slug: alphanumeric or hyphen.
pub open spec fn slug_char_ok(c: char) -> bool {
    c == '-' || alnum(c)
}

/// ASCII alphanumeric characters.
pub open spec fn alnum(c: char) -> bool {
    ('a' <= c && c <= 'z') || ('A' <= c && c <= 'Z') || ('0' <= c && c <= '9')
}

/// One character of the raw name after space mapping.
pub open spec fn space_to_hyphen(c: char) -> char {
    if c == ' ' {
        '-'
    } else {
        c
    }
}

/// The deterministic part of slug derivation: each space becomes a hyphen,
/// then every character that is not alphanumeric or a hyphen is dropped;
/// survivors keep their original order.
pub open spec fn normalize_spec(s: Seq<char>) -> Seq<char>
    decreases s.len(),
{
    if s.len() == 0 {
        Seq::empty()
    } else {
        let rest = normalize_spec(s.drop_last());
        let c = space_to_hyphen(s.last());
        if slug_char_ok(c) {
            rest.push(c)
        } else {
            rest
        }
    }
}

/// Every character of a normalized name is a slug character.
pub proof fn lemma_normalize_only_slug_chars(s: Seq<char>)
    ensures
        forall|i: int|
            0 <= i < normalize_spec(s).len() ==> slug_char_ok(#[trigger] normalize_spec(s)[i]),
    decreases s.len(),
{
    if s.len() > 0 {
        lemma_normalize_only_slug_chars(s.drop_last());
        let rest = normalize_spec(s.drop_last());
        let c = space_to_hyphen(s.last());
        if slug_char_ok(c) {
            assert(normalize_spec(s) == rest.push(c));
            assert forall|i: int| 0 <= i < normalize_spec(s).len() implies slug_char_ok(
                normalize_spec(s)[i],
            ) by {
                if i < rest.len() {
                    assert(slug_char_ok(rest[i]));
                } else {
                    assert(normalize_spec(s)[i] == c);
                }
            }
        }
    }
}

/// Normalization is idempotent on clean input: an input made only of slug
/// characters normalizes to itself, so `derive` hands it back unchanged.
pub proof fn lemma_normalize_idempotent_on_clean(s: Seq<char>)
    requires
        forall|i: int| 0 <= i < s.len() ==> slug_char_ok(#[trigger] s[i]),
    ensures
        normalize_spec(s) == s,
    decreases s.len(),
{
    if s.len() > 0 {
        assert(slug_char_ok(s.last()));
        lemma_normalize_idempotent_on_clean(s.drop_last());
        assert(normalize_spec(s.drop_last()).push(s.last()) =~= s);
    } else {
        assert(normalize_spec(s) =~= s);
    }
}

/// Relies on `rand`'s `Alphanumeric` distribution (via `thread_rng` and
/// `Rng::sample_iter`): every sampled character is ASCII alphanumeric. Which
/// characters come back is random, so nothing more is stated.
#[verifier::external_body]
pub(crate) fn random_alphanumeric(n: usize) -> (r: String)
    ensures
        r@.len() == n as nat,
        forall|i: int| 0 <= i < r@.len() ==> alnum(#[trigger] r@[i]),
{
    thread_rng().sample_iter(&Alphanumeric).take(n).map(char::from).collect()
}

/// The deterministic cleanup pass over the raw name.
pub fn normalize(name: &str) -> (r: String)
    ensures
        r@ == normalize_spec(name@),
{
    let n = name.unicode_len();
    let mut out = String::new();
    let mut i: usize = 0;
    while i < n
        invariant
            i <= n,
            n == name@.len(),
            out@ =~= normalize_spec(name@.take(i as int)),
        decreases n - i,
    {
        let c0 = name.get_char(i);
        let c = if c0 == ' ' {
            '-'
        } else {
            c0
        };
        if c == '-' || ('a' <= c && c <= 'z') || ('A' <= c && c <= 'Z') || ('0' <= c && c
            <= '9') {
            push_char(&mut out, c);
        }
        proof {
            let pre = name@.take(i as int);
            let now = name@.take(i as int + 1);
            assert(now.drop_last() =~= pre);
            assert(now.last() == name@[i as int]);
        }
        i = i + 1;
    }
    proof {
        assert(name@.take(n as int) =~= name@);
    }
    out
}

/// Derives a candidate slug from a display name: spaces become hyphens,
/// every other non-slug character is dropped, and an input with nothing left
/// after cleanup falls back to a fresh 5-character random alphanumeric
/// string. The result is never empty and always URL-safe.
pub fn derive(name: &str) -> (r: String)
    ensures
        r@.len() > 0,
        forall|i: int| 0 <= i < r@.len() ==> slug_char_ok(#[trigger] r@[i]),
        normalize_spec(name@).len() > 0 ==> r@ == normalize_spec(name@),
        normalize_spec(name@).len() == 0 ==> r@.len() == 5 && (forall|i: int|
            0 <= i < r@.len() ==> alnum(#[trigger] r@[i])),
{
    let s = normalize(name);
    if s.as_str().is_empty() {
        random_alphanumeric(5)
    } else {
        proof {
            lemma_normalize_only_slug_chars(name@);
        }
        s
    }
}

} // verus!
