//! Ordered-fallback resolution over IP-lookup providers.
//!
//! Each provider attempt ends in one of four outcomes; resolution walks
//! the outcomes in list order and commits to the first parseable
//! success, never examining a later entry once one has succeeded.

use vstd::prelude::*;
use vstd::string::*;
use crate::record::IpInfo;

verus! {

/// What one provider attempt came to.
pub enum Outcome {
    /// The connection failed or timed out.
    NetworkError,
    /// The endpoint answered with a non-success HTTP status.
    HttpError,
    /// The endpoint answered successfully but the body did not parse
    /// into the record shape.
    ParseError,
    /// The endpoint answered with a parseable record.
    Parsed(IpInfo),
}

/// Resolution failure: every provider was exhausted without a
/// parseable success; no partial data is carried.
#[derive(PartialEq, Eq, Structural, Debug)]
pub enum ResolveError {
    NoProviderAvailable,
}

impl ResolveError {
    /// The human-readable failure line shown to the user when every
    /// provider has been exhausted.
    pub fn message(&self) -> (r: &'static str)
        ensures
            r@ == "Failed to get public IP from any service"@,
    {
        "Failed to get public IP from any service"
    }
}

pub open spec fn is_success(o: Outcome) -> bool {
    o is Parsed
}

/// Index of the first successful outcome in the list, if any.
pub open spec fn first_success(s: Seq<Outcome>) -> Option<int>
    decreases s.len(),
{
    if s.len() == 0 {
        None
    } else if is_success(s[0]) {
        Some(0int)
    } else {
        match first_success(s.drop_first()) {
            Some(i) => Some(i + 1),
            None => None,
        }
    }
}

/// `first_success` points at a success and nothing before it succeeds;
/// when it is `None`, nothing in the list succeeds.
pub proof fn lemma_first_success_characterises(s: Seq<Outcome>)
    ensures
        match first_success(s) {
            Some(i) => 0 <= i < s.len() && is_success(s[i]) && (forall|j: int|
                0 <= j < i ==> !is_success(s[j])),
            None => forall|j: int| 0 <= j < s.len() ==> !is_success(s[j]),
        },
    decreases s.len(),
{
    if s.len() > 0 && !is_success(s[0]) {
        lemma_first_success_characterises(s.drop_first());
        match first_success(s.drop_first()) {
            Some(i) => {
                assert(s[i + 1] == s.drop_first()[i]);
                assert forall|j: int| 0 <= j < i + 1 implies !is_success(s[j]) by {
                    if j > 0 {
                        assert(s[j] == s.drop_first()[j - 1]);
                    }
                }
            },
            None => {
                assert forall|j: int| 0 <= j < s.len() implies !is_success(s[j]) by {
                    if j > 0 {
                        assert(s[j] == s.drop_first()[j - 1]);
                    }
                }
            },
        }
    }
}

/// A success preceded only by failures is the first success.
pub proof fn lemma_first_success_at(s: Seq<Outcome>, i: int)
    requires
        0 <= i < s.len(),
        is_success(s[i]),
        forall|j: int| 0 <= j < i ==> !is_success(s[j]),
    ensures
        first_success(s) == Some(i),
    decreases i,
{
    if i > 0 {
        assert(s.drop_first()[i - 1] == s[i]);
        assert forall|j: int| 0 <= j < i - 1 implies !is_success(s.drop_first()[j]) by {
            assert(s.drop_first()[j] == s[j + 1]);
        }
        lemma_first_success_at(s.drop_first(), i - 1);
    }
}

/// Decision taken after one provider attempt: a parsed record ends the
/// fallback at once; any failure means the next provider is tried.
pub fn step(o: Outcome) -> (r: Option<IpInfo>)
    ensures
        r is Some <==> is_success(o),
        is_success(o) ==> r == Some(o->Parsed_0),
{
    match o {
        Outcome::Parsed(info) => Some(info),
        _ => None,
    }
}

/// Ordered fallback over the attempts' outcomes. Returns the record of
/// the first success together with how many attempts were examined:
/// exactly one more than the index of the winning provider, so no
/// later provider is ever contacted. When no attempt succeeds, every
/// provider has been examined and resolution fails with
/// `NoProviderAvailable`, carrying no partial data.
pub fn resolve(outcomes: Vec<Outcome>) -> (r: (Result<IpInfo, ResolveError>, usize))
    ensures
        match first_success(outcomes@) {
            Some(i) => r.0 matches Ok(info) && outcomes@[i] == Outcome::Parsed(info) && r.1 == i
                + 1,
            None => r.0 == Err::<IpInfo, ResolveError>(ResolveError::NoProviderAvailable) && r.1
                == outcomes@.len(),
        },
{
    let ghost all = outcomes@;
    let mut v = outcomes;
    let total: usize = v.len();
    assert(all.len() == total);
    let mut tried: usize = 0;
    while v.len() > 0
        invariant
            all == outcomes@,
            all.len() <= usize::MAX,
            tried + v@.len() == all.len(),
            v@ =~= all.skip(tried as int),
            forall|j: int| 0 <= j < tried ==> !is_success(all[j]),
        decreases v@.len(),
    {
        let o = v.remove(0);
        let ghost og = o;
        assert(og == all[tried as int]);
        let ghost prev = tried as int;
        tried = tried + 1;
        assert(v@ =~= all.skip(tried as int));
        match step(o) {
            Some(info) => {
                proof {
                    assert(is_success(og));
                    assert(og == Outcome::Parsed(info));
                    lemma_first_success_at(all, prev);
                }
                return (Ok(info), tried);
            },
            None => {
                assert(!is_success(all[prev]));
            },
        }
    }
    proof {
        lemma_first_success_characterises(all);
    }
    (Err(ResolveError::NoProviderAvailable), tried)
}

/// The fixed, ordered list of public IP-lookup endpoints, tried in
/// this order.
pub fn provider_urls() -> (r: Vec<String>)
    ensures
        r@.len() == 3,
        r@[0]@ == "https://api.ip.sb/jsonip"@,
        r@[1]@ == "https://api.myip.com"@,
        r@[2]@ == "https://ipinfo.io/json"@,
{
    let mut v: Vec<String> = Vec::new();
    v.push(String::from_str("https://api.ip.sb/jsonip"));
    v.push(String::from_str("https://api.myip.com"));
    v.push(String::from_str("https://ipinfo.io/json"));
    v
}

} // verus!
