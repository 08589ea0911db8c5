//! The host classifier: which site of the base domain a `Host` header names.

use crate::error::RouteError;
use crate::text::{chars_of, ends_with, without_last};
use vstd::prelude::*;
use vstd::string::*;

verus! {

/// The subdomain label of a `host` that ends with `base`: what stands before
/// the base domain, without one trailing `.` if there is one. The root site
/// has the empty label.
pub open spec fn label_of(host: Seq<char>, base: Seq<char>) -> Seq<char>
    recommends
        ends_with(host, base),
{
    let rest = without_last(host, base.len());
    if rest.len() > 0 && rest.last() == '.' {
        rest.drop_last()
    } else {
        rest
    }
}

/// `host` is `base` itself, or ends with `base` right after a `.`.
pub open spec fn on_label_boundary(host: Seq<char>, base: Seq<char>) -> bool {
    ends_with(host, base) && (host.len() == base.len() || host[host.len() - base.len() - 1] == '.')
}

/// What classification yields: the label of a host that ends with the base
/// domain (compared character by character, case included), and
/// `InvalidDomain` for every other host.
pub open spec fn classification(host: Seq<char>, base: Seq<char>) -> Result<Seq<char>, RouteError> {
    if ends_with(host, base) {
        Ok(label_of(host, base))
    } else {
        Err(RouteError::InvalidDomain)
    }
}

/// Classification that also turns away a host in which the base domain does
/// not start at a label boundary, such as `evilexample.com` under
/// `example.com`.
pub open spec fn strict_classification(host: Seq<char>, base: Seq<char>) -> Result<
    Seq<char>,
    RouteError,
> {
    if on_label_boundary(host, base) {
        Ok(label_of(host, base))
    } else {
        Err(RouteError::InvalidDomain)
    }
}

/// The mathematical reading of a classifier's result.
pub open spec fn label_view(r: Result<String, RouteError>) -> Result<Seq<char>, RouteError> {
    match r {
        Ok(label) => Ok(label@),
        Err(e) => Err(e),
    }
}

/// Whether the last `suffix.len()` items of `text` are `suffix`.
fn closes(text: &Vec<char>, suffix: &Vec<char>) -> (yes: bool)
    ensures
        yes == ends_with(text@, suffix@),
{
    if suffix.len() > text.len() {
        return false;
    }
    let shift: usize = text.len() - suffix.len();
    let mut i: usize = 0;
    while i < suffix.len()
        invariant
            shift + suffix.len() == text.len(),
            i <= suffix.len(),
            forall|j: int| 0 <= j < i ==> text@[shift + j] == suffix@[j],
        decreases suffix.len() - i,
    {
        if text[shift + i] != suffix[i] {
            proof {
                let tail = text@.subrange(text@.len() - suffix@.len(), text@.len() as int);
                assert(tail[i as int] != suffix@[i as int]);
            }
            return false;
        }
        i += 1;
    }
    proof {
        let tail = text@.subrange(text@.len() - suffix@.len(), text@.len() as int);
        assert(tail =~= suffix@);
    }
    true
}

/// Extracts the subdomain label of `host` under `base`.
///
/// Succeeds exactly when `host` ends with `base`; the label is then what
/// precedes `base`, minus one trailing `.`. A host equal to `base` gives the
/// empty label, which denotes the root site.
pub fn classify(host: &str, base: &str) -> (r: Result<String, RouteError>)
    ensures
        label_view(r) == classification(host@, base@),
{
    let h = chars_of(host);
    let b = chars_of(base);
    if !closes(&h, &b) {
        return Err(RouteError::InvalidDomain);
    }
    let mut keep: usize = h.len() - b.len();
    if keep > 0 && h[keep - 1] == '.' {
        keep -= 1;
    }
    let label = host.substring_char(0, keep).to_owned();
    proof {
        assert(label@ =~= label_of(host@, base@));
    }
    Ok(label)
}

/// Extracts the subdomain label of `host` under `base`, accepting only a host
/// that is `base` itself or ends with `base` right after a `.`.
pub fn classify_strict(host: &str, base: &str) -> (r: Result<String, RouteError>)
    ensures
        label_view(r) == strict_classification(host@, base@),
{
    let h = chars_of(host);
    let b = chars_of(base);
    if !closes(&h, &b) {
        return Err(RouteError::InvalidDomain);
    }
    let mut keep: usize = h.len() - b.len();
    if keep > 0 {
        if h[keep - 1] != '.' {
            return Err(RouteError::InvalidDomain);
        }
        keep -= 1;
    }
    let label = host.substring_char(0, keep).to_owned();
    proof {
        assert(label@ =~= label_of(host@, base@));
    }
    Ok(label)
}

} // verus!
