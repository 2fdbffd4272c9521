//! The rule set and the decision core.
//!
//! `PolicyConfig` holds the two configured rule sets, both lowercased at
//! construction. `check_headers` and `check_body_paths` are the two
//! inspection phases, each a pure function of its input and the config.

use vstd::prelude::*;
use crate::json::strings_view;
use crate::trusted::lower_of;
use crate::trusted::lowercase;

verus! {

/// Why a request was denied.
#[derive(Clone, Copy, PartialEq, Eq, Structural, Debug)]
pub enum ReasonCode {
    /// A header name sits in the suppression set.
    HeaderSuppressed,
    /// A flattened body path sits in the suppression set.
    BodyPathSuppressed,
    /// Allow-listing is active and a flattened body path is absent from it.
    BodyPathNotAllowed,
}

/// The engine's outcome for one inspection.
#[derive(Clone, Copy, PartialEq, Eq, Structural, Debug)]
pub enum Verdict {
    Allow,
    Deny { reason: ReasonCode },
}

/// Every string of `ss`, case-folded.
pub open spec fn lower_all(ss: Seq<Seq<char>>) -> Seq<Seq<char>> {
    ss.map_values(|s: Seq<char>| lower_of(s))
}

/// The normalized, immutable rule set. Membership is by exact string match
/// against these stored (lowercased) values; order and duplicates are
/// irrelevant.
#[derive(Clone, Debug)]
pub struct PolicyConfig {
    pub suppressed: Vec<String>,
    pub allowed: Vec<String>,
}

impl PolicyConfig {
    /// The suppression set, as character sequences.
    pub open spec fn spec_suppressed(&self) -> Seq<Seq<char>> {
        strings_view(self.suppressed@)
    }

    /// The allow set, as character sequences.
    pub open spec fn spec_allowed(&self) -> Seq<Seq<char>> {
        strings_view(self.allowed@)
    }

    /// The empty rule set: nothing suppressed, allow-listing disabled.
    pub fn empty() -> (r: PolicyConfig)
        ensures
            r.spec_suppressed() == Seq::<Seq<char>>::empty(),
            r.spec_allowed() == Seq::<Seq<char>>::empty(),
    {
        let r = PolicyConfig { suppressed: Vec::new(), allowed: Vec::new() };
        proof {
            assert(r.spec_suppressed() =~= Seq::<Seq<char>>::empty());
            assert(r.spec_allowed() =~= Seq::<Seq<char>>::empty());
        }
        r
    }

    /// Builds the rule set from the configured strings, case-folding every
    /// entry of both sets.
    pub fn with_rules(suppression: Vec<String>, allow: Vec<String>) -> (r: PolicyConfig)
        ensures
            r.spec_suppressed() == lower_all(strings_view(suppression@)),
            r.spec_allowed() == lower_all(strings_view(allow@)),
    {
        PolicyConfig { suppressed: lower_strings(&suppression), allowed: lower_strings(&allow) }
    }
}

/// Case-folds every string of `v`.
#[verifier::loop_isolation(false)]
fn lower_strings(v: &Vec<String>) -> (r: Vec<String>)
    ensures
        strings_view(r@) == lower_all(strings_view(v@)),
{
    let mut out: Vec<String> = Vec::new();
    let mut i: usize = 0;
    while i < v.len()
        invariant
            i <= v@.len(),
            out@.len() == i,
            forall|k: int| 0 <= k < i ==> out@[k]@ == lower_of(v@[k]@),
        decreases v@.len() - i,
    {
        out.push(lowercase(v[i].as_str()));
        i += 1;
    }
    proof {
        assert(strings_view(out@) =~= lower_all(strings_view(v@)));
    }
    out
}

/// Whether `set` holds a string equal to `x`.
#[verifier::loop_isolation(false)]
pub fn contains_string(set: &Vec<String>, x: &String) -> (r: bool)
    ensures
        r == strings_view(set@).contains(x@),
{
    let mut i: usize = 0;
    while i < set.len()
        invariant
            i <= set@.len(),
            forall|k: int| 0 <= k < i ==> set@[k]@ != x@,
        decreases set@.len() - i,
    {
        if set[i].eq(x) {
            proof {
                assert(strings_view(set@)[i as int] == x@);
            }
            return true;
        }
        i += 1;
    }
    proof {
        assert(forall|k: int|
            0 <= k < strings_view(set@).len() ==> strings_view(set@)[k] != x@);
    }
    false
}

/// Whether `name` triggers suppression in the header phase: the name as
/// received, or its lowercase form, sits in the suppression set.
pub open spec fn spec_header_suppressed(name: Seq<char>, suppressed: Seq<Seq<char>>) -> bool {
    suppressed.contains(name) || suppressed.contains(lower_of(name))
}

/// The verdict of the header phase. It is `Deny` with `HeaderSuppressed`
/// when the suppression set holds some header name or its lowercase form,
/// and `Allow` otherwise; the allow set plays no part in this phase.
pub open spec fn spec_header_verdict(names: Seq<Seq<char>>, suppressed: Seq<Seq<char>>) -> Verdict {
    if exists|i: int| 0 <= i < names.len() && spec_header_suppressed(names[i], suppressed) {
        Verdict::Deny { reason: ReasonCode::HeaderSuppressed }
    } else {
        Verdict::Allow
    }
}

/// The names of a header sequence.
pub open spec fn header_names(headers: Seq<(String, String)>) -> Seq<Seq<char>> {
    headers.map_values(|h: (String, String)| h.0@)
}

/// Header phase: walks the headers in the caller's order and denies on the
/// first name found in the suppression set, matched as received or
/// case-folded; allows when none matches.
#[verifier::loop_isolation(false)]
pub fn check_headers(headers: &Vec<(String, String)>, config: &PolicyConfig) -> (r: Verdict)
    ensures
        r == spec_header_verdict(header_names(headers@), config.spec_suppressed()),
{
    let mut i: usize = 0;
    while i < headers.len()
        invariant
            i <= headers@.len(),
            forall|k: int| 0 <= k < i
                ==> !spec_header_suppressed(header_names(headers@)[k], config.spec_suppressed()),
        decreases headers@.len() - i,
    {
        let name = &headers[i].0;
        if contains_string(&config.suppressed, name) {
            proof {
                assert(spec_header_suppressed(
                    header_names(headers@)[i as int],
                    config.spec_suppressed(),
                ));
            }
            return Verdict::Deny { reason: ReasonCode::HeaderSuppressed };
        }
        let lowered = lowercase(name.as_str());
        if contains_string(&config.suppressed, &lowered) {
            proof {
                assert(spec_header_suppressed(
                    header_names(headers@)[i as int],
                    config.spec_suppressed(),
                ));
            }
            return Verdict::Deny { reason: ReasonCode::HeaderSuppressed };
        }
        i += 1;
    }
    Verdict::Allow
}

/// The body phase's verdict. Suppression is checked first and has priority:
/// any flattened path in the suppression set denies with `BodyPathSuppressed`.
/// Only then, and only when the allow set is non-empty, any path absent from
/// the allow set denies with `BodyPathNotAllowed`; an empty allow set
/// disables allow-listing entirely. Both tests are exact string matches.
pub open spec fn spec_body_verdict(
    paths: Seq<Seq<char>>,
    suppressed: Seq<Seq<char>>,
    allowed: Seq<Seq<char>>,
) -> Verdict {
    if exists|i: int| 0 <= i < paths.len() && suppressed.contains(paths[i]) {
        Verdict::Deny { reason: ReasonCode::BodyPathSuppressed }
    } else if allowed.len() > 0 && exists|i: int| 0 <= i < paths.len() && !allowed.contains(
        paths[i],
    ) {
        Verdict::Deny { reason: ReasonCode::BodyPathNotAllowed }
    } else {
        Verdict::Allow
    }
}

/// Body phase: denies on the first flattened path in the suppression set;
/// otherwise, when the allow set is non-empty, denies on the first path
/// absent from it; else allows.
#[verifier::loop_isolation(false)]
pub fn check_body_paths(paths: &Vec<String>, config: &PolicyConfig) -> (r: Verdict)
    ensures
        r == spec_body_verdict(
            strings_view(paths@),
            config.spec_suppressed(),
            config.spec_allowed(),
        ),
{
    let mut i: usize = 0;
    while i < paths.len()
        invariant
            i <= paths@.len(),
            forall|k: int| 0 <= k < i
                ==> !config.spec_suppressed().contains(strings_view(paths@)[k]),
        decreases paths@.len() - i,
    {
        if contains_string(&config.suppressed, &paths[i]) {
            proof {
                assert(config.spec_suppressed().contains(strings_view(paths@)[i as int]));
            }
            return Verdict::Deny { reason: ReasonCode::BodyPathSuppressed };
        }
        i += 1;
    }
    if config.allowed.len() > 0 {
        let mut j: usize = 0;
        while j < paths.len()
            invariant
                j <= paths@.len(),
                forall|k: int| 0 <= k < paths@.len()
                    ==> !config.spec_suppressed().contains(strings_view(paths@)[k]),
                forall|k: int| 0 <= k < j
                    ==> config.spec_allowed().contains(strings_view(paths@)[k]),
            decreases paths@.len() - j,
        {
            if !contains_string(&config.allowed, &paths[j]) {
                proof {
                    assert(!config.spec_allowed().contains(strings_view(paths@)[j as int]));
                }
                return Verdict::Deny { reason: ReasonCode::BodyPathNotAllowed };
            }
            j += 1;
        }
    }
    Verdict::Allow
}

/// Whether the body phase has any work: either rule set is non-empty.
pub fn needs_body_inspection(config: &PolicyConfig) -> (r: bool)
    ensures
        r == (config.spec_suppressed().len() > 0 || config.spec_allowed().len() > 0),
{
    config.suppressed.len() > 0 || config.allowed.len() > 0
}

/// Suppression beats allow-listing: whenever any flattened path sits in the
/// suppression set, the body phase reports `BodyPathSuppressed` — never
/// `BodyPathNotAllowed` — whatever the allow set holds.
pub proof fn lemma_suppression_beats_allow(
    paths: Seq<Seq<char>>,
    suppressed: Seq<Seq<char>>,
    allowed: Seq<Seq<char>>,
)
    requires
        exists|i: int| 0 <= i < paths.len() && suppressed.contains(paths[i]),
    ensures
        spec_body_verdict(paths, suppressed, allowed) == (Verdict::Deny {
            reason: ReasonCode::BodyPathSuppressed,
        }),
{
}

/// An empty allow set disables allow-listing rather than denying everything:
/// with no suppressed path present, the body phase allows.
pub proof fn lemma_empty_allow_list_is_disabled(
    paths: Seq<Seq<char>>,
    suppressed: Seq<Seq<char>>,
    allowed: Seq<Seq<char>>,
)
    requires
        allowed.len() == 0,
        forall|i: int| 0 <= i < paths.len() ==> !suppressed.contains(#[trigger] paths[i]),
    ensures
        spec_body_verdict(paths, suppressed, allowed) == Verdict::Allow,
{
}

} // verus!
