//! Configuration loading.
//!
//! The configuration is a JSON object with two optional fields,
//! `suppression_paths` and `allow_paths`, each an array of strings and each
//! defaulting to empty when absent. Any other shape is rejected, and a
//! rejected update keeps the rule set that was already active (fail-open for
//! configuration errors). Every accepted string is case-folded before use.

use vstd::prelude::*;
use crate::json::JsonValue;
use crate::json::strings_view;
use crate::policy::PolicyConfig;
use crate::policy::lower_all;
use crate::trusted::abstract_value;
use crate::trusted::parse_raw;
use crate::trusted::parsed_json;

verus! {

/// The first value under `key` among the object fields `fields[i..]`.
pub open spec fn spec_lookup(
    fields: Seq<(String, JsonValue)>,
    key: Seq<char>,
    i: int,
) -> Option<JsonValue>
    decreases fields.len() - i,
{
    if i < 0 || i >= fields.len() {
        None
    } else if fields[i].0@ == key {
        Some(fields[i].1)
    } else {
        spec_lookup(fields, key, i + 1)
    }
}

/// The strings of `v`, when `v` is an array holding only strings.
pub open spec fn spec_string_array(v: JsonValue) -> Option<Seq<Seq<char>>> {
    match v {
        JsonValue::Array(elems) => if forall|i: int|
            0 <= i < elems@.len() ==> #[trigger] elems@[i] is Text {
            Some(Seq::new(elems@.len(), |i: int| elems@[i]->Text_0@))
        } else {
            None
        },
        _ => None,
    }
}

/// The strings configured under `key`: empty when the field is absent, its
/// strings when it is an array of strings, and `None` on any other shape.
pub open spec fn spec_field_strings(
    fields: Seq<(String, JsonValue)>,
    key: Seq<char>,
) -> Option<Seq<Seq<char>>> {
    match spec_lookup(fields, key, 0) {
        None => Some(Seq::empty()),
        Some(x) => spec_string_array(x),
    }
}

/// The rule sets a parsed configuration document declares, before case
/// folding: `None` unless the document is an object whose two rule fields
/// (each optional) are arrays of strings.
pub open spec fn spec_config_rules(v: JsonValue) -> Option<(Seq<Seq<char>>, Seq<Seq<char>>)> {
    match v {
        JsonValue::Object(fields) => {
            let sup = spec_field_strings(fields@, "suppression_paths"@);
            let alw = spec_field_strings(fields@, "allow_paths"@);
            if sup is Some && alw is Some {
                Some((sup->0, alw->0))
            } else {
                None
            }
        },
        _ => None,
    }
}

/// The rule sets configuration bytes declare: `None` when the bytes are not
/// valid JSON or not of the configuration shape.
pub open spec fn spec_config_of_bytes(bytes: Seq<u8>) -> Option<(Seq<Seq<char>>, Seq<Seq<char>>)> {
    match parsed_json(bytes) {
        None => None,
        Some(v) => spec_config_rules(v),
    }
}

/// The first value under `key` among an object's fields.
#[verifier::loop_isolation(false)]
fn lookup<'a>(fields: &'a Vec<(String, JsonValue)>, key: &String) -> (r: Option<&'a JsonValue>)
    ensures
        match r {
            Some(x) => spec_lookup(fields@, key@, 0) == Some(*x),
            None => spec_lookup(fields@, key@, 0) is None,
        },
{
    let mut i: usize = 0;
    while i < fields.len()
        invariant
            i <= fields@.len(),
            spec_lookup(fields@, key@, 0) == spec_lookup(fields@, key@, i as int),
        decreases fields@.len() - i,
    {
        if fields[i].0.eq(key) {
            return Some(&fields[i].1);
        }
        i += 1;
    }
    None
}

/// The strings of `v`, when `v` is an array holding only strings.
#[verifier::loop_isolation(false)]
fn string_array(v: &JsonValue) -> (r: Option<Vec<String>>)
    ensures
        match r {
            Some(ss) => spec_string_array(*v) == Some(strings_view(ss@)),
            None => spec_string_array(*v) is None,
        },
{
    match v {
        JsonValue::Array(elems) => {
            let mut out: Vec<String> = Vec::new();
            let mut i: usize = 0;
            while i < elems.len()
                invariant
                    i <= elems@.len(),
                    out@.len() == i,
                    forall|k: int| 0 <= k < i
                        ==> #[trigger] elems@[k] is Text && out@[k]@ == elems@[k]->Text_0@,
                decreases elems@.len() - i,
            {
                match &elems[i] {
                    JsonValue::Text(s) => out.push(s.clone()),
                    _ => {
                        proof {
                            assert(!(elems@[i as int] is Text));
                        }
                        return None;
                    },
                }
                i += 1;
            }
            proof {
                assert(Seq::new(elems@.len(), |k: int| elems@[k]->Text_0@) =~= strings_view(
                    out@,
                ));
            }
            Some(out)
        },
        _ => None,
    }
}

impl PolicyConfig {
    /// Reads the rule sets out of a parsed configuration document and
    /// case-folds them; `None` on any document not of the configuration
    /// shape.
    pub fn from_json(v: &JsonValue) -> (r: Option<PolicyConfig>)
        ensures
            match r {
                Some(c) => spec_config_rules(*v) is Some && c.spec_suppressed() == lower_all(
                    (spec_config_rules(*v)->0).0,
                ) && c.spec_allowed() == lower_all((spec_config_rules(*v)->0).1),
                None => spec_config_rules(*v) is None,
            },
    {
        match v {
            JsonValue::Object(fields) => {
                let key_sup = "suppression_paths".to_owned();
                let sup: Vec<String> = match lookup(fields, &key_sup) {
                    None => Vec::new(),
                    Some(x) => match string_array(x) {
                        Some(ss) => ss,
                        None => {
                            return None;
                        },
                    },
                };
                let key_alw = "allow_paths".to_owned();
                let alw: Vec<String> = match lookup(fields, &key_alw) {
                    None => Vec::new(),
                    Some(x) => match string_array(x) {
                        Some(ss) => ss,
                        None => {
                            return None;
                        },
                    },
                };
                proof {
                    assert(strings_view(Seq::<String>::empty()) =~= Seq::<Seq<char>>::empty());
                }
                Some(PolicyConfig::with_rules(sup, alw))
            },
            _ => None,
        }
    }

    /// Parses configuration bytes and builds the case-folded rule set; `None`
    /// when the bytes are not valid JSON or not of the configuration shape.
    pub fn from_config_bytes(bytes: &[u8]) -> (r: Option<PolicyConfig>)
        ensures
            match r {
                Some(c) => spec_config_of_bytes(bytes@) is Some && c.spec_suppressed()
                    == lower_all((spec_config_of_bytes(bytes@)->0).0) && c.spec_allowed()
                    == lower_all((spec_config_of_bytes(bytes@)->0).1),
                None => spec_config_of_bytes(bytes@) is None,
            },
    {
        match parse_raw(bytes) {
            None => None,
            Some(raw) => {
                let v = abstract_value(&raw);
                PolicyConfig::from_json(&v)
            },
        }
    }

    /// One configuration update, fail-open: bytes that declare a valid
    /// configuration replace the rule set wholesale; any other bytes keep the
    /// rule set as it was.
    pub fn apply_update(self, bytes: &[u8]) -> (r: PolicyConfig)
        ensures
            match spec_config_of_bytes(bytes@) {
                Some(rules) => r.spec_suppressed() == lower_all(rules.0) && r.spec_allowed()
                    == lower_all(rules.1),
                None => r.spec_suppressed() == self.spec_suppressed() && r.spec_allowed()
                    == self.spec_allowed(),
            },
    {
        match PolicyConfig::from_config_bytes(bytes) {
            Some(c) => c,
            None => self,
        }
    }
}

} // verus!
