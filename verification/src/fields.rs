//! Fields and parameters: whether the values of a record are those that a
//! list of fields asks for.

use vstd::prelude::*;
use vstd::string::StringExecFns;
use crate::sql::texts;

verus! {

/// The placeholder under which the value of `field` is bound.
pub open spec fn placeholder(field: Seq<char>) -> Seq<char> {
    ":"@ + field
}

/// `name` is the placeholder of one of `fields`.
pub open spec fn names_a_field(name: Seq<char>, fields: Seq<Seq<char>>) -> bool {
    exists|j: int| 0 <= j < fields.len() && name == placeholder(#[trigger] fields[j])
}

/// One of `params` is bound under `name`.
pub open spec fn binds(params: Seq<(String, rusqlite::types::Value)>, name: Seq<char>) -> bool {
    exists|i: int| 0 <= i < params.len() && (#[trigger] params[i]).0@ == name
}

/// The parameters and the fields agree: every parameter is bound under the
/// placeholder of a field, and the placeholder of every field has a
/// parameter.
pub open spec fn agree(
    params: Seq<(String, rusqlite::types::Value)>,
    fields: Seq<Seq<char>>,
) -> bool {
    &&& forall|i: int| 0 <= i < params.len() ==> names_a_field((#[trigger] params[i]).0@, fields)
    &&& forall|j: int| 0 <= j < fields.len() ==> binds(params, placeholder(#[trigger] fields[j]))
}

/// Whether one of `params` is bound under `name`.
fn is_bound(params: &Vec<(String, rusqlite::types::Value)>, name: &String) -> (found: bool)
    ensures
        found == binds(params@, name@),
{
    let mut i: usize = 0;
    while i < params.len()
        invariant
            i <= params.len(),
            forall|k: int| 0 <= k < i ==> (#[trigger] params@[k]).0@ != name@,
        decreases params.len() - i,
    {
        if params[i].0 == *name {
            return true;
        }
        i = i + 1;
    }
    false
}

/// Whether `name` is among `placeholders`.
fn is_listed(placeholders: &Vec<String>, name: &String) -> (found: bool)
    ensures
        found == exists|j: int|
            0 <= j < placeholders@.len() && (#[trigger] placeholders@[j])@ == name@,
{
    let mut j: usize = 0;
    while j < placeholders.len()
        invariant
            j <= placeholders.len(),
            forall|k: int| 0 <= k < j ==> (#[trigger] placeholders@[k])@ != name@,
        decreases placeholders.len() - j,
    {
        if placeholders[j] == *name {
            return true;
        }
        j = j + 1;
    }
    false
}

/// Writes the placeholder of each field.
fn placeholders_of(fields: &[&str]) -> (placeholders: Vec<String>)
    ensures
        placeholders@.len() == fields@.len(),
        forall|j: int|
            0 <= j < fields@.len() ==> (#[trigger] placeholders@[j])@ == placeholder(fields@[j]@),
{
    let mut placeholders: Vec<String> = Vec::new();
    let mut j: usize = 0;
    while j < fields.len()
        invariant
            j <= fields.len(),
            placeholders@.len() == j,
            forall|k: int|
                0 <= k < j ==> (#[trigger] placeholders@[k])@ == placeholder(fields@[k]@),
        decreases fields.len() - j,
    {
        let mut name = String::from_str(":");
        name.append(fields[j]);
        placeholders.push(name);
        j = j + 1;
    }
    placeholders
}

/// Whether the parameters and the fields agree: see [`agree`].
pub fn check_agreement(
    params: &Vec<(String, rusqlite::types::Value)>,
    fields: &[&str],
) -> (ok: bool)
    ensures
        ok == agree(params@, texts(fields@)),
{
    let placeholders = placeholders_of(fields);
    let mut i: usize = 0;
    while i < params.len()
        invariant
            i <= params.len(),
            placeholders@.len() == fields@.len(),
            forall|j: int|
                0 <= j < fields@.len() ==> (#[trigger] placeholders@[j])@ == placeholder(
                    fields@[j]@,
                ),
            forall|k: int|
                0 <= k < i ==> names_a_field((#[trigger] params@[k]).0@, texts(fields@)),
        decreases params.len() - i,
    {
        if !is_listed(&placeholders, &params[i].0) {
            proof {
                let name = params@[i as int].0@;
                if names_a_field(name, texts(fields@)) {
                    let j = choose|j: int|
                        0 <= j < texts(fields@).len() && name == placeholder(
                            #[trigger] texts(fields@)[j],
                        );
                    assert(placeholders@[j]@ == name);
                }
            }
            return false;
        }
        proof {
            let name = params@[i as int].0@;
            let j = choose|j: int|
                0 <= j < placeholders@.len() && (#[trigger] placeholders@[j])@ == name;
            assert(name == placeholder(texts(fields@)[j]));
        }
        i = i + 1;
    }
    let mut j: usize = 0;
    while j < placeholders.len()
        invariant
            j <= placeholders.len(),
            placeholders@.len() == fields@.len(),
            forall|k: int|
                0 <= k < fields@.len() ==> (#[trigger] placeholders@[k])@ == placeholder(
                    fields@[k]@,
                ),
            forall|k: int|
                0 <= k < params@.len() ==> names_a_field(
                    (#[trigger] params@[k]).0@,
                    texts(fields@),
                ),
            forall|k: int|
                0 <= k < j ==> binds(params@, placeholder(#[trigger] texts(fields@)[k])),
        decreases placeholders.len() - j,
    {
        if !is_bound(params, &placeholders[j]) {
            assert(!binds(params@, placeholder(texts(fields@)[j as int])));
            return false;
        }
        j = j + 1;
    }
    true
}

} // verus!
