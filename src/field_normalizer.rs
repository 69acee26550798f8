//! Renaming of object keys between the backend's wire naming and the
//! broker's internal naming, applied recursively over JSON trees.

use vstd::prelude::*;

use crate::text::same_text;

verus! {

broadcast use {vstd::std_specs::vec::group_vec_axioms, vstd::seq::group_seq_axioms};

/// The internal name of an external key, when the key is mapped.
pub open spec fn to_internal(k: Seq<char>) -> Option<Seq<char>> {
    if k == "projectID"@ {
        Some("project_id"@)
    } else if k == "sessionID"@ {
        Some("session_id"@)
    } else if k == "messageID"@ {
        Some("message_id"@)
    } else if k == "providerID"@ {
        Some("provider_id"@)
    } else if k == "modelID"@ {
        Some("model_id"@)
    } else if k == "parentID"@ {
        Some("parent_id"@)
    } else if k == "partID"@ {
        Some("part_id"@)
    } else if k == "callID"@ {
        Some("call_id"@)
    } else if k == "requestID"@ {
        Some("request_id"@)
    } else if k == "snapshotID"@ {
        Some("snapshot_id"@)
    } else if k == "subtaskID"@ {
        Some("subtask_id"@)
    } else if k == "baseURL"@ {
        Some("base_url"@)
    } else if k == "enterpriseUrl"@ {
        Some("enterprise_url"@)
    } else if k == "experimentalOver200K"@ {
        Some("experimental_over_200_k"@)
    } else if k == "topP"@ {
        Some("top_p"@)
    } else {
        None
    }
}

/// The external name of an internal key, when the key is mapped.
pub open spec fn to_external(k: Seq<char>) -> Option<Seq<char>> {
    if k == "project_id"@ {
        Some("projectID"@)
    } else if k == "session_id"@ {
        Some("sessionID"@)
    } else if k == "message_id"@ {
        Some("messageID"@)
    } else if k == "provider_id"@ {
        Some("providerID"@)
    } else if k == "model_id"@ {
        Some("modelID"@)
    } else if k == "parent_id"@ {
        Some("parentID"@)
    } else if k == "part_id"@ {
        Some("partID"@)
    } else if k == "call_id"@ {
        Some("callID"@)
    } else if k == "request_id"@ {
        Some("requestID"@)
    } else if k == "snapshot_id"@ {
        Some("snapshotID"@)
    } else if k == "subtask_id"@ {
        Some("subtaskID"@)
    } else if k == "base_url"@ {
        Some("baseURL"@)
    } else if k == "enterprise_url"@ {
        Some("enterpriseUrl"@)
    } else if k == "experimental_over_200_k"@ {
        Some("experimentalOver200K"@)
    } else if k == "top_p"@ {
        Some("topP"@)
    } else {
        None
    }
}

/// A key in internal naming: its mapped name, or the key itself.
pub open spec fn norm_key(k: Seq<char>) -> Seq<char> {
    match to_internal(k) {
        Some(m) => m,
        None => k,
    }
}

/// A key in external naming: its mapped name, or the key itself.
pub open spec fn denorm_key(k: Seq<char>) -> Seq<char> {
    match to_external(k) {
        Some(m) => m,
        None => k,
    }
}

/// Rename one external key to internal naming; unmapped keys pass unchanged.
pub fn normalize_key(key: &str) -> (r: String)
    ensures
        r@ == (match to_internal(key@) {
            Some(m) => m,
            None => key@,
        }),
{
    if same_text(key, "projectID") {
        return "project_id".to_owned();
    }
    if same_text(key, "sessionID") {
        return "session_id".to_owned();
    }
    if same_text(key, "messageID") {
        return "message_id".to_owned();
    }
    if same_text(key, "providerID") {
        return "provider_id".to_owned();
    }
    if same_text(key, "modelID") {
        return "model_id".to_owned();
    }
    if same_text(key, "parentID") {
        return "parent_id".to_owned();
    }
    if same_text(key, "partID") {
        return "part_id".to_owned();
    }
    if same_text(key, "callID") {
        return "call_id".to_owned();
    }
    if same_text(key, "requestID") {
        return "request_id".to_owned();
    }
    if same_text(key, "snapshotID") {
        return "snapshot_id".to_owned();
    }
    if same_text(key, "subtaskID") {
        return "subtask_id".to_owned();
    }
    if same_text(key, "baseURL") {
        return "base_url".to_owned();
    }
    if same_text(key, "enterpriseUrl") {
        return "enterprise_url".to_owned();
    }
    if same_text(key, "experimentalOver200K") {
        return "experimental_over_200_k".to_owned();
    }
    if same_text(key, "topP") {
        return "top_p".to_owned();
    }
    key.to_owned()
}

/// Rename one internal key to external naming; unmapped keys pass unchanged.
pub fn denormalize_key(key: &str) -> (r: String)
    ensures
        r@ == (match to_external(key@) {
            Some(m) => m,
            None => key@,
        }),
{
    if same_text(key, "project_id") {
        return "projectID".to_owned();
    }
    if same_text(key, "session_id") {
        return "sessionID".to_owned();
    }
    if same_text(key, "message_id") {
        return "messageID".to_owned();
    }
    if same_text(key, "provider_id") {
        return "providerID".to_owned();
    }
    if same_text(key, "model_id") {
        return "modelID".to_owned();
    }
    if same_text(key, "parent_id") {
        return "parentID".to_owned();
    }
    if same_text(key, "part_id") {
        return "partID".to_owned();
    }
    if same_text(key, "call_id") {
        return "callID".to_owned();
    }
    if same_text(key, "request_id") {
        return "requestID".to_owned();
    }
    if same_text(key, "snapshot_id") {
        return "snapshotID".to_owned();
    }
    if same_text(key, "subtask_id") {
        return "subtaskID".to_owned();
    }
    if same_text(key, "base_url") {
        return "baseURL".to_owned();
    }
    if same_text(key, "enterprise_url") {
        return "enterpriseUrl".to_owned();
    }
    if same_text(key, "experimental_over_200_k") {
        return "experimentalOver200K".to_owned();
    }
    if same_text(key, "top_p") {
        return "topP".to_owned();
    }
    key.to_owned()
}

/// The two tables are inverse to each other: mapping a key one way and back
/// gives the key again, in both directions.
pub proof fn lemma_key_bijection(k: Seq<char>)
    ensures
        to_internal(k) is Some ==> to_external(to_internal(k)->0) == Some(k),
        to_external(k) is Some ==> to_internal(to_external(k)->0) == Some(k),
        to_internal(k) is Some ==> denorm_key(norm_key(k)) == k,
        to_external(k) is Some ==> norm_key(denorm_key(k)) == k,
{
    {
        reveal_strlit("projectID");
        reveal_strlit("project_id");
        reveal_strlit("sessionID");
        reveal_strlit("session_id");
        reveal_strlit("messageID");
        reveal_strlit("message_id");
        reveal_strlit("providerID");
        reveal_strlit("provider_id");
        reveal_strlit("modelID");
        reveal_strlit("model_id");
        reveal_strlit("parentID");
        reveal_strlit("parent_id");
        reveal_strlit("partID");
        reveal_strlit("part_id");
        reveal_strlit("callID");
        reveal_strlit("call_id");
        reveal_strlit("requestID");
        reveal_strlit("request_id");
        reveal_strlit("snapshotID");
        reveal_strlit("snapshot_id");
        reveal_strlit("subtaskID");
        reveal_strlit("subtask_id");
        reveal_strlit("baseURL");
        reveal_strlit("base_url");
        reveal_strlit("enterpriseUrl");
        reveal_strlit("enterprise_url");
        reveal_strlit("experimentalOver200K");
        reveal_strlit("experimental_over_200_k");
        reveal_strlit("topP");
        reveal_strlit("top_p");
    }
    assert("projectID"@[0] != "sessionID"@[0]);
    assert("projectID"@[0] != "messageID"@[0]);
    assert("projectID"@.len() != "providerID"@.len());
    assert("projectID"@.len() != "modelID"@.len());
    assert("projectID"@.len() != "parentID"@.len());
    assert("projectID"@.len() != "partID"@.len());
    assert("projectID"@.len() != "callID"@.len());
    assert("projectID"@[0] != "requestID"@[0]);
    assert("projectID"@.len() != "snapshotID"@.len());
    assert("projectID"@[0] != "subtaskID"@[0]);
    assert("projectID"@.len() != "baseURL"@.len());
    assert("projectID"@.len() != "enterpriseUrl"@.len());
    assert("projectID"@.len() != "experimentalOver200K"@.len());
    assert("projectID"@.len() != "topP"@.len());
    assert("sessionID"@[0] != "messageID"@[0]);
    assert("sessionID"@.len() != "providerID"@.len());
    assert("sessionID"@.len() != "modelID"@.len());
    assert("sessionID"@.len() != "parentID"@.len());
    assert("sessionID"@.len() != "partID"@.len());
    assert("sessionID"@.len() != "callID"@.len());
    assert("sessionID"@[0] != "requestID"@[0]);
    assert("sessionID"@.len() != "snapshotID"@.len());
    assert("sessionID"@[1] != "subtaskID"@[1]);
    assert("sessionID"@.len() != "baseURL"@.len());
    assert("sessionID"@.len() != "enterpriseUrl"@.len());
    assert("sessionID"@.len() != "experimentalOver200K"@.len());
    assert("sessionID"@.len() != "topP"@.len());
    assert("messageID"@.len() != "providerID"@.len());
    assert("messageID"@.len() != "modelID"@.len());
    assert("messageID"@.len() != "parentID"@.len());
    assert("messageID"@.len() != "partID"@.len());
    assert("messageID"@.len() != "callID"@.len());
    assert("messageID"@[0] != "requestID"@[0]);
    assert("messageID"@.len() != "snapshotID"@.len());
    assert("messageID"@[0] != "subtaskID"@[0]);
    assert("messageID"@.len() != "baseURL"@.len());
    assert("messageID"@.len() != "enterpriseUrl"@.len());
    assert("messageID"@.len() != "experimentalOver200K"@.len());
    assert("messageID"@.len() != "topP"@.len());
    assert("providerID"@.len() != "modelID"@.len());
    assert("providerID"@.len() != "parentID"@.len());
    assert("providerID"@.len() != "partID"@.len());
    assert("providerID"@.len() != "callID"@.len());
    assert("providerID"@.len() != "requestID"@.len());
    assert("providerID"@[0] != "snapshotID"@[0]);
    assert("providerID"@.len() != "subtaskID"@.len());
    assert("providerID"@.len() != "baseURL"@.len());
    assert("providerID"@.len() != "enterpriseUrl"@.len());
    assert("providerID"@.len() != "experimentalOver200K"@.len());
    assert("providerID"@.len() != "topP"@.len());
    assert("modelID"@.len() != "parentID"@.len());
    assert("modelID"@.len() != "partID"@.len());
    assert("modelID"@.len() != "callID"@.len());
    assert("modelID"@.len() != "requestID"@.len());
    assert("modelID"@.len() != "snapshotID"@.len());
    assert("modelID"@.len() != "subtaskID"@.len());
    assert("modelID"@[0] != "baseURL"@[0]);
    assert("modelID"@.len() != "enterpriseUrl"@.len());
    assert("modelID"@.len() != "experimentalOver200K"@.len());
    assert("modelID"@.len() != "topP"@.len());
    assert("parentID"@.len() != "partID"@.len());
    assert("parentID"@.len() != "callID"@.len());
    assert("parentID"@.len() != "requestID"@.len());
    assert("parentID"@.len() != "snapshotID"@.len());
    assert("parentID"@.len() != "subtaskID"@.len());
    assert("parentID"@.len() != "baseURL"@.len());
    assert("parentID"@.len() != "enterpriseUrl"@.len());
    assert("parentID"@.len() != "experimentalOver200K"@.len());
    assert("parentID"@.len() != "topP"@.len());
    assert("partID"@[0] != "callID"@[0]);
    assert("partID"@.len() != "requestID"@.len());
    assert("partID"@.len() != "snapshotID"@.len());
    assert("partID"@.len() != "subtaskID"@.len());
    assert("partID"@.len() != "baseURL"@.len());
    assert("partID"@.len() != "enterpriseUrl"@.len());
    assert("partID"@.len() != "experimentalOver200K"@.len());
    assert("partID"@.len() != "topP"@.len());
    assert("callID"@.len() != "requestID"@.len());
    assert("callID"@.len() != "snapshotID"@.len());
    assert("callID"@.len() != "subtaskID"@.len());
    assert("callID"@.len() != "baseURL"@.len());
    assert("callID"@.len() != "enterpriseUrl"@.len());
    assert("callID"@.len() != "experimentalOver200K"@.len());
    assert("callID"@.len() != "topP"@.len());
    assert("requestID"@.len() != "snapshotID"@.len());
    assert("requestID"@[0] != "subtaskID"@[0]);
    assert("requestID"@.len() != "baseURL"@.len());
    assert("requestID"@.len() != "enterpriseUrl"@.len());
    assert("requestID"@.len() != "experimentalOver200K"@.len());
    assert("requestID"@.len() != "topP"@.len());
    assert("snapshotID"@.len() != "subtaskID"@.len());
    assert("snapshotID"@.len() != "baseURL"@.len());
    assert("snapshotID"@.len() != "enterpriseUrl"@.len());
    assert("snapshotID"@.len() != "experimentalOver200K"@.len());
    assert("snapshotID"@.len() != "topP"@.len());
    assert("subtaskID"@.len() != "baseURL"@.len());
    assert("subtaskID"@.len() != "enterpriseUrl"@.len());
    assert("subtaskID"@.len() != "experimentalOver200K"@.len());
    assert("subtaskID"@.len() != "topP"@.len());
    assert("baseURL"@.len() != "enterpriseUrl"@.len());
    assert("baseURL"@.len() != "experimentalOver200K"@.len());
    assert("baseURL"@.len() != "topP"@.len());
    assert("enterpriseUrl"@.len() != "experimentalOver200K"@.len());
    assert("enterpriseUrl"@.len() != "topP"@.len());
    assert("experimentalOver200K"@.len() != "topP"@.len());
    assert("project_id"@[0] != "session_id"@[0]);
    assert("project_id"@[0] != "message_id"@[0]);
    assert("project_id"@.len() != "provider_id"@.len());
    assert("project_id"@.len() != "model_id"@.len());
    assert("project_id"@.len() != "parent_id"@.len());
    assert("project_id"@.len() != "part_id"@.len());
    assert("project_id"@.len() != "call_id"@.len());
    assert("project_id"@[0] != "request_id"@[0]);
    assert("project_id"@.len() != "snapshot_id"@.len());
    assert("project_id"@[0] != "subtask_id"@[0]);
    assert("project_id"@.len() != "base_url"@.len());
    assert("project_id"@.len() != "enterprise_url"@.len());
    assert("project_id"@.len() != "experimental_over_200_k"@.len());
    assert("project_id"@.len() != "top_p"@.len());
    assert("session_id"@[0] != "message_id"@[0]);
    assert("session_id"@.len() != "provider_id"@.len());
    assert("session_id"@.len() != "model_id"@.len());
    assert("session_id"@.len() != "parent_id"@.len());
    assert("session_id"@.len() != "part_id"@.len());
    assert("session_id"@.len() != "call_id"@.len());
    assert("session_id"@[0] != "request_id"@[0]);
    assert("session_id"@.len() != "snapshot_id"@.len());
    assert("session_id"@[1] != "subtask_id"@[1]);
    assert("session_id"@.len() != "base_url"@.len());
    assert("session_id"@.len() != "enterprise_url"@.len());
    assert("session_id"@.len() != "experimental_over_200_k"@.len());
    assert("session_id"@.len() != "top_p"@.len());
    assert("message_id"@.len() != "provider_id"@.len());
    assert("message_id"@.len() != "model_id"@.len());
    assert("message_id"@.len() != "parent_id"@.len());
    assert("message_id"@.len() != "part_id"@.len());
    assert("message_id"@.len() != "call_id"@.len());
    assert("message_id"@[0] != "request_id"@[0]);
    assert("message_id"@.len() != "snapshot_id"@.len());
    assert("message_id"@[0] != "subtask_id"@[0]);
    assert("message_id"@.len() != "base_url"@.len());
    assert("message_id"@.len() != "enterprise_url"@.len());
    assert("message_id"@.len() != "experimental_over_200_k"@.len());
    assert("message_id"@.len() != "top_p"@.len());
    assert("provider_id"@.len() != "model_id"@.len());
    assert("provider_id"@.len() != "parent_id"@.len());
    assert("provider_id"@.len() != "part_id"@.len());
    assert("provider_id"@.len() != "call_id"@.len());
    assert("provider_id"@.len() != "request_id"@.len());
    assert("provider_id"@[0] != "snapshot_id"@[0]);
    assert("provider_id"@.len() != "subtask_id"@.len());
    assert("provider_id"@.len() != "base_url"@.len());
    assert("provider_id"@.len() != "enterprise_url"@.len());
    assert("provider_id"@.len() != "experimental_over_200_k"@.len());
    assert("provider_id"@.len() != "top_p"@.len());
    assert("model_id"@.len() != "parent_id"@.len());
    assert("model_id"@.len() != "part_id"@.len());
    assert("model_id"@.len() != "call_id"@.len());
    assert("model_id"@.len() != "request_id"@.len());
    assert("model_id"@.len() != "snapshot_id"@.len());
    assert("model_id"@.len() != "subtask_id"@.len());
    assert("model_id"@[0] != "base_url"@[0]);
    assert("model_id"@.len() != "enterprise_url"@.len());
    assert("model_id"@.len() != "experimental_over_200_k"@.len());
    assert("model_id"@.len() != "top_p"@.len());
    assert("parent_id"@.len() != "part_id"@.len());
    assert("parent_id"@.len() != "call_id"@.len());
    assert("parent_id"@.len() != "request_id"@.len());
    assert("parent_id"@.len() != "snapshot_id"@.len());
    assert("parent_id"@.len() != "subtask_id"@.len());
    assert("parent_id"@.len() != "base_url"@.len());
    assert("parent_id"@.len() != "enterprise_url"@.len());
    assert("parent_id"@.len() != "experimental_over_200_k"@.len());
    assert("parent_id"@.len() != "top_p"@.len());
    assert("part_id"@[0] != "call_id"@[0]);
    assert("part_id"@.len() != "request_id"@.len());
    assert("part_id"@.len() != "snapshot_id"@.len());
    assert("part_id"@.len() != "subtask_id"@.len());
    assert("part_id"@.len() != "base_url"@.len());
    assert("part_id"@.len() != "enterprise_url"@.len());
    assert("part_id"@.len() != "experimental_over_200_k"@.len());
    assert("part_id"@.len() != "top_p"@.len());
    assert("call_id"@.len() != "request_id"@.len());
    assert("call_id"@.len() != "snapshot_id"@.len());
    assert("call_id"@.len() != "subtask_id"@.len());
    assert("call_id"@.len() != "base_url"@.len());
    assert("call_id"@.len() != "enterprise_url"@.len());
    assert("call_id"@.len() != "experimental_over_200_k"@.len());
    assert("call_id"@.len() != "top_p"@.len());
    assert("request_id"@.len() != "snapshot_id"@.len());
    assert("request_id"@[0] != "subtask_id"@[0]);
    assert("request_id"@.len() != "base_url"@.len());
    assert("request_id"@.len() != "enterprise_url"@.len());
    assert("request_id"@.len() != "experimental_over_200_k"@.len());
    assert("request_id"@.len() != "top_p"@.len());
    assert("snapshot_id"@.len() != "subtask_id"@.len());
    assert("snapshot_id"@.len() != "base_url"@.len());
    assert("snapshot_id"@.len() != "enterprise_url"@.len());
    assert("snapshot_id"@.len() != "experimental_over_200_k"@.len());
    assert("snapshot_id"@.len() != "top_p"@.len());
    assert("subtask_id"@.len() != "base_url"@.len());
    assert("subtask_id"@.len() != "enterprise_url"@.len());
    assert("subtask_id"@.len() != "experimental_over_200_k"@.len());
    assert("subtask_id"@.len() != "top_p"@.len());
    assert("base_url"@.len() != "enterprise_url"@.len());
    assert("base_url"@.len() != "experimental_over_200_k"@.len());
    assert("base_url"@.len() != "top_p"@.len());
    assert("enterprise_url"@.len() != "experimental_over_200_k"@.len());
    assert("enterprise_url"@.len() != "top_p"@.len());
    assert("experimental_over_200_k"@.len() != "top_p"@.len());
}

/// A JSON value. Numbers keep their textual form; objects keep their
/// entries in order.
#[derive(Debug)]
pub enum Json {
    Null,
    Bool(bool),
    Number(String),
    Str(String),
    Array(Vec<Json>),
    Object(Vec<(String, Json)>),
}

/// The naming a tree's keys are rewritten in.
pub enum KeyNaming {
    Internal,
    External,
    Unchanged,
}

/// A key written in the given naming.
pub open spec fn key_in(naming: KeyNaming, k: Seq<char>) -> Seq<char> {
    match naming {
        KeyNaming::Internal => norm_key(k),
        KeyNaming::External => denorm_key(k),
        KeyNaming::Unchanged => k,
    }
}

/// `b` is `a` with every object key `k`, at every depth, written in the
/// given naming; everything else is kept as it is.
pub open spec fn renamed(a: Json, b: Json, f: KeyNaming) -> bool
    decreases a,
{
    match a {
        Json::Null => b is Null,
        Json::Bool(x) => b == Json::Bool(x),
        Json::Number(n) => b is Number && b->Number_0@ == n@,
        Json::Str(t) => b is Str && b->Str_0@ == t@,
        Json::Array(xs) => b is Array && b->Array_0@.len() == xs@.len()
            && forall|i: int| 0 <= i < xs@.len() ==> renamed(#[trigger] xs@[i], b->Array_0@[i], f),
        Json::Object(es) => b is Object && b->Object_0@.len() == es@.len()
            && forall|i: int| 0 <= i < es@.len() ==> b->Object_0@[i].0@ == key_in(f, (#[trigger] es@[i]).0@)
                && renamed(es@[i].1, b->Object_0@[i].1, f),
    }
}

/// Every object key of `a`, at every depth, survives a round trip.
pub open spec fn all_keys_round_trip(a: Json) -> bool
    decreases a,
{
    match a {
        Json::Array(xs) => forall|i: int| 0 <= i < xs@.len() ==> all_keys_round_trip(#[trigger] xs@[i]),
        Json::Object(es) => forall|i: int| 0 <= i < es@.len() ==> round_trip_key((#[trigger] es@[i]).0@) && all_keys_round_trip(es@[i].1),
        _ => true,
    }
}

/// A key survives normalizing and denormalizing: it is an external name of
/// the mapping, or no name of it at all.
pub open spec fn round_trip_key(k: Seq<char>) -> bool {
    to_internal(k) is Some || (to_internal(k) is None && to_external(k) is None)
}

fn copy_text(s: &String) -> (r: String)
    ensures
        r@ == s@,
{
    s.as_str().to_owned()
}

fn key_named(naming: &KeyNaming, key: &String) -> (r: String)
    ensures
        r@ == key_in(*naming, key@),
{
    match naming {
        KeyNaming::Internal => normalize_key(key.as_str()),
        KeyNaming::External => denormalize_key(key.as_str()),
        KeyNaming::Unchanged => copy_text(key),
    }
}

fn rename_tree(value: &Json, naming: &KeyNaming) -> (r: Json)
    ensures
        renamed(*value, r, *naming),
    decreases *value,
{
    match value {
        Json::Null => Json::Null,
        Json::Bool(b) => Json::Bool(*b),
        Json::Number(n) => Json::Number(copy_text(n)),
        Json::Str(t) => Json::Str(copy_text(t)),
        Json::Array(xs) => {
            let mut out: Vec<Json> = Vec::new();
            let mut i: usize = 0;
            while i < xs.len()
                invariant
                    i <= xs@.len(),
                    out@.len() == i,
                    *value == Json::Array(*xs),
                    forall|j: int| 0 <= j < i ==> renamed(#[trigger] xs@[j], out@[j], *naming),
                decreases xs@.len() - i,
            {
                proof {
                    assert(decreases_to!(*value => value->Array_0));
                    assert(value->Array_0 == *xs);
                    assert(decreases_to!(*xs => xs@));
                    assert(decreases_to!(xs@ => xs@[i as int]));
                }
                let e = rename_tree(&xs[i], naming);
                out.push(e);
                i = i + 1;
            }
            Json::Array(out)
        },
        Json::Object(es) => {
            let mut out: Vec<(String, Json)> = Vec::new();
            let mut i: usize = 0;
            while i < es.len()
                invariant
                    i <= es@.len(),
                    out@.len() == i,
                    *value == Json::Object(*es),
                    forall|j: int| 0 <= j < i ==> out@[j].0@ == key_in(*naming, (#[trigger] es@[j]).0@)
                        && renamed(es@[j].1, out@[j].1, *naming),
                decreases es@.len() - i,
            {
                proof {
                    assert(decreases_to!(*value => value->Object_0));
                    assert(value->Object_0 == *es);
                    assert(decreases_to!(*es => es@));
                    assert(decreases_to!(es@ => es@[i as int]));
                    assert(decreases_to!(es@[i as int] => es@[i as int].1));
                }
                let key = key_named(naming, &es[i].0);
                let e = rename_tree(&es[i].1, naming);
                out.push((key, e));
                i = i + 1;
            }
            Json::Object(out)
        },
    }
}

impl Clone for Json {
    /// A deep copy.
    fn clone(&self) -> (r: Self)
        ensures
            renamed(*self, r, KeyNaming::Unchanged),
    {
        let r = rename_tree(self, &KeyNaming::Unchanged);
        r
    }
}

/// Rename every object key, at every depth, to internal naming. Used on
/// JSON received from the backend.
pub fn normalize_json(value: Json) -> (r: Json)
    ensures
        renamed(value, r, KeyNaming::Internal),
{
    let r = rename_tree(&value, &KeyNaming::Internal);
    r
}

/// Rename every object key, at every depth, to external naming. Used on
/// JSON sent to the backend.
pub fn denormalize_json(value: Json) -> (r: Json)
    ensures
        renamed(value, r, KeyNaming::External),
{
    let r = rename_tree(&value, &KeyNaming::External);
    r
}

/// Normalizing a JSON value and denormalizing the result gives back the
/// value, whenever each of its object keys is an external name of the
/// mapping or outside the mapping altogether.
pub proof fn lemma_json_round_trip(v: Json, w: Json, u: Json)
    requires
        all_keys_round_trip(v),
        renamed(v, w, KeyNaming::Internal),
        renamed(w, u, KeyNaming::External),
    ensures
        renamed(v, u, KeyNaming::Unchanged),
    decreases v,
{
    match v {
        Json::Array(xs) => {
            assert forall|i: int| 0 <= i < xs@.len() implies renamed(#[trigger] xs@[i], u->Array_0@[i], KeyNaming::Unchanged) by {
                assert(decreases_to!(v => xs));
                assert(decreases_to!(xs => xs@));
                assert(decreases_to!(xs@ => xs@[i]));
                assert(all_keys_round_trip(xs@[i]));
                assert(renamed(xs@[i], w->Array_0@[i], KeyNaming::Internal));
                assert(renamed(w->Array_0@[i], u->Array_0@[i], KeyNaming::External));
                lemma_json_round_trip(xs@[i], w->Array_0@[i], u->Array_0@[i]);
            }
        },
        Json::Object(es) => {
            assert forall|i: int| 0 <= i < es@.len() implies u->Object_0@[i].0@ == (#[trigger] es@[i]).0@
                && renamed(es@[i].1, u->Object_0@[i].1, KeyNaming::Unchanged) by {
                assert(decreases_to!(v => es));
                assert(decreases_to!(es => es@));
                assert(decreases_to!(es@ => es@[i]));
                assert(decreases_to!(es@[i] => es@[i].1));
                assert(all_keys_round_trip(es@[i].1));
                assert(renamed(es@[i].1, w->Object_0@[i].1, KeyNaming::Internal));
                assert(renamed(w->Object_0@[i].1, u->Object_0@[i].1, KeyNaming::External));
                lemma_json_round_trip(es@[i].1, w->Object_0@[i].1, u->Object_0@[i].1);
                lemma_key_bijection(es@[i].0@);
                assert(round_trip_key(es@[i].0@));
            }
        },
        _ => {},
    }
}


/// The codec scenario: `{"projectID": _, "sessions": [{"sessionID": _,
/// "baseURL": _}]}` normalizes to `project_id`, `sessions`, `session_id`,
/// `base_url`, values kept, and denormalizes back to the input.
pub proof fn lemma_codec_scenario(v: Json, w: Json, u: Json)
    requires
        v is Object && v->Object_0@.len() == 2,
        v->Object_0@[0].0@ == "projectID"@ && v->Object_0@[0].1 is Str,
        v->Object_0@[1].0@ == "sessions"@ && v->Object_0@[1].1 is Array,
        v->Object_0@[1].1->Array_0@.len() == 1,
        v->Object_0@[1].1->Array_0@[0] is Object,
        v->Object_0@[1].1->Array_0@[0]->Object_0@.len() == 2,
        v->Object_0@[1].1->Array_0@[0]->Object_0@[0].0@ == "sessionID"@,
        v->Object_0@[1].1->Array_0@[0]->Object_0@[0].1 is Str,
        v->Object_0@[1].1->Array_0@[0]->Object_0@[1].0@ == "baseURL"@,
        v->Object_0@[1].1->Array_0@[0]->Object_0@[1].1 is Str,
        renamed(v, w, KeyNaming::Internal),
        renamed(w, u, KeyNaming::External),
    ensures
        w->Object_0@[0].0@ == "project_id"@,
        w->Object_0@[1].0@ == "sessions"@,
        w->Object_0@[1].1->Array_0@[0]->Object_0@[0].0@ == "session_id"@,
        w->Object_0@[1].1->Array_0@[0]->Object_0@[1].0@ == "base_url"@,
        renamed(v, u, KeyNaming::Unchanged),
{
    reveal_strlit("baseURL");
    reveal_strlit("base_url");
    reveal_strlit("callID");
    reveal_strlit("call_id");
    reveal_strlit("enterpriseUrl");
    reveal_strlit("enterprise_url");
    reveal_strlit("experimentalOver200K");
    reveal_strlit("experimental_over_200_k");
    reveal_strlit("messageID");
    reveal_strlit("message_id");
    reveal_strlit("modelID");
    reveal_strlit("model_id");
    reveal_strlit("parentID");
    reveal_strlit("parent_id");
    reveal_strlit("partID");
    reveal_strlit("part_id");
    reveal_strlit("projectID");
    reveal_strlit("project_id");
    reveal_strlit("providerID");
    reveal_strlit("provider_id");
    reveal_strlit("requestID");
    reveal_strlit("request_id");
    reveal_strlit("sessionID");
    reveal_strlit("session_id");
    reveal_strlit("sessions");
    reveal_strlit("snapshotID");
    reveal_strlit("snapshot_id");
    reveal_strlit("subtaskID");
    reveal_strlit("subtask_id");
    reveal_strlit("topP");
    reveal_strlit("top_p");
    assert("sessions"@.len() != "baseURL"@.len());
    assert("sessions"@[0] != "base_url"@[0]);
    assert("sessions"@.len() != "callID"@.len());
    assert("sessions"@.len() != "call_id"@.len());
    assert("sessions"@.len() != "enterpriseUrl"@.len());
    assert("sessions"@.len() != "enterprise_url"@.len());
    assert("sessions"@.len() != "experimentalOver200K"@.len());
    assert("sessions"@.len() != "experimental_over_200_k"@.len());
    assert("sessions"@.len() != "messageID"@.len());
    assert("sessions"@.len() != "message_id"@.len());
    assert("sessions"@.len() != "modelID"@.len());
    assert("sessions"@[0] != "model_id"@[0]);
    assert("sessions"@[0] != "parentID"@[0]);
    assert("sessions"@.len() != "parent_id"@.len());
    assert("sessions"@.len() != "partID"@.len());
    assert("sessions"@.len() != "part_id"@.len());
    assert("sessions"@.len() != "projectID"@.len());
    assert("sessions"@.len() != "project_id"@.len());
    assert("sessions"@.len() != "providerID"@.len());
    assert("sessions"@.len() != "provider_id"@.len());
    assert("sessions"@.len() != "requestID"@.len());
    assert("sessions"@.len() != "request_id"@.len());
    assert("sessions"@.len() != "sessionID"@.len());
    assert("sessions"@.len() != "session_id"@.len());
    assert("sessions"@.len() != "snapshotID"@.len());
    assert("sessions"@.len() != "snapshot_id"@.len());
    assert("sessions"@.len() != "subtaskID"@.len());
    assert("sessions"@.len() != "subtask_id"@.len());
    assert("sessions"@.len() != "topP"@.len());
    assert("sessions"@.len() != "top_p"@.len());
    assert("sessionID"@[0] != "projectID"@[0]);
    assert("baseURL"@.len() != "projectID"@.len());
    assert("baseURL"@.len() != "sessionID"@.len());
    assert("baseURL"@.len() != "messageID"@.len());
    assert("baseURL"@.len() != "providerID"@.len());
    assert("baseURL"@[0] != "modelID"@[0]);
    assert("baseURL"@.len() != "parentID"@.len());
    assert("baseURL"@.len() != "partID"@.len());
    assert("baseURL"@.len() != "callID"@.len());
    assert("baseURL"@.len() != "requestID"@.len());
    assert("baseURL"@.len() != "snapshotID"@.len());
    assert("baseURL"@.len() != "subtaskID"@.len());
    assert("session_id"@[0] != "project_id"@[0]);
    assert("base_url"@.len() != "project_id"@.len());
    assert("base_url"@.len() != "session_id"@.len());
    assert("base_url"@.len() != "message_id"@.len());
    assert("base_url"@.len() != "provider_id"@.len());
    assert("base_url"@[0] != "model_id"@[0]);
    assert("base_url"@.len() != "parent_id"@.len());
    assert("base_url"@.len() != "part_id"@.len());
    assert("base_url"@.len() != "call_id"@.len());
    assert("base_url"@.len() != "request_id"@.len());
    assert("base_url"@.len() != "snapshot_id"@.len());
    assert("base_url"@.len() != "subtask_id"@.len());
    let es = v->Object_0@;
    let inner = es[1].1->Array_0@[0];
    let ies = inner->Object_0@;
    assert(renamed(es[1].1, w->Object_0@[1].1, KeyNaming::Internal));
    assert(renamed(inner, w->Object_0@[1].1->Array_0@[0], KeyNaming::Internal));
    assert(all_keys_round_trip(ies[0].1));
    assert(all_keys_round_trip(ies[1].1));
    assert(round_trip_key(ies[0].0@));
    assert(round_trip_key(ies[1].0@));
    assert(all_keys_round_trip(inner));
    assert(all_keys_round_trip(es[1].1));
    assert(all_keys_round_trip(es[0].1));
    assert(round_trip_key(es[0].0@));
    assert(round_trip_key(es[1].0@));
    assert(all_keys_round_trip(v));
    lemma_json_round_trip(v, w, u);
}

} // verus!
