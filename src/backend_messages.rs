//! JSON bodies sent to the backend, and the reshaping of its reply to a
//! chat message.

use vstd::prelude::*;

use crate::field_normalizer::{renamed, Json, KeyNaming};
use crate::oauth::entry_at;
use crate::text::{owned, same_text};

verus! {

broadcast use vstd::string::group_string_axioms;

/// A text with every `-` turned into `_`.
pub open spec fn dashes_to_underscores(s: Seq<char>) -> Seq<char> {
    s.map_values(|c: char| if c == '-' { '_' } else { c })
}

pub fn replace_dashes(s: &str) -> (r: String)
    ensures
        r@ == dashes_to_underscores(s@),
{
    let n = s.unicode_len();
    let mut out = String::new();
    let mut i: usize = 0;
    while i < n
        invariant
            n == s@.len(),
            i <= n,
            out@ =~= dashes_to_underscores(s@.subrange(0, i as int)),
        decreases n - i,
    {
        let c = s.get_char(i);
        proof {
            reveal_strlit("-");
            reveal_strlit("_");
        }
        if c == '-' {
            out.append("_");
        } else {
            out.append(s.substring_char(i, i + 1));
        }
        proof {
            assert(dashes_to_underscores(s@.subrange(0, i + 1)) =~= dashes_to_underscores(s@.subrange(0, i as int))
                + seq![if c == '-' { '_' } else { c }]);
        }
        i = i + 1;
    }
    proof {
        assert(s@.subrange(0, n as int) =~= s@);
    }
    out
}

/// The `type` of a part: the string under its first `type` key.
pub open spec fn part_type(p: Json) -> Option<Seq<char>> {
    match p {
        Json::Object(es) => match entry_at(es@, "type"@) {
            Some(Json::Str(t)) => Some(t@),
            _ => None,
        },
        _ => None,
    }
}

/// `out` holds, in order, each typed part of `parts` wrapped as a one-entry
/// object `{<type with _ for ->: <part>}`; untyped parts are dropped.
pub open spec fn wraps(parts: Seq<Json>, out: Seq<Json>) -> bool
    decreases parts.len(),
{
    if parts.len() == 0 {
        out.len() == 0
    } else if part_type(parts[0]) is Some {
        &&& out.len() > 0
        &&& out[0] is Object
        &&& out[0]->Object_0@.len() == 1
        &&& out[0]->Object_0@[0].0@ == dashes_to_underscores(part_type(parts[0])->0)
        &&& renamed(parts[0], out[0]->Object_0@[0].1, KeyNaming::Unchanged)
        &&& wraps(parts.drop_first(), out.drop_first())
    } else {
        wraps(parts.drop_first(), out)
    }
}

fn type_of_part(p: &Json) -> (r: Option<String>)
    ensures
        r is Some <==> part_type(*p) is Some,
        r is Some ==> r->0@ == part_type(*p)->0,
{
    match p {
        Json::Object(es) => {
            let mut i: usize = 0;
            proof {
                assert(es@.subrange(0, es@.len() as int) =~= es@);
            }
            while i < es.len()
                invariant
                    i <= es@.len(),
                    *p == Json::Object(*es),
                    entry_at(es@, "type"@) == entry_at(es@.subrange(i as int, es@.len() as int), "type"@),
                decreases es@.len() - i,
            {
                proof {
                    assert(es@.subrange(i as int, es@.len() as int).drop_first() =~= es@.subrange(i + 1, es@.len() as int));
                }
                if same_text(es[i].0.as_str(), "type") {
                    proof {
                        assert(es@.subrange(i as int, es@.len() as int)[0] == es@[i as int]);
                        assert(entry_at(es@, "type"@) == Some(es@[i as int].1));
                    }
                    return match &es[i].1 {
                        Json::Str(t) => Some(owned(t.as_str())),
                        _ => None,
                    };
                }
                i = i + 1;
            }
            None
        },
        _ => None,
    }
}

proof fn lemma_wraps_extend(parts: Seq<Json>, out: Seq<Json>, p: Json, extra: Seq<Json>)
    requires
        wraps(parts, out),
        part_type(p) is None ==> extra.len() == 0,
        part_type(p) is Some ==> extra.len() == 1 && extra[0] is Object && extra[0]->Object_0@.len() == 1
            && extra[0]->Object_0@[0].0@ == dashes_to_underscores(part_type(p)->0)
            && renamed(p, extra[0]->Object_0@[0].1, KeyNaming::Unchanged),
    ensures
        wraps(parts.push(p), out + extra),
    decreases parts.len(),
{
    if parts.len() == 0 {
        let q = parts.push(p);
        assert(q.drop_first() =~= Seq::<Json>::empty());
        assert(q[0] == p);
        assert(out.len() == 0);
        assert(out + extra =~= extra);
        if part_type(p) is Some {
            assert(extra.drop_first() =~= Seq::<Json>::empty());
            assert(wraps(q.drop_first(), extra.drop_first()));
        } else {
            assert(extra =~= Seq::<Json>::empty());
            assert(wraps(q.drop_first(), extra));
        }
    } else {
        assert(parts.push(p).drop_first() =~= parts.drop_first().push(p));
        assert(parts.push(p)[0] == parts[0]);
        if part_type(parts[0]) is Some {
            lemma_wraps_extend(parts.drop_first(), out.drop_first(), p, extra);
            assert((out + extra).drop_first() =~= out.drop_first() + extra);
            assert((out + extra)[0] == out[0]);
        } else {
            lemma_wraps_extend(parts.drop_first(), out, p, extra);
        }
    }
}

/// Wrap each typed part as `{<type with _ for ->: <part>}`, dropping the
/// others; anything but an array gives an empty array.
pub fn wrap_parts(parts: &Json) -> (r: Json)
    ensures
        r is Array,
        parts is Array ==> wraps(parts->Array_0@, r->Array_0@),
        !(parts is Array) ==> r->Array_0@.len() == 0,
{
    let xs = match parts {
        Json::Array(xs) => xs,
        _ => return Json::Array(Vec::new()),
    };
    let mut out: Vec<Json> = Vec::new();
    let mut i: usize = 0;
    proof {
        assert(xs@.subrange(0, 0) =~= Seq::<Json>::empty());
    }
    while i < xs.len()
        invariant
            i <= xs@.len(),
            wraps(xs@.subrange(0, i as int), out@),
        decreases xs@.len() - i,
    {
        let ghost before = out@;
        let p = &xs[i];
        match type_of_part(p) {
            Some(t) => {
                let key = replace_dashes(t.as_str());
                let part = p.clone();
                let mut entry: Vec<(String, Json)> = Vec::new();
                entry.push((key, part));
                out.push(Json::Object(entry));
                proof {
                    lemma_wraps_extend(xs@.subrange(0, i as int), before, *p, seq![out@.last()]);
                    assert(before + seq![out@.last()] =~= out@);
                }
            },
            None => {
                proof {
                    lemma_wraps_extend(xs@.subrange(0, i as int), before, *p, Seq::empty());
                    assert(before + Seq::<Json>::empty() =~= out@);
                }
            },
        }
        proof {
            assert(xs@.subrange(0, i as int).push(xs@[i as int]) =~= xs@.subrange(0, i + 1));
        }
        i = i + 1;
    }
    proof {
        assert(xs@.subrange(0, xs@.len() as int) =~= xs@);
    }
    Json::Array(out)
}

fn text(s: &str) -> (r: Json)
    ensures
        r is Str && r->Str_0@ == s@,
{
    Json::Str(s.to_owned())
}

fn entry(key: &str, value: Json) -> (r: (String, Json))
    ensures
        r.0@ == key@ && r.1 == value,
{
    (key.to_owned(), value)
}

/// The body of a chat message: `{"model": {"modelID", "providerID"},
/// "parts": [{"type": "text", "text"}], "agent"}`, with agent `build` when
/// none is given.
pub fn send_message_body(text_value: &str, model_id: &str, provider_id: &str, agent: Option<&str>) -> (r: Json)
    ensures
        r is Object && r->Object_0@.len() == 3,
        r->Object_0@[0].0@ == "model"@ && r->Object_0@[1].0@ == "parts"@ && r->Object_0@[2].0@ == "agent"@,
        r->Object_0@[2].1 is Str && r->Object_0@[2].1->Str_0@ == (match agent { Some(a) => a@, None => "build"@ }),
        ({
            let model = r->Object_0@[0].1;
            &&& model is Object && model->Object_0@.len() == 2
            &&& model->Object_0@[0].0@ == "modelID"@ && model->Object_0@[0].1 is Str
            &&& model->Object_0@[0].1->Str_0@ == model_id@
            &&& model->Object_0@[1].0@ == "providerID"@ && model->Object_0@[1].1 is Str
            &&& model->Object_0@[1].1->Str_0@ == provider_id@
        }),
        ({
            let parts = r->Object_0@[1].1;
            &&& parts is Array && parts->Array_0@.len() == 1
            &&& parts->Array_0@[0] is Object && parts->Array_0@[0]->Object_0@.len() == 2
            &&& parts->Array_0@[0]->Object_0@[0].0@ == "type"@ && parts->Array_0@[0]->Object_0@[0].1 is Str
            &&& parts->Array_0@[0]->Object_0@[0].1->Str_0@ == "text"@
            &&& parts->Array_0@[0]->Object_0@[1].0@ == "text"@ && parts->Array_0@[0]->Object_0@[1].1 is Str
            &&& parts->Array_0@[0]->Object_0@[1].1->Str_0@ == text_value@
        }),
{
    let mut model: Vec<(String, Json)> = Vec::new();
    model.push(entry("modelID", text(model_id)));
    model.push(entry("providerID", text(provider_id)));
    let mut part: Vec<(String, Json)> = Vec::new();
    part.push(entry("type", text("text")));
    part.push(entry("text", text(text_value)));
    let mut parts: Vec<Json> = Vec::new();
    parts.push(Json::Object(part));
    let agent_name = match agent {
        Some(a) => a,
        None => "build",
    };
    let mut body: Vec<(String, Json)> = Vec::new();
    body.push(entry("model", Json::Object(model)));
    body.push(entry("parts", Json::Array(parts)));
    body.push(entry("agent", text(agent_name)));
    Json::Object(body)
}

/// The body that stores an API key: `{"type": "api", "key": <key>}`.
pub fn api_key_body(key: &str) -> (r: Json)
    ensures
        r is Object && r->Object_0@.len() == 2,
        r->Object_0@[0].0@ == "type"@ && r->Object_0@[0].1 is Str && r->Object_0@[0].1->Str_0@ == "api"@,
        r->Object_0@[1].0@ == "key"@ && r->Object_0@[1].1 is Str && r->Object_0@[1].1->Str_0@ == key@,
{
    let mut body: Vec<(String, Json)> = Vec::new();
    body.push(entry("type", text("api")));
    body.push(entry("key", text(key)));
    Json::Object(body)
}

/// The body that creates a session: `{"title": <title>}`, or `{}`.
pub fn create_session_body(title: Option<&str>) -> (r: Json)
    ensures
        r is Object,
        title is None ==> r->Object_0@.len() == 0,
        title is Some ==> r->Object_0@.len() == 1 && r->Object_0@[0].0@ == "title"@
            && r->Object_0@[0].1 is Str && r->Object_0@[0].1->Str_0@ == title->0@,
{
    let mut body: Vec<(String, Json)> = Vec::new();
    if let Some(t) = title {
        body.push(entry("title", text(t)));
    }
    Json::Object(body)
}

/// `out` holds, in order, the entries of `src` whose key is not `parts`,
/// each with the same key and a copy of its value.
pub open spec fn kept_entries(src: Seq<(String, Json)>, out: Seq<(String, Json)>) -> bool
    decreases src.len(),
{
    if src.len() == 0 {
        out.len() == 0
    } else if src[0].0@ == "parts"@ {
        kept_entries(src.drop_first(), out)
    } else {
        &&& out.len() > 0
        &&& out[0].0@ == src[0].0@
        &&& renamed(src[0].1, out[0].1, KeyNaming::Unchanged)
        &&& kept_entries(src.drop_first(), out.drop_first())
    }
}

proof fn lemma_kept_extend(src: Seq<(String, Json)>, out: Seq<(String, Json)>, e: (String, Json), extra: Seq<(String, Json)>)
    requires
        kept_entries(src, out),
        e.0@ == "parts"@ ==> extra.len() == 0,
        e.0@ != "parts"@ ==> extra.len() == 1 && extra[0].0@ == e.0@ && renamed(e.1, extra[0].1, KeyNaming::Unchanged),
    ensures
        kept_entries(src.push(e), out + extra),
    decreases src.len(),
{
    let q = src.push(e);
    if src.len() == 0 {
        assert(q.drop_first() =~= Seq::<(String, Json)>::empty());
        assert(q[0] == e);
        assert(out.len() == 0);
        assert(out + extra =~= extra);
        if e.0@ != "parts"@ {
            assert(extra.drop_first() =~= Seq::<(String, Json)>::empty());
            assert(kept_entries(q.drop_first(), extra.drop_first()));
        } else {
            assert(extra =~= Seq::<(String, Json)>::empty());
            assert(kept_entries(q.drop_first(), extra));
        }
    } else {
        assert(q.drop_first() =~= src.drop_first().push(e));
        assert(q[0] == src[0]);
        if src[0].0@ == "parts"@ {
            lemma_kept_extend(src.drop_first(), out, e, extra);
        } else {
            lemma_kept_extend(src.drop_first(), out.drop_first(), e, extra);
            assert((out + extra).drop_first() =~= out.drop_first() + extra);
            assert((out + extra)[0] == out[0]);
        }
    }
}

/// The `parts` the reply carries: its first `parts` entry, if any.
pub open spec fn reply_parts(reply: Json) -> Option<Json> {
    match reply {
        Json::Object(es) => entry_at(es@, "parts"@),
        _ => None,
    }
}

/// The parts, wrapped: those of the reply when it carries an array of
/// parts, none otherwise.
pub open spec fn wrapped_from(reply: Json, w: Json) -> bool {
    &&& w is Array
    &&& (reply_parts(reply) is Some && reply_parts(reply)->0 is Array) ==> wraps(
        reply_parts(reply)->0->Array_0@,
        w->Array_0@,
    )
    &&& !(reply_parts(reply) is Some && reply_parts(reply)->0 is Array) ==> w->Array_0@.len() == 0
}

/// Reshape the backend's reply to a chat message, `{"info", "parts"}`
/// (already in internal naming): `info` is returned with its other entries
/// kept in order and the wrapped parts as its last entry, `parts`. Fails
/// when there is no `info`.
pub fn assistant_reply(reply: Json) -> (r: Result<Json, String>)
    ensures
        (r is Err) <==> !(reply is Object && entry_at(reply->Object_0@, "info"@) is Some),
        r is Err ==> r->Err_0@ == "Response missing 'info' field"@,
        r is Ok && entry_at(reply->Object_0@, "info"@)->0 is Object ==> ({
            let info = entry_at(reply->Object_0@, "info"@)->0->Object_0@;
            let out = r->Ok_0;
            &&& out is Object
            &&& out->Object_0@.len() > 0
            &&& out->Object_0@.last().0@ == "parts"@
            &&& wrapped_from(reply, out->Object_0@.last().1)
            &&& kept_entries(info, out->Object_0@.drop_last())
        }),
        r is Ok && !(entry_at(reply->Object_0@, "info"@)->0 is Object) ==> renamed(
            entry_at(reply->Object_0@, "info"@)->0,
            r->Ok_0,
            KeyNaming::Unchanged,
        ),
{
    let es = match &reply {
        Json::Object(es) => es,
        _ => return Err("Response missing 'info' field".to_string()),
    };
    let mut info: Option<&Json> = None;
    let mut parts: Option<&Json> = None;
    let mut i: usize = 0;
    proof {
        assert(es@.subrange(0, es@.len() as int) =~= es@);
    }
    while i < es.len()
        invariant
            i <= es@.len(),
            reply == Json::Object(*es),
            info is None ==> entry_at(es@, "info"@) == entry_at(es@.subrange(i as int, es@.len() as int), "info"@),
            info is Some ==> entry_at(es@, "info"@) == Some(*info->0),
            parts is None ==> entry_at(es@, "parts"@) == entry_at(es@.subrange(i as int, es@.len() as int), "parts"@),
            parts is Some ==> entry_at(es@, "parts"@) == Some(*parts->0),
        decreases es@.len() - i,
    {
        proof {
            assert(es@.subrange(i as int, es@.len() as int).drop_first() =~= es@.subrange(i + 1, es@.len() as int));
            assert(es@.subrange(i as int, es@.len() as int)[0] == es@[i as int]);
        }
        if info.is_none() && same_text(es[i].0.as_str(), "info") {
            info = Some(&es[i].1);
        }
        if parts.is_none() && same_text(es[i].0.as_str(), "parts") {
            parts = Some(&es[i].1);
        }
        i = i + 1;
    }
    let wrapped = match parts {
        Some(p) => wrap_parts(p),
        None => Json::Array(Vec::new()),
    };
    match info {
        None => Err("Response missing 'info' field".to_string()),
        Some(Json::Object(fields)) => {
            let mut out: Vec<(String, Json)> = Vec::new();
            let mut k: usize = 0;
            proof {
                reveal_strlit("parts");
                assert(fields@.subrange(0, 0) =~= Seq::<(String, Json)>::empty());
            }
            while k < fields.len()
                invariant
                    k <= fields@.len(),
                    kept_entries(fields@.subrange(0, k as int), out@),
                decreases fields@.len() - k,
            {
                let ghost before = out@;
                if !same_text(fields[k].0.as_str(), "parts") {
                    out.push((owned(fields[k].0.as_str()), fields[k].1.clone()));
                    proof {
                        lemma_kept_extend(fields@.subrange(0, k as int), before, fields@[k as int], seq![out@.last()]);
                        assert(before + seq![out@.last()] =~= out@);
                    }
                } else {
                    proof {
                        lemma_kept_extend(fields@.subrange(0, k as int), before, fields@[k as int], Seq::empty());
                        assert(before + Seq::<(String, Json)>::empty() =~= out@);
                    }
                }
                proof {
                    assert(fields@.subrange(0, k as int).push(fields@[k as int]) =~= fields@.subrange(0, k + 1));
                }
                k = k + 1;
            }
            proof {
                assert(fields@.subrange(0, fields@.len() as int) =~= fields@);
            }
            let ghost kept = out@;
            out.push(("parts".to_string(), wrapped));
            proof {
                assert(out@.drop_last() =~= kept);
            }
            Ok(Json::Object(out))
        },
        Some(other) => Ok(other.clone()),
    }
}

} // verus!
