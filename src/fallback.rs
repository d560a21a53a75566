use vstd::prelude::*;

use crate::error::LookupError;
use crate::json::{FieldModel, JsonField, distinct_names, json_members, members_view, read_members};

verus! {

/// Every member of the object holds a string.
pub open spec fn all_text(ms: Seq<(Seq<char>, FieldModel)>) -> bool {
    forall|i: int| 0 <= i < ms.len() ==> #[trigger] ms[i].1 is Text
}

/// The members of an object of strings, as name and string.
pub open spec fn text_pairs(ms: Seq<(Seq<char>, FieldModel)>) -> Seq<(Seq<char>, Seq<char>)> {
    ms.map_values(
        |m: (Seq<char>, FieldModel)|
            (
                m.0,
                match m.1 {
                    FieldModel::Text(s) => s,
                    _ => Seq::empty(),
                },
            ),
    )
}

/// The text of a list of string pairs.
pub open spec fn pairs_view(ps: Seq<(String, String)>) -> Seq<(Seq<char>, Seq<char>)> {
    ps.map_values(|p: (String, String)| (p.0@, p.1@))
}

/// What decoding a body as an open object of strings yields.
pub open spec fn fallback_result(
    body: Seq<char>,
    r: Result<Vec<(String, String)>, LookupError>,
) -> bool {
    match json_members(body) {
        None => r == Err::<Vec<(String, String)>, LookupError>(LookupError::Decode),
        Some(ms) => members_pairs(ms, r),
    }
}

/// What reading string pairs from the members `ms` yields.
pub open spec fn members_pairs(
    ms: Seq<(Seq<char>, FieldModel)>,
    r: Result<Vec<(String, String)>, LookupError>,
) -> bool {
    match r {
        Ok(ps) => all_text(ms) && pairs_view(ps@) == text_pairs(ms),
        Err(e) => !all_text(ms) && e == LookupError::Decode,
    }
}

/// Decoding an object whose members are all strings succeeds, and yields
/// exactly its members as name and string, unknown names included, each name
/// once.
pub proof fn lemma_fallback_keeps_members(body: Seq<char>, r: Result<Vec<(String, String)>, LookupError>)
    requires
        json_members(body) matches Some(ms) && distinct_names(ms) && all_text(ms),
        fallback_result(body, r),
    ensures
        r matches Ok(ps) && {
            let ms = json_members(body)->Some_0;
            let pv = pairs_view(ps@);
            &&& forall|k: Seq<char>, v: Seq<char>|
                (exists|i: int| 0 <= i < ms.len() && #[trigger] ms[i] == (k, FieldModel::Text(v)))
                    <==> pv.contains((k, v))
            &&& forall|i: int, j: int|
                0 <= i < pv.len() && 0 <= j < pv.len() && i != j ==> #[trigger] pv[i].0
                    != #[trigger] pv[j].0
        },
{
    let ms = json_members(body)->Some_0;
    let pv = pairs_view(r->Ok_0@);
    assert(pv.len() == ms.len());
    assert forall|i: int| 0 <= i < ms.len() implies #[trigger] ms[i] == (
        pv[i].0,
        FieldModel::Text(pv[i].1),
    ) by {
        assert(ms[i].1 is Text);
        assert(pv[i] == text_pairs(ms)[i]);
    }
    assert forall|k: Seq<char>, v: Seq<char>|
        (exists|i: int| 0 <= i < ms.len() && #[trigger] ms[i] == (k, FieldModel::Text(v)))
            <==> pv.contains((k, v)) by {
        if exists|i: int| 0 <= i < ms.len() && #[trigger] ms[i] == (k, FieldModel::Text(v)) {
            let i = choose|i: int| 0 <= i < ms.len() && #[trigger] ms[i] == (k, FieldModel::Text(v));
            assert(pv[i] == (k, v));
        }
        if pv.contains((k, v)) {
            let i = choose|i: int| 0 <= i < pv.len() && pv[i] == (k, v);
            assert(ms[i] == (k, FieldModel::Text(v)));
        }
    }
    assert forall|i: int, j: int|
        0 <= i < pv.len() && 0 <= j < pv.len() && i != j implies #[trigger] pv[i].0
        != #[trigger] pv[j].0 by {
        assert(ms[i].0 != ms[j].0);
    }
}

/// Reads the members of a JSON object as name and string, in their order.
/// Fails with `Decode` where a member is no string.
pub fn pairs_from_members(ms: &Vec<(String, JsonField)>) -> (r: Result<Vec<(String, String)>, LookupError>)
    ensures
        members_pairs(members_view(ms@), r),
{
    let ghost mv = members_view(ms@);
    let mut out: Vec<(String, String)> = Vec::new();
    let mut i: usize = 0;
    while i < ms.len()
        invariant
            i <= ms.len(),
            mv == members_view(ms@),
            forall|j: int| 0 <= j < i ==> #[trigger] mv[j].1 is Text,
            pairs_view(out@) =~= text_pairs(mv).take(i as int),
        decreases ms.len() - i,
    {
        let m = &ms[i];
        proof {
            assert(mv[i as int] == (m.0@, m.1@));
        }
        match &m.1 {
            JsonField::Text(s) => {
                let ghost before = out@;
                out.push((m.0.clone(), s.clone()));
                proof {
                    assert(pairs_view(out@) =~= pairs_view(before).push((m.0@, s@)));
                    assert(text_pairs(mv).take(i + 1) =~= text_pairs(mv).take(i as int).push(
                        (m.0@, s@),
                    ));
                }
            },
            _ => {
                proof {
                    assert(!(mv[i as int].1 is Text));
                }
                return Err(LookupError::Decode);
            },
        }
        i += 1;
    }
    proof {
        assert(text_pairs(mv).take(i as int) =~= text_pairs(mv));
    }
    Ok(out)
}

/// Decodes a response body into the list of its members, each a name and a
/// string, names distinct, every member kept whatever its name. Fails with
/// `Decode` where the body is no JSON object or a member is no string.
pub fn decode_fallback(body: &str) -> (r: Result<Vec<(String, String)>, LookupError>)
    ensures
        fallback_result(body@, r),
        json_members(body@) matches Some(ms) ==> distinct_names(ms),
{
    match read_members(body) {
        Some(ms) => pairs_from_members(&ms),
        None => Err(LookupError::Decode),
    }
}

} // verus!
