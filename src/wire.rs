use vstd::prelude::*;
use vstd::string::*;

use crate::error::{Field, Violation};
use crate::json::{json_text, parse_json, parsed_json, write_json, Json};

verus! {

/// `i` is the first position of `m` whose key is `key`.
pub open spec fn first_key(m: Seq<(String, Json)>, key: Seq<char>, i: int) -> bool {
    &&& 0 <= i < m.len()
    &&& m[i].0@ == key
    &&& forall|j: int| 0 <= j < i ==> m[j].0@ != key
}

/// The value of the first member of `m` named `key`, if any.
pub open spec fn member(m: Seq<(String, Json)>, key: Seq<char>) -> Option<Json> {
    if exists|i: int| first_key(m, key, i) {
        Some(m[choose|i: int| first_key(m, key, i)].1)
    } else {
        None
    }
}

/// What a response document decodes to: the members of its
/// `outputProperties` object, or the way in which it breaks the protocol.
pub open spec fn response_spec(doc: Json) -> Result<Vec<(String, Json)>, Violation> {
    match doc {
        Json::Object(m) => match member(m@, "outputProperties"@) {
            Some(Json::Object(p)) => Ok(p),
            Some(_) => Err(Violation::WrongType(Field::OutputProperties)),
            None => Err(Violation::MissingField(Field::OutputProperties)),
        },
        _ => Err(Violation::NotAnObject),
    }
}

/// What a request document decodes to: its resource type and the members of
/// its `inputProperties` object, or the way in which it breaks the protocol.
pub open spec fn request_spec(doc: Json) -> Result<(String, Vec<(String, Json)>), Violation> {
    match doc {
        Json::Object(m) => match member(m@, "type"@) {
            Some(Json::Str(t)) => match member(m@, "inputProperties"@) {
                Some(Json::Object(p)) => Ok((t, p)),
                Some(_) => Err(Violation::WrongType(Field::InputProperties)),
                None => Err(Violation::MissingField(Field::InputProperties)),
            },
            Some(_) => Err(Violation::WrongType(Field::Type)),
            None => Err(Violation::MissingField(Field::Type)),
        },
        _ => Err(Violation::NotAnObject),
    }
}

/// `d` is the request document for resource type `t` with input properties
/// `inputs`: an object whose members are `type` and `inputProperties`.
pub open spec fn is_request_doc(d: Json, t: Seq<char>, inputs: Vec<(String, Json)>) -> bool {
    &&& d matches Json::Object(m)
    &&& m@.len() == 2
    &&& m@[0].0@ == "type"@
    &&& m@[0].1 matches Json::Str(s) && s@ == t
    &&& m@[1].0@ == "inputProperties"@
    &&& m@[1].1 == Json::Object(inputs)
}

/// `d` is the response document whose output properties are `outputs`.
pub open spec fn is_response_doc(d: Json, outputs: Vec<(String, Json)>) -> bool {
    &&& d matches Json::Object(m)
    &&& m@.len() == 1
    &&& m@[0].0@ == "outputProperties"@
    &&& m@[0].1 == Json::Object(outputs)
}

/// `r` is one line on the wire that carries the document `d`: its compact
/// text, then a line break, and no other line break.
pub open spec fn is_line_of(r: Seq<char>, d: Json) -> bool {
    &&& r == json_text(d).push('\n')
    &&& !r.drop_last().contains('\n')
}

/// The position of the first member of `m` named `key`, if any.
pub fn lookup(m: &Vec<(String, Json)>, key: &str) -> (r: Option<usize>)
    ensures
        r is Some <==> exists|i: int| first_key(m@, key@, i),
        r is Some ==> first_key(m@, key@, r->0 as int),
        r is Some ==> member(m@, key@) == Some(m@[r->0 as int].1),
        r is None ==> member(m@, key@) is None,
{
    let k = key.to_owned();
    let mut i: usize = 0;
    while i < m.len()
        invariant
            i <= m@.len(),
            k@ == key@,
            forall|j: int| 0 <= j < i ==> m@[j].0@ != key@,
        decreases m@.len() - i,
    {
        if m[i].0 == k {
            proof {
                assert(first_key(m@, key@, i as int));
                let c = choose|c: int| first_key(m@, key@, c);
                assert(c == i as int);
            }
            return Some(i);
        }
        i = i + 1;
    }
    proof {
        assert forall|c: int| !first_key(m@, key@, c) by {
            if 0 <= c < m@.len() {
                assert(m@[c].0@ != key@);
            }
        }
    }
    None
}

/// Takes the value of the first member of `m` named `key` out of `m`.
fn take_member(m: &mut Vec<(String, Json)>, key: &str) -> (r: Option<Json>)
    ensures
        r == member(old(m)@, key@),
{
    match lookup(m, key) {
        Some(i) => {
            let (_, v) = m.remove(i);
            Some(v)
        },
        None => None,
    }
}

/// Decodes a response document.
pub fn decode_response(doc: Json) -> (r: Result<Vec<(String, Json)>, Violation>)
    ensures
        r == response_spec(doc),
{
    match doc {
        Json::Object(m) => {
            let mut m = m;
            match take_member(&mut m, "outputProperties") {
                Some(Json::Object(p)) => Ok(p),
                Some(_) => Err(Violation::WrongType(Field::OutputProperties)),
                None => Err(Violation::MissingField(Field::OutputProperties)),
            }
        },
        _ => Err(Violation::NotAnObject),
    }
}

/// Decodes a request document.
pub fn decode_request(doc: Json) -> (r: Result<(String, Vec<(String, Json)>), Violation>)
    ensures
        r == request_spec(doc),
{
    match doc {
        Json::Object(m) => {
            let mut m = m;
            let ghost m0 = m@;
            let ti = lookup(&m, "type");
            let pi = lookup(&m, "inputProperties");
            proof {
                reveal_strlit("type");
                reveal_strlit("inputProperties");
            }
            let a = match ti {
                Some(a) => a,
                None => {
                    return Err(Violation::MissingField(Field::Type));
                },
            };
            let type_is_str = match &m[a].1 {
                Json::Str(_) => true,
                _ => false,
            };
            if !type_is_str {
                return Err(Violation::WrongType(Field::Type));
            }
            let b = match pi {
                Some(b) => b,
                None => {
                    return Err(Violation::MissingField(Field::InputProperties));
                },
            };
            let inputs_is_object = match &m[b].1 {
                Json::Object(_) => true,
                _ => false,
            };
            if !inputs_is_object {
                return Err(Violation::WrongType(Field::InputProperties));
            }
            assert(a != b);
            let (tv, pv) = if a < b {
                let (_, pv) = m.remove(b);
                let (_, tv) = m.remove(a);
                (tv, pv)
            } else {
                let (_, tv) = m.remove(a);
                let (_, pv) = m.remove(b);
                (tv, pv)
            };
            assert(tv == m0[a as int].1);
            assert(pv == m0[b as int].1);
            match (tv, pv) {
                (Json::Str(t), Json::Object(p)) => Ok((t, p)),
                _ => Err(Violation::NotAnObject),
            }
        },
        _ => Err(Violation::NotAnObject),
    }
}

/// Reads one response line: it must be valid JSON, and decode as a
/// response document.
pub fn parse_response_line(line: &str) -> (r: Result<Vec<(String, Json)>, Violation>)
    ensures
        parsed_json(line@) is None ==> r matches Err(Violation::Malformed(_)),
        parsed_json(line@) matches Some(doc) ==> r == response_spec(doc),
{
    match parse_json(line) {
        Ok(doc) => decode_response(doc),
        Err(msg) => Err(Violation::Malformed(msg)),
    }
}

/// Reads one request line: it must be valid JSON, and decode as a request
/// document.
pub fn parse_request_line(line: &str) -> (r: Result<(String, Vec<(String, Json)>), Violation>)
    ensures
        parsed_json(line@) is None ==> r matches Err(Violation::Malformed(_)),
        parsed_json(line@) matches Some(doc) ==> r == request_spec(doc),
{
    match parse_json(line) {
        Ok(doc) => decode_request(doc),
        Err(msg) => Err(Violation::Malformed(msg)),
    }
}

/// Writes a document as one line on the wire.
fn encode_line(d: &Json) -> (r: String)
    ensures
        is_line_of(r@, *d),
{
    let s = write_json(d);
    let r = s.concat("\n");
    proof {
        reveal_strlit("\n");
        assert(r@.drop_last() =~= s@);
        assert(r@ =~= s@.push('\n'));
    }
    r
}

/// The request line that asks a provider to create a resource of type
/// `type_` with the given input properties.
pub fn create_request_line(type_: &str, inputs: Vec<(String, Json)>) -> (r: String)
    ensures
        exists|d: Json| is_request_doc(d, type_@, inputs) && is_line_of(r@, d),
{
    let ghost g = inputs;
    let mut m: Vec<(String, Json)> = Vec::new();
    m.push(("type".to_owned(), Json::Str(type_.to_owned())));
    m.push(("inputProperties".to_owned(), Json::Object(inputs)));
    let d = Json::Object(m);
    let r = encode_line(&d);
    assert(is_request_doc(d, type_@, g));
    r
}

/// The response line that hands the output properties back to the host.
pub fn encode_response_line(outputs: Vec<(String, Json)>) -> (r: String)
    ensures
        exists|d: Json| is_response_doc(d, outputs) && is_line_of(r@, d),
{
    let ghost g = outputs;
    let mut m: Vec<(String, Json)> = Vec::new();
    m.push(("outputProperties".to_owned(), Json::Object(outputs)));
    let d = Json::Object(m);
    let r = encode_line(&d);
    assert(is_response_doc(d, g));
    r
}

} // verus!
