use vstd::prelude::*;
use vstd::string::StringExecFns;

verus! {

/// A JSON number as the JSON library stores it: a non-negative integer, a
/// negative integer, or a finite double kept as its IEEE-754 bit pattern.
#[derive(Clone, Copy, PartialEq, Eq, Structural, Debug)]
pub enum JsonNumber {
    PosInt(u64),
    NegInt(i64),
    Float(u64),
}

/// A dynamically typed JSON value. Object members keep their order.
#[derive(Debug, PartialEq)]
pub enum JsonValue {
    Null,
    Bool(bool),
    Number(JsonNumber),
    String(String),
    Array(Vec<JsonValue>),
    Object(Vec<(String, JsonValue)>),
}

/// The mathematical model of a `JsonValue`.
pub enum JsonTree {
    Null,
    Bool(bool),
    Number(JsonNumber),
    Str(Seq<char>),
    Array(Seq<JsonTree>),
    Object(Seq<(Seq<char>, JsonTree)>),
}

impl JsonValue {
    pub open spec fn view(&self) -> JsonTree
        decreases self,
    {
        match self {
            JsonValue::Null => JsonTree::Null,
            JsonValue::Bool(b) => JsonTree::Bool(*b),
            JsonValue::Number(n) => JsonTree::Number(*n),
            JsonValue::String(s) => JsonTree::Str(s@),
            JsonValue::Array(a) => JsonTree::Array(
                Seq::new(a@.len(), |i: int| if 0 <= i < a@.len() { a@[i].view() } else { JsonTree::Null }),
            ),
            JsonValue::Object(o) => JsonTree::Object(
                Seq::new(o@.len(), |i: int| if 0 <= i < o@.len() { (o@[i].0@, o@[i].1.view()) } else { (Seq::empty(), JsonTree::Null) }),
            ),
        }
    }
}


/// A value of the vector store's payload: the store's own tagged union.
/// A double is kept as its IEEE-754 bit pattern.
#[derive(Debug, PartialEq)]
pub enum StructuredValue {
    NullValue,
    BoolValue(bool),
    IntegerValue(i64),
    DoubleValue(u64),
    StringValue(String),
    ListValue(Vec<StructuredValue>),
    StructValue(Vec<(String, StructuredValue)>),
}

/// The mathematical model of a `StructuredValue`.
pub enum StructuredTree {
    Null,
    Bool(bool),
    Integer(i64),
    Double(u64),
    Str(Seq<char>),
    List(Seq<StructuredTree>),
    Struct(Seq<(Seq<char>, StructuredTree)>),
}

impl StructuredValue {
    pub open spec fn view(&self) -> StructuredTree
        decreases self,
    {
        match self {
            StructuredValue::NullValue => StructuredTree::Null,
            StructuredValue::BoolValue(b) => StructuredTree::Bool(*b),
            StructuredValue::IntegerValue(i) => StructuredTree::Integer(*i),
            StructuredValue::DoubleValue(d) => StructuredTree::Double(*d),
            StructuredValue::StringValue(s) => StructuredTree::Str(s@),
            StructuredValue::ListValue(a) => StructuredTree::List(
                Seq::new(a@.len(), |i: int| if 0 <= i < a@.len() { a@[i].view() } else { StructuredTree::Null }),
            ),
            StructuredValue::StructValue(o) => StructuredTree::Struct(
                Seq::new(o@.len(), |i: int| if 0 <= i < o@.len() { (o@[i].0@, o@[i].1.view()) } else { (Seq::empty(), StructuredTree::Null) }),
            ),
        }
    }
}

/// The bit pattern of the double nearest to the unsigned integer `n`.
pub uninterp spec fn unsigned_double_bits(n: u64) -> u64;

/// Relies on serde_json::Number::as_f64: a number made from an unsigned
/// integer always has a double value: the integer rounded to a double.
#[verifier::external_body]
fn unsigned_as_double(n: u64) -> (r: u64)
    ensures
        r == unsigned_double_bits(n),
{
    match serde_json::Number::from(n).as_f64() {
        Some(d) => d.to_bits(),
        None => 0,
    }
}

/// A number becomes an integer where it is exactly one of type `i64`, else
/// a double.
pub open spec fn number_to_structured(n: JsonNumber) -> StructuredTree {
    match n {
        JsonNumber::PosInt(u) => if u <= i64::MAX as u64 {
            StructuredTree::Integer(u as i64)
        } else {
            StructuredTree::Double(unsigned_double_bits(u))
        },
        JsonNumber::NegInt(i) => StructuredTree::Integer(i),
        JsonNumber::Float(b) => StructuredTree::Double(b),
    }
}

/// The structured value that a JSON value converts to: the same shape, with
/// array order and member order kept.
pub open spec fn structured_of(t: JsonTree) -> StructuredTree
    decreases t,
{
    match t {
        JsonTree::Null => StructuredTree::Null,
        JsonTree::Bool(b) => StructuredTree::Bool(b),
        JsonTree::Number(n) => number_to_structured(n),
        JsonTree::Str(s) => StructuredTree::Str(s),
        JsonTree::Array(items) => StructuredTree::List(
            Seq::new(items.len(), |i: int| if 0 <= i < items.len() { structured_of(items[i]) } else { StructuredTree::Null }),
        ),
        JsonTree::Object(members) => StructuredTree::Struct(
            Seq::new(members.len(), |i: int| if 0 <= i < members.len() { (members[i].0, structured_of(members[i].1)) } else { (Seq::empty(), StructuredTree::Null) }),
        ),
    }
}

fn number_to_qdrant_value(n: JsonNumber) -> (r: StructuredValue)
    ensures
        r@ == number_to_structured(n),
{
    match n {
        JsonNumber::PosInt(u) => {
            if u <= i64::MAX as u64 {
                StructuredValue::IntegerValue(u as i64)
            } else {
                StructuredValue::DoubleValue(unsigned_as_double(u))
            }
        },
        JsonNumber::NegInt(i) => StructuredValue::IntegerValue(i),
        JsonNumber::Float(b) => StructuredValue::DoubleValue(b),
    }
}

/// Converts a JSON value into the vector store's structured value. The
/// conversion is total: every JSON value has exactly one image.
pub fn json_to_qdrant_value(v: &JsonValue) -> (r: StructuredValue)
    ensures
        r@ == structured_of(v@),
    decreases v,
{
    match v {
        JsonValue::Null => StructuredValue::NullValue,
        JsonValue::Bool(b) => StructuredValue::BoolValue(*b),
        JsonValue::Number(n) => number_to_qdrant_value(*n),
        JsonValue::String(s) => StructuredValue::StringValue(s.clone()),
        JsonValue::Array(a) => {
            let mut out: Vec<StructuredValue> = Vec::new();
            let mut i: usize = 0;
            while i < a.len()
                invariant
                    *v == JsonValue::Array(*a),
                    i <= a@.len(),
                    out@.len() == i,
                    forall|j: int| 0 <= j < i ==> (#[trigger] out@[j])@ == structured_of(a@[j]@),
                decreases a@.len() - i,
            {
                proof {
                    assert(decreases_to!(*v => v->Array_0));
                    assert(decreases_to!(*a => a@));
                    assert(decreases_to!(a@ => a@[i as int]));
                }
                let x = json_to_qdrant_value(&a[i]);
                out.push(x);
                i += 1;
            }
            proof {
                let items = v@->Array_0;
                let rv = StructuredValue::ListValue(out)@;
                assert forall|k: int| 0 <= k < items.len() implies rv->List_0[k] == structured_of(v@)->List_0[k] by {
                    assert(items[k] == a@[k]@);
                }
                assert(rv->List_0 =~= structured_of(v@)->List_0);
            }
            StructuredValue::ListValue(out)
        },
        JsonValue::Object(o) => {
            let mut out: Vec<(String, StructuredValue)> = Vec::new();
            let mut i: usize = 0;
            while i < o.len()
                invariant
                    *v == JsonValue::Object(*o),
                    i <= o@.len(),
                    out@.len() == i,
                    forall|j: int| 0 <= j < i ==> (#[trigger] out@[j]).0@ == o@[j].0@ && out@[j].1@ == structured_of(o@[j].1@),
                decreases o@.len() - i,
            {
                let key = o[i].0.clone();
                proof {
                    assert(decreases_to!(*v => v->Object_0));
                    assert(decreases_to!(*o => o@));
                    assert(decreases_to!(o@ => o@[i as int]));
                    assert(decreases_to!(o@[i as int] => o@[i as int].1));
                }
                let x = json_to_qdrant_value(&o[i].1);
                out.push((key, x));
                i += 1;
            }
            proof {
                let members = v@->Object_0;
                let rv = StructuredValue::StructValue(out)@;
                assert forall|k: int| 0 <= k < members.len() implies rv->Struct_0[k] == structured_of(v@)->Struct_0[k] by {
                    assert(members[k] == (o@[k].0@, o@[k].1@));
                }
                assert(rv->Struct_0 =~= structured_of(v@)->Struct_0);
            }
            StructuredValue::StructValue(out)
        },
    }
}

/// The JSON number that a stored integer reads back as: non-negative values
/// as unsigned, negative ones as signed.
pub open spec fn integer_to_number(i: i64) -> JsonNumber {
    if i < 0 {
        JsonNumber::NegInt(i)
    } else {
        JsonNumber::PosInt(i as u64)
    }
}

/// The JSON value that a structured value reads back as.
pub open spec fn json_of(t: StructuredTree) -> JsonTree
    decreases t,
{
    match t {
        StructuredTree::Null => JsonTree::Null,
        StructuredTree::Bool(b) => JsonTree::Bool(b),
        StructuredTree::Integer(i) => JsonTree::Number(integer_to_number(i)),
        StructuredTree::Double(b) => JsonTree::Number(JsonNumber::Float(b)),
        StructuredTree::Str(s) => JsonTree::Str(s),
        StructuredTree::List(items) => JsonTree::Array(
            Seq::new(items.len(), |i: int| if 0 <= i < items.len() { json_of(items[i]) } else { JsonTree::Null }),
        ),
        StructuredTree::Struct(fields) => JsonTree::Object(
            Seq::new(fields.len(), |i: int| if 0 <= i < fields.len() { (fields[i].0, json_of(fields[i].1)) } else { (Seq::empty(), JsonTree::Null) }),
        ),
    }
}

/// Whether every number in `t` keeps its kind through the store: integers
/// fit in `i64`, and a negative integer is held as one.
pub open spec fn numbers_keep_kind(t: JsonTree) -> bool
    decreases t,
{
    match t {
        JsonTree::Number(JsonNumber::PosInt(u)) => u <= i64::MAX as u64,
        JsonTree::Number(JsonNumber::NegInt(i)) => i < 0,
        JsonTree::Array(items) => forall|i: int| 0 <= i < items.len() ==> numbers_keep_kind(#[trigger] items[i]),
        JsonTree::Object(members) => forall|i: int| 0 <= i < members.len() ==> numbers_keep_kind(#[trigger] members[i].1),
        _ => true,
    }
}

/// Converting a JSON value into a structured value and reading it back gives
/// the original: the same shape, the same keys in the same order, the same
/// array contents in order, and integers and doubles kept apart. This holds
/// wherever every integer fits in `i64`; a larger one is stored as a double.
pub proof fn lemma_round_trip(t: JsonTree)
    requires
        numbers_keep_kind(t),
    ensures
        json_of(structured_of(t)) == t,
    decreases t,
{
    match t {
        JsonTree::Array(items) => {
            let back = json_of(structured_of(t))->Array_0;
            assert forall|i: int| 0 <= i < items.len() implies back[i] == items[i] by {
                lemma_round_trip(items[i]);
            }
            assert(back =~= items);
        },
        JsonTree::Object(members) => {
            let back = json_of(structured_of(t))->Object_0;
            assert forall|i: int| 0 <= i < members.len() implies back[i] == members[i] by {
                lemma_round_trip(members[i].1);
            }
            assert(back =~= members);
        },
        _ => {},
    }
}

/// Reads a structured value back as JSON.
pub fn qdrant_value_to_json(v: &StructuredValue) -> (r: JsonValue)
    ensures
        r@ == json_of(v@),
    decreases v,
{
    match v {
        StructuredValue::NullValue => JsonValue::Null,
        StructuredValue::BoolValue(b) => JsonValue::Bool(*b),
        StructuredValue::IntegerValue(i) => {
            if *i < 0 {
                JsonValue::Number(JsonNumber::NegInt(*i))
            } else {
                JsonValue::Number(JsonNumber::PosInt(*i as u64))
            }
        },
        StructuredValue::DoubleValue(b) => JsonValue::Number(JsonNumber::Float(*b)),
        StructuredValue::StringValue(s) => JsonValue::String(s.clone()),
        StructuredValue::ListValue(a) => {
            let mut out: Vec<JsonValue> = Vec::new();
            let mut i: usize = 0;
            while i < a.len()
                invariant
                    *v == StructuredValue::ListValue(*a),
                    i <= a@.len(),
                    out@.len() == i,
                    forall|j: int| 0 <= j < i ==> (#[trigger] out@[j])@ == json_of(a@[j]@),
                decreases a@.len() - i,
            {
                proof {
                    assert(decreases_to!(*v => v->ListValue_0));
                    assert(decreases_to!(*a => a@));
                    assert(decreases_to!(a@ => a@[i as int]));
                }
                let x = qdrant_value_to_json(&a[i]);
                out.push(x);
                i += 1;
            }
            proof {
                let items = v@->List_0;
                let rv = JsonValue::Array(out)@;
                assert forall|k: int| 0 <= k < items.len() implies rv->Array_0[k] == json_of(v@)->Array_0[k] by {
                    assert(items[k] == a@[k]@);
                }
                assert(rv->Array_0 =~= json_of(v@)->Array_0);
            }
            JsonValue::Array(out)
        },
        StructuredValue::StructValue(o) => {
            let mut out: Vec<(String, JsonValue)> = Vec::new();
            let mut i: usize = 0;
            while i < o.len()
                invariant
                    *v == StructuredValue::StructValue(*o),
                    i <= o@.len(),
                    out@.len() == i,
                    forall|j: int| 0 <= j < i ==> (#[trigger] out@[j]).0@ == o@[j].0@ && out@[j].1@ == json_of(o@[j].1@),
                decreases o@.len() - i,
            {
                proof {
                    assert(decreases_to!(*v => v->StructValue_0));
                    assert(decreases_to!(*o => o@));
                    assert(decreases_to!(o@ => o@[i as int]));
                    assert(decreases_to!(o@[i as int] => o@[i as int].1));
                }
                let key = o[i].0.clone();
                let x = qdrant_value_to_json(&o[i].1);
                out.push((key, x));
                i += 1;
            }
            proof {
                let fields = v@->Struct_0;
                let rv = JsonValue::Object(out)@;
                assert forall|k: int| 0 <= k < fields.len() implies rv->Object_0[k] == json_of(v@)->Object_0[k] by {
                    assert(fields[k] == (o@[k].0@, o@[k].1@));
                }
                assert(rv->Object_0 =~= json_of(v@)->Object_0);
            }
            JsonValue::Object(out)
        },
    }
}

/// The payload stored with a document: the members of its JSON form, in
/// order, each converted, leaving out `embedding`, which the store keeps as
/// the point's vector instead.
pub open spec fn payload_fields(members: Seq<(Seq<char>, JsonTree)>) -> Seq<(Seq<char>, StructuredTree)>
    decreases members.len(),
{
    if members.len() == 0 {
        Seq::empty()
    } else {
        let rest = payload_fields(members.drop_last());
        let last = members.last();
        if last.0 == "embedding"@ {
            rest
        } else {
            rest.push((last.0, structured_of(last.1)))
        }
    }
}

/// Builds the stored payload of a document from its JSON form. A document
/// must serialize to an object; anything else has no payload.
pub fn document_payload(doc: &JsonValue) -> (r: Option<Vec<(String, StructuredValue)>>)
    ensures
        r is Some <==> doc@ is Object,
        r matches Some(p) ==> p@.len() == payload_fields(doc@->Object_0).len()
            && forall|i: int| 0 <= i < p@.len() ==>
                ((#[trigger] p@[i]).0@, p@[i].1@) == payload_fields(doc@->Object_0)[i],
{
    match doc {
        JsonValue::Object(o) => {
            let ghost members = doc@->Object_0;
            let skipped = String::from_str("embedding");
            let mut out: Vec<(String, StructuredValue)> = Vec::new();
            let mut i: usize = 0;
            while i < o.len()
                invariant
                    *doc == JsonValue::Object(*o),
                    members == doc@->Object_0,
                    skipped@ == "embedding"@,
                    i <= o@.len(),
                    members.len() == o@.len(),
                    forall|k: int| 0 <= k < o@.len() ==> members[k] == ((#[trigger] o@[k]).0@, o@[k].1@),
                    out@.len() == payload_fields(members.take(i as int)).len(),
                    forall|k: int| 0 <= k < out@.len() ==>
                        ((#[trigger] out@[k]).0@, out@[k].1@) == payload_fields(members.take(i as int))[k],
                decreases o@.len() - i,
            {
                proof {
                    assert(members.take(i as int + 1).drop_last() =~= members.take(i as int));
                }
                if o[i].0 != skipped {
                    let key = o[i].0.clone();
                    let value = json_to_qdrant_value(&o[i].1);
                    out.push((key, value));
                }
                i += 1;
            }
            proof {
                assert(members.take(o@.len() as int) =~= members);
            }
            Some(out)
        },
        _ => None,
    }
}

/// No member of a stored payload is named `embedding`, and every member
/// that is kept comes from the document, under the same key.
pub proof fn lemma_payload_omits_embedding(members: Seq<(Seq<char>, JsonTree)>)
    ensures
        forall|i: int| 0 <= i < payload_fields(members).len() ==>
            (#[trigger] payload_fields(members)[i]).0 != "embedding"@,
        payload_fields(members).len() <= members.len(),
    decreases members.len(),
{
    if members.len() > 0 {
        lemma_payload_omits_embedding(members.drop_last());
    }
}

} // verus!
