use vstd::prelude::*;

verus! {

/// A JSON document, as the message decoder reads it.
///
/// Numbers that are non-negative integers within `u64` are kept as such; any
/// other number keeps its textual form. An object keeps its members in the
/// order the parser hands them out, each key once.
#[derive(Debug)]
pub enum Json {
    Null,
    Bool(bool),
    UInt(u64),
    OtherNumber(String),
    Str(String),
    Array(Vec<Json>),
    Object(Vec<(String, Json)>),
}

/// Mathematical model of a JSON document.
pub enum JsonV {
    Null,
    Bool(bool),
    UInt(u64),
    OtherNumber(Seq<char>),
    Str(Seq<char>),
    Array(Seq<JsonV>),
    Object(Seq<(Seq<char>, JsonV)>),
}

/// The model of a JSON document.
pub open spec fn json_view(j: Json) -> JsonV
    decreases j,
{
    match j {
        Json::Null => JsonV::Null,
        Json::Bool(b) => JsonV::Bool(b),
        Json::UInt(n) => JsonV::UInt(n),
        Json::OtherNumber(s) => JsonV::OtherNumber(s@),
        Json::Str(s) => JsonV::Str(s@),
        Json::Array(a) => JsonV::Array(
            Seq::new(
                a.len() as nat,
                |i: int|
                    if 0 <= i < a.len() {
                        json_view(a[i])
                    } else {
                        JsonV::Null
                    },
            ),
        ),
        Json::Object(o) => JsonV::Object(
            Seq::new(
                o.len() as nat,
                |i: int|
                    if 0 <= i < o.len() {
                        (o[i].0@, json_view(o[i].1))
                    } else {
                        (Seq::empty(), JsonV::Null)
                    },
            ),
        ),
    }
}

impl View for Json {
    type V = JsonV;

    open spec fn view(&self) -> JsonV {
        json_view(*self)
    }
}

/// The first member of `fields` whose key is `key`.
pub open spec fn lookup(fields: Seq<(Seq<char>, JsonV)>, key: Seq<char>) -> Option<JsonV>
    decreases fields.len(),
{
    if fields.len() == 0 {
        None
    } else if fields[0].0 == key {
        Some(fields[0].1)
    } else {
        lookup(fields.drop_first(), key)
    }
}

/// The member `key` of `v`, when `v` is an object that has one.
pub open spec fn member(v: JsonV, key: Seq<char>) -> Option<JsonV> {
    match v {
        JsonV::Object(fields) => lookup(fields, key),
        _ => None,
    }
}

proof fn lemma_lookup_skip(fields: Seq<(Seq<char>, JsonV)>, key: Seq<char>, i: int)
    requires
        0 <= i < fields.len(),
        fields[i].0 != key,
    ensures
        lookup(fields.subrange(i, fields.len() as int), key) == lookup(
            fields.subrange(i + 1, fields.len() as int),
            key,
        ),
{
    assert(fields.subrange(i, fields.len() as int).drop_first() =~= fields.subrange(
        i + 1,
        fields.len() as int,
    ));
}

impl Json {
    /// The member `key` of this value, when it is an object that has one.
    pub fn get(&self, key: &str) -> (r: Option<&Json>)
        ensures
            match r {
                Some(x) => member(self@, key@) == Some(x@),
                None => member(self@, key@) is None,
            },
    {
        match self {
            Json::Object(o) => {
                let k = key.to_owned();
                let ghost fields = Seq::new(
                    o.len() as nat,
                    |j: int|
                        if 0 <= j < o.len() {
                            (o[j].0@, json_view(o[j].1))
                        } else {
                            (Seq::empty(), JsonV::Null)
                        },
                );
                assert(*self == Json::Object(*o));
                assert(json_view(Json::Object(*o)) is Object);
                assert(json_view(Json::Object(*o))->Object_0 =~= fields);
                assert(self@ == JsonV::Object(fields));
                assert(fields.subrange(0, fields.len() as int) =~= fields);
                let mut i: usize = 0;
                while i < o.len()
                    invariant
                        0 <= i <= o.len(),
                        fields.len() == o.len(),
                        k@ == key@,
                        self@ == JsonV::Object(fields),
                        forall|j: int| 0 <= j < o.len() ==> #[trigger] fields[j] == (o[j].0@, o[j].1@),
                        lookup(fields, key@) == lookup(fields.subrange(i as int, fields.len() as int), key@),
                    decreases o.len() - i,
                {
                    assert(fields[i as int] == (o[i as int].0@, o[i as int].1@));
                    if o[i].0 == k {
                        let ghost sub = fields.subrange(i as int, fields.len() as int);
                        assert(sub[0] == fields[i as int]);
                        assert(sub[0].0 == key@);
                        assert(lookup(sub, key@) == Some(sub[0].1));
                        return Some(&o[i].1);
                    }
                    proof { lemma_lookup_skip(fields, key@, i as int); }
                    i = i + 1;
                }
                assert(fields.subrange(i as int, fields.len() as int).len() == 0);
                None
            },
            _ => None,
        }
    }
}

/// What `serde_json::from_slice` makes of the bytes `b`, read as a JSON
/// document: `None` where it rejects them (they are not one JSON document, or
/// nest deeper than its recursion limit).
pub uninterp spec fn json_of(b: Seq<u8>) -> Option<JsonV>;

/// serde_json's parsed document, held opaquely until it is moved into `Json`.
#[verifier::external_type_specification]
#[verifier::external_body]
pub struct ExValue(serde_json::Value);

/// Moves a parsed `serde_json::Value` into the library's own JSON type, one
/// variant for one; relies on `serde_json::Number::as_u64` to tell integers
/// within `u64` from other numbers, which keep their `Display` text.
#[verifier::external_body]
fn from_serde_value(v: serde_json::Value) -> Json {
    match v {
        serde_json::Value::Null => Json::Null,
        serde_json::Value::Bool(b) => Json::Bool(b),
        serde_json::Value::Number(n) => match n.as_u64() {
            Some(u) => Json::UInt(u),
            None => Json::OtherNumber(n.to_string()),
        },
        serde_json::Value::String(s) => Json::Str(s),
        serde_json::Value::Array(a) => Json::Array(a.into_iter().map(from_serde_value).collect()),
        serde_json::Value::Object(o) => Json::Object(o.into_iter().map(|(k, x)| (k, from_serde_value(x))).collect()),
    }
}

/// Relies on serde_json::from_slice into `serde_json::Value`: the parsed
/// document, or the failure, depends on the bytes alone.
#[verifier::external_body]
pub(crate) fn parse_json(b: &[u8]) -> (r: Option<Json>)
    ensures
        match r {
            Some(j) => json_of(b@) == Some(j@),
            None => json_of(b@) is None,
        },
{
    serde_json::from_slice::<serde_json::Value>(b).ok().map(from_serde_value)
}

/// The text of `v`, when it is a string.
pub open spec fn str_of(v: JsonV) -> Option<Seq<char>> {
    match v {
        JsonV::Str(s) => Some(s),
        _ => None,
    }
}

/// The value of `v`, when it is an integer that fits `u64`.
pub open spec fn u64_of(v: JsonV) -> Option<u64> {
    match v {
        JsonV::UInt(n) => Some(n),
        _ => None,
    }
}

/// The elements of `v`, when it is an array.
pub open spec fn array_of(v: JsonV) -> Option<Seq<JsonV>> {
    match v {
        JsonV::Array(a) => Some(a),
        _ => None,
    }
}

impl Json {
    /// The text of this value, when it is a string.
    pub fn as_str(&self) -> (r: Option<&String>)
        ensures
            match r {
                Some(s) => str_of(self@) == Some(s@),
                None => str_of(self@) is None,
            },
    {
        match self {
            Json::Str(s) => Some(s),
            _ => None,
        }
    }

    /// The value of this number, when it is an integer that fits `u64`.
    pub fn as_u64(&self) -> (r: Option<u64>)
        ensures
            r == u64_of(self@),
    {
        match self {
            Json::UInt(n) => Some(*n),
            _ => None,
        }
    }

    /// Whether this value is an object.
    pub fn is_object(&self) -> (r: bool)
        ensures
            r == (self@ is Object),
    {
        match self {
            Json::Object(_) => true,
            _ => false,
        }
    }

    /// The elements of this value, when it is an array.
    pub fn as_array(&self) -> (r: Option<&Vec<Json>>)
        ensures
            match r {
                Some(a) => array_of(self@) matches Some(s) && s.len() == a.len() && forall|i: int|
                    0 <= i < a.len() ==> s[i] == #[trigger] a[i]@,
                None => array_of(self@) is None,
            },
    {
        match self {
            Json::Array(a) => {
                assert(json_view(Json::Array(*a)) is Array);
                Some(a)
            },
            _ => None,
        }
    }
}

} // verus!
