//! A small JSON document model.
//!
//! Response bodies and request bodies are held as [`Json`] trees. Numbers
//! are restricted to 64-bit signed integers, which covers every numeric
//! field of the REST API's schema; documents with other numbers are
//! rejected at parse time. Objects are association lists of unique keys
//! in which, mirroring the parser that produces them, the last binding of
//! a key is the one that counts.
use vstd::prelude::*;

verus! {

/// A JSON document whose numbers are 64-bit signed integers.
#[derive(Debug, PartialEq)]
pub enum Json {
    Null,
    Bool(bool),
    Int(i64),
    Str(String),
    Arr(Vec<Json>),
    Obj(Vec<(String, Json)>),
}

/// The mathematical model of a [`Json`] document.
pub enum JsonV {
    Null,
    Bool(bool),
    Int(i64),
    Str(Seq<char>),
    Arr(Seq<JsonV>),
    Obj(Seq<(Seq<char>, JsonV)>),
}

impl Json {
    /// The mathematical model of this document.
    pub open spec fn model(&self) -> JsonV
        decreases self,
    {
        match self {
            Json::Null => JsonV::Null,
            Json::Bool(b) => JsonV::Bool(*b),
            Json::Int(i) => JsonV::Int(*i),
            Json::Str(s) => JsonV::Str(s@),
            Json::Arr(items) => JsonV::Arr(Json::view_seq(items@)),
            Json::Obj(fields) => JsonV::Obj(Json::view_fields(fields@)),
        }
    }

    /// The models of the elements of a JSON array, in order.
    pub open spec fn view_seq(items: Seq<Json>) -> Seq<JsonV>
        decreases items,
    {
        if items.len() == 0 {
            Seq::empty()
        } else {
            Json::view_seq(items.drop_last()).push(items.last().model())
        }
    }

    /// The models of the fields of a JSON object, in order.
    pub open spec fn view_fields(fields: Seq<(String, Json)>) -> Seq<(Seq<char>, JsonV)>
        decreases fields,
    {
        if fields.len() == 0 {
            Seq::empty()
        } else {
            Json::view_fields(fields.drop_last()).push(
                (fields.last().0@, fields.last().1.model()),
            )
        }
    }
}

impl View for Json {
    type V = JsonV;

    open spec fn view(&self) -> JsonV {
        self.model()
    }
}

/// The length and elementwise shape of the model of a JSON array.
pub proof fn lemma_view_seq_elts(items: Seq<Json>)
    ensures
        Json::view_seq(items).len() == items.len(),
        forall|i: int|
            0 <= i < items.len() ==> #[trigger] Json::view_seq(items)[i] == items[i].model(),
    decreases items.len(),
{
    if items.len() > 0 {
        lemma_view_seq_elts(items.drop_last());
    }
}

/// The length and elementwise shape of the model of a JSON object.
pub proof fn lemma_view_fields_elts(fields: Seq<(String, Json)>)
    ensures
        Json::view_fields(fields).len() == fields.len(),
        forall|i: int|
            0 <= i < fields.len() ==> #[trigger] Json::view_fields(fields)[i] == (
            fields[i].0@,
            fields[i].1.model(),
            ),
    decreases fields.len(),
{
    if fields.len() > 0 {
        lemma_view_fields_elts(fields.drop_last());
    }
}

/// The value bound to `k` in an association list of object fields; when a
/// key is bound more than once, the last binding wins.
pub open spec fn lookup_fields(fields: Seq<(Seq<char>, JsonV)>, k: Seq<char>) -> Option<JsonV>
    decreases fields.len(),
{
    if fields.len() == 0 {
        None
    } else if fields.last().0 == k {
        Some(fields.last().1)
    } else {
        lookup_fields(fields.drop_last(), k)
    }
}

/// The value of field `k` of `j`; `None` when `j` is not an object or has
/// no field `k`.
pub open spec fn spec_lookup(j: JsonV, k: Seq<char>) -> Option<JsonV> {
    match j {
        JsonV::Obj(fields) => lookup_fields(fields, k),
        _ => None,
    }
}

/// Relies on `str`'s `PartialEq` implementation: two string slices are
/// equal exactly when they hold the same characters.
#[verifier::external_body]
fn str_eq(a: &str, b: &str) -> (r: bool)
    ensures
        r == (a@ == b@),
{
    a == b
}

impl Json {
    /// Whether this document is an object.
    pub fn is_obj(&self) -> (r: bool)
        ensures
            r == (self@ is Obj),
    {
        match self {
            Json::Obj(_) => true,
            _ => false,
        }
    }

    /// The value of field `k` of this document, if it is an object with
    /// such a field.
    pub fn lookup<'a>(&'a self, k: &str) -> (r: Option<&'a Json>)
        ensures
            match r {
                Some(v) => spec_lookup(self@, k@) == Some(v@),
                None => spec_lookup(self@, k@) is None,
            },
    {
        match self {
            Json::Obj(fields) => {
                let ghost fs = self@->Obj_0;
                proof {
                    lemma_view_fields_elts(fields@);
                    assert(fs.len() == fields@.len());
                    assert(forall|i: int| 0 <= i < fs.len() ==> fs[i] == (fields@[i].0@, fields@[i].1@));
                }
                let mut idx: usize = fields.len();
                proof {
                    assert(fs.take(fs.len() as int) =~= fs);
                }
                loop
                    invariant
                        idx <= fields.len(),
                        self@ == JsonV::Obj(fs),
                        fs.len() == fields@.len(),
                        forall|i: int| 0 <= i < fs.len() ==> fs[i] == (fields@[i].0@, fields@[i].1@),
                        lookup_fields(fs, k@) == lookup_fields(fs.take(idx as int), k@),
                    decreases idx,
                {
                    if idx == 0 {
                        return None;
                    }
                    idx = idx - 1;
                    if str_eq(fields[idx].0.as_str(), k) {
                        assert(fs.take(idx as int + 1).last() == fs[idx as int]);
                        assert(lookup_fields(fs.take(idx as int + 1), k@) == Some(fs[idx as int].1));
                        return Some(&fields[idx].1);
                    }
                    assert(fs.take(idx as int + 1).drop_last() =~= fs.take(idx as int));
                }
            },
            _ => None,
        }
    }
}

/// A schema mismatch found while reading a decoded document into a
/// typed structure.
#[derive(Clone, Copy, Debug, PartialEq, Eq)]
pub struct JsonError {}

impl JsonError {
    /// A fresh schema-mismatch marker.
    pub fn new() -> (r: JsonError) {
        JsonError {  }
    }
}

/// The declaration of serde_json's document type, so that values of it
/// can pass through the conversion wrappers below.
#[verifier::external_type_specification]
#[verifier::external_body]
pub struct ExSerdeValue(serde_json::Value);

/// The document that JSON text parses to, or `None` where the text is
/// not JSON or holds a number outside `i64`.
pub uninterp spec fn spec_parse_json(s: Seq<char>) -> Option<JsonV>;

/// The text that a document prints to.
pub uninterp spec fn spec_print_json(j: JsonV) -> Seq<char>;

/// Relies on serde_json's `Value` enum: each variant of the parsed tree
/// is carried over one for one; numbers are taken through
/// `Number::as_i64`, so a number that is not a 64-bit signed integer
/// makes the conversion fail.
#[verifier::external_body]
fn json_of_value(v: &serde_json::Value) -> (r: Option<Json>)
{
    match v {
        serde_json::Value::Null => Some(Json::Null),
        serde_json::Value::Bool(b) => Some(Json::Bool(*b)),
        serde_json::Value::Number(n) => n.as_i64().map(Json::Int),
        serde_json::Value::String(s) => Some(Json::Str(s.clone())),
        serde_json::Value::Array(a) => {
            a.iter().map(json_of_value).collect::<Option<Vec<Json>>>().map(Json::Arr)
        },
        serde_json::Value::Object(m) => {
            m.iter()
                .map(|(k, x)| json_of_value(x).map(|j| (k.clone(), j)))
                .collect::<Option<Vec<(String, Json)>>>()
                .map(Json::Obj)
        },
    }
}

/// Relies on serde_json's `Value` enum again, in the other direction:
/// each variant of the document is carried over one for one.
#[verifier::external_body]
fn value_of_json(j: &Json) -> (r: serde_json::Value)
{
    match j {
        Json::Null => serde_json::Value::Null,
        Json::Bool(b) => serde_json::Value::Bool(*b),
        Json::Int(i) => serde_json::Value::Number(serde_json::Number::from(*i)),
        Json::Str(s) => serde_json::Value::String(s.clone()),
        Json::Arr(a) => serde_json::Value::Array(a.iter().map(value_of_json).collect()),
        Json::Obj(f) => serde_json::Value::Object(
            f.iter().map(|(k, x)| (k.clone(), value_of_json(x))).collect(),
        ),
    }
}

/// Relies on `serde_json::from_str::<serde_json::Value>`: the text is
/// parsed into a document tree determined by the text alone, with the
/// last binding of a repeated object key kept; the tree is then carried
/// over by `json_of_value`. The composite result is a function of the
/// text, named `spec_parse_json`.
#[verifier::external_body]
pub fn parse_json(s: &str) -> (r: Option<Json>)
    ensures
        match r {
            Some(j) => spec_parse_json(s@) == Some(j@),
            None => spec_parse_json(s@) is None,
        },
{
    match serde_json::from_str::<serde_json::Value>(s) {
        Ok(v) => json_of_value(&v),
        Err(_) => None,
    }
}

/// Relies on `serde_json::to_string`: printing a document tree is a
/// function of the tree alone (object keys are emitted in their stored
/// order), and printing a `serde_json::Value` cannot fail. The composite
/// result is a function of the document, named `spec_print_json`.
#[verifier::external_body]
pub fn json_to_text(j: &Json) -> (r: String)
    ensures
        r@ == spec_print_json(j@),
{
    serde_json::to_string(&value_of_json(j)).unwrap_or_default()
}

/// The characters of each string of `v`, in order.
pub open spec fn strs_view(v: Seq<String>) -> Seq<Seq<char>>
    decreases v.len(),
{
    if v.len() == 0 {
        Seq::empty()
    } else {
        strs_view(v.drop_last()).push(v.last()@)
    }
}

/// A string field with the empty string as its default: the empty
/// sequence when the field is missing, its characters when it is a
/// string, and no value at all when it has another type.
pub open spec fn spec_str_field(j: JsonV, k: Seq<char>) -> Option<Seq<char>> {
    match spec_lookup(j, k) {
        Option::None => Some(Seq::empty()),
        Option::Some(JsonV::Str(s)) => Some(s),
        Option::Some(_) => None,
    }
}

/// An optional string field: nothing when missing or null, its
/// characters when a string, and no value at all otherwise.
pub open spec fn spec_opt_str_field(j: JsonV, k: Seq<char>) -> Option<Option<Seq<char>>> {
    match spec_lookup(j, k) {
        Option::None => Some(None),
        Option::Some(JsonV::Null) => Some(None),
        Option::Some(JsonV::Str(s)) => Some(Some(s)),
        Option::Some(_) => None,
    }
}

/// An optional integer field: nothing when missing or null, its value
/// when an integer, and no value at all otherwise.
pub open spec fn spec_opt_i64_field(j: JsonV, k: Seq<char>) -> Option<Option<i64>> {
    match spec_lookup(j, k) {
        Option::None => Some(None),
        Option::Some(JsonV::Null) => Some(None),
        Option::Some(JsonV::Int(i)) => Some(Some(i)),
        Option::Some(_) => None,
    }
}

/// A 32-bit integer field with zero as its default: zero when missing,
/// its value when an integer in range, and no value at all otherwise.
pub open spec fn spec_i32_field(j: JsonV, k: Seq<char>) -> Option<i32> {
    match spec_lookup(j, k) {
        Option::None => Some(0),
        Option::Some(JsonV::Int(i)) => if i32::MIN <= i <= i32::MAX {
            Some(i as i32)
        } else {
            None
        },
        Option::Some(_) => None,
    }
}

/// An optional boolean field: nothing when missing or null, its value
/// when a boolean, and no value at all otherwise.
pub open spec fn spec_opt_bool_field(j: JsonV, k: Seq<char>) -> Option<Option<bool>> {
    match spec_lookup(j, k) {
        Option::None => Some(None),
        Option::Some(JsonV::Null) => Some(None),
        Option::Some(JsonV::Bool(b)) => Some(Some(b)),
        Option::Some(_) => None,
    }
}

/// The strings of an array of strings, or no value at all when some
/// element is not a string.
pub open spec fn spec_str_seq(items: Seq<JsonV>) -> Option<Seq<Seq<char>>>
    decreases items.len(),
{
    if items.len() == 0 {
        Some(Seq::empty())
    } else {
        match (spec_str_seq(items.drop_last()), items.last()) {
            (Option::Some(rest), JsonV::Str(s)) => Some(rest.push(s)),
            _ => None,
        }
    }
}

/// A field holding an array of strings, with the empty list as its
/// default: empty when missing, its strings when an array of strings,
/// and no value at all otherwise.
pub open spec fn spec_str_list_field(j: JsonV, k: Seq<char>) -> Option<Seq<Seq<char>>> {
    match spec_lookup(j, k) {
        Option::None => Some(Seq::empty()),
        Option::Some(JsonV::Arr(items)) => spec_str_seq(items),
        Option::Some(_) => None,
    }
}

impl Json {
    /// Read string field `k`, defaulting to the empty string.
    pub fn get_str(&self, k: &str) -> (r: Result<String, JsonError>)
        ensures
            match r {
                Ok(s) => spec_str_field(self@, k@) == Some(s@),
                Err(_) => spec_str_field(self@, k@) is None,
            },
    {
        match self.lookup(k) {
            None => Ok(String::new()),
            Some(v) => match v {
                Json::Str(s) => Ok(s.clone()),
                _ => Err(JsonError::new()),
            },
        }
    }

    /// Read optional string field `k`.
    pub fn get_opt_str(&self, k: &str) -> (r: Result<Option<String>, JsonError>)
        ensures
            match r {
                Ok(Some(s)) => spec_opt_str_field(self@, k@) == Some(Some(s@)),
                Ok(None) => spec_opt_str_field(self@, k@) == Some(Option::<Seq<char>>::None),
                Err(_) => spec_opt_str_field(self@, k@) is None,
            },
    {
        match self.lookup(k) {
            None => Ok(None),
            Some(v) => match v {
                Json::Null => Ok(None),
                Json::Str(s) => Ok(Some(s.clone())),
                _ => Err(JsonError::new()),
            },
        }
    }

    /// Read optional integer field `k`.
    pub fn get_opt_i64(&self, k: &str) -> (r: Result<Option<i64>, JsonError>)
        ensures
            match r {
                Ok(o) => spec_opt_i64_field(self@, k@) == Some(o),
                Err(_) => spec_opt_i64_field(self@, k@) is None,
            },
    {
        match self.lookup(k) {
            None => Ok(None),
            Some(v) => match v {
                Json::Null => Ok(None),
                Json::Int(i) => Ok(Some(*i)),
                _ => Err(JsonError::new()),
            },
        }
    }

    /// Read 32-bit integer field `k`, defaulting to zero.
    pub fn get_i32(&self, k: &str) -> (r: Result<i32, JsonError>)
        ensures
            match r {
                Ok(n) => spec_i32_field(self@, k@) == Some(n),
                Err(_) => spec_i32_field(self@, k@) is None,
            },
    {
        match self.lookup(k) {
            None => Ok(0),
            Some(v) => match v {
                Json::Int(i) => {
                    let i = *i;
                    if i32::MIN as i64 <= i && i <= i32::MAX as i64 {
                        Ok(i as i32)
                    } else {
                        Err(JsonError::new())
                    }
                },
                _ => Err(JsonError::new()),
            },
        }
    }

    /// Read optional boolean field `k`.
    pub fn get_opt_bool(&self, k: &str) -> (r: Result<Option<bool>, JsonError>)
        ensures
            match r {
                Ok(o) => spec_opt_bool_field(self@, k@) == Some(o),
                Err(_) => spec_opt_bool_field(self@, k@) is None,
            },
    {
        match self.lookup(k) {
            None => Ok(None),
            Some(v) => match v {
                Json::Null => Ok(None),
                Json::Bool(b) => Ok(Some(*b)),
                _ => Err(JsonError::new()),
            },
        }
    }

    /// Read field `k` as a list of strings, defaulting to the empty
    /// list.
    pub fn get_str_list(&self, k: &str) -> (r: Result<Vec<String>, JsonError>)
        ensures
            match r {
                Ok(v) => spec_str_list_field(self@, k@) == Some(strs_view(v@)),
                Err(_) => spec_str_list_field(self@, k@) is None,
            },
    {
        match self.lookup(k) {
            None => {
                let out: Vec<String> = Vec::new();
                Ok(out)
            },
            Some(v) => match v {
                Json::Arr(items) => {
                    let ghost vs = v@->Arr_0;
                    proof {
                        lemma_view_seq_elts(items@);
                    }
                    let mut out: Vec<String> = Vec::new();
                    let mut idx: usize = 0;
                    while idx < items.len()
                        invariant
                            idx <= items.len(),
                            spec_lookup(self@, k@) == Some(v@),
                            v@ == JsonV::Arr(vs),
                            vs.len() == items@.len(),
                            forall|i: int| 0 <= i < vs.len() ==> vs[i] == items@[i].model(),
                            spec_str_seq(vs.take(idx as int)) == Some(strs_view(out@)),
                        decreases items@.len() - idx,
                    {
                        match &items[idx] {
                            Json::Str(s) => {
                                let ghost out_pre = out@;
                                out.push(s.clone());
                                proof {
                                    assert(out@.drop_last() =~= out_pre);
                                }
                            },
                            _ => {
                                proof {
                                    lemma_str_seq_none(vs, idx as int);
                                }
                                return Err(JsonError::new());
                            },
                        }
                        idx = idx + 1;
                        assert(vs.take(idx as int).drop_last() =~= vs.take(idx as int - 1));
                    }
                    proof {
                        assert(vs.take(vs.len() as int) =~= vs);
                    }
                    Ok(out)
                },
                _ => Err(JsonError::new()),
            },
        }
    }
}

/// An array with a non-string element has no reading as a list of
/// strings.
proof fn lemma_str_seq_none(items: Seq<JsonV>, i: int)
    requires
        0 <= i < items.len(),
        !(items[i] is Str),
    ensures
        spec_str_seq(items) is None,
    decreases items.len(),
{
    if i < items.len() - 1 {
        lemma_str_seq_none(items.drop_last(), i);
    }
}

/// The characters of an optional string.
pub open spec fn opt_str_view(o: Option<String>) -> Option<Seq<char>> {
    match o {
        Option::Some(s) => Some(s@),
        Option::None => None,
    }
}

/// An optional string as a JSON value: null when absent.
pub open spec fn spec_enc_opt_str(o: Option<Seq<char>>) -> JsonV {
    match o {
        Option::Some(s) => JsonV::Str(s),
        Option::None => JsonV::Null,
    }
}

/// An optional integer as a JSON value: null when absent.
pub open spec fn spec_enc_opt_i64(o: Option<i64>) -> JsonV {
    match o {
        Option::Some(i) => JsonV::Int(i),
        Option::None => JsonV::Null,
    }
}

/// An optional boolean as a JSON value: null when absent.
pub open spec fn spec_enc_opt_bool(o: Option<bool>) -> JsonV {
    match o {
        Option::Some(b) => JsonV::Bool(b),
        Option::None => JsonV::Null,
    }
}

/// A list of strings as a sequence of JSON string values.
pub open spec fn spec_encode_strs(ss: Seq<Seq<char>>) -> Seq<JsonV>
    decreases ss.len(),
{
    if ss.len() == 0 {
        Seq::empty()
    } else {
        spec_encode_strs(ss.drop_last()).push(JsonV::Str(ss.last()))
    }
}

/// Reading an encoded list of strings gives the list back.
pub proof fn lemma_strs_round_trip(ss: Seq<Seq<char>>)
    ensures
        spec_str_seq(spec_encode_strs(ss)) == Some(ss),
    decreases ss.len(),
{
    if ss.len() > 0 {
        lemma_strs_round_trip(ss.drop_last());
        assert(spec_encode_strs(ss).drop_last() =~= spec_encode_strs(ss.drop_last()));
        assert(ss.drop_last().push(ss.last()) =~= ss);
    }
}

/// Appending one string appends its characters to the view.
pub proof fn lemma_strs_view_snoc(w: Seq<String>, x: String)
    ensures
        strs_view(w.push(x)) == strs_view(w).push(x@),
{
    assert(w.push(x).drop_last() =~= w);
}

/// Appending one string appends one JSON string value to the encoding.
pub proof fn lemma_encode_strs_snoc(w: Seq<Seq<char>>, y: Seq<char>)
    ensures
        spec_encode_strs(w.push(y)) == spec_encode_strs(w).push(JsonV::Str(y)),
{
    assert(w.push(y).drop_last() =~= w);
}

/// Appending one document appends its model to the sequence of models.
pub proof fn lemma_view_seq_snoc(w: Seq<Json>, x: Json)
    ensures
        Json::view_seq(w.push(x)) == Json::view_seq(w).push(x.model()),
{
    assert(w.push(x).drop_last() =~= w);
}

/// Appending one field appends its model to the sequence of field
/// models.
pub proof fn lemma_view_fields_snoc(w: Seq<(String, Json)>, k: String, x: Json)
    ensures
        Json::view_fields(w.push((k, x))) == Json::view_fields(w).push((k@, x.model())),
{
    assert(w.push((k, x)).drop_last() =~= w);
}

/// Looking a key up after one more field was appended: the appended
/// binding wins for its own key and changes nothing else.
pub proof fn lemma_lookup_fields_push_all(fields: Seq<(Seq<char>, JsonV)>, k0: Seq<char>, v0: JsonV)
    ensures
        forall|k: Seq<char>|
            #[trigger] lookup_fields(fields.push((k0, v0)), k) == (if k == k0 {
                Some(v0)
            } else {
                lookup_fields(fields, k)
            }),
{
    assert forall|k: Seq<char>|
        #[trigger] lookup_fields(fields.push((k0, v0)), k) == (if k == k0 {
            Some(v0)
        } else {
            lookup_fields(fields, k)
        }) by {
        assert(fields.push((k0, v0)).last() == (k0, v0));
        assert(fields.push((k0, v0)).drop_last() =~= fields);
    }
}

/// Turn strings into the JSON string values that stand for them.
pub fn strs_to_json(v: &Vec<String>) -> (r: Vec<Json>)
    ensures
        Json::view_seq(r@) == spec_encode_strs(strs_view(v@)),
{
    let mut out: Vec<Json> = Vec::new();
    let mut idx: usize = 0;
    while idx < v.len()
        invariant
            idx <= v.len(),
            Json::view_seq(out@) == spec_encode_strs(strs_view(v@.take(idx as int))),
        decreases v@.len() - idx,
    {
        let ghost out_pre = out@;
        let item = Json::Str(v[idx].clone());
        let ghost gitem = item;
        out.push(item);
        proof {
            assert(v@.take(idx as int + 1) =~= v@.take(idx as int).push(v@[idx as int]));
            lemma_strs_view_snoc(v@.take(idx as int), v@[idx as int]);
            lemma_encode_strs_snoc(strs_view(v@.take(idx as int)), v@[idx as int]@);
            lemma_view_seq_snoc(out_pre, gitem);
        }
        idx = idx + 1;
    }
    proof {
        assert(v@.take(v@.len() as int) =~= v@);
    }
    out
}

/// A field that is absent decodes to its default — the empty string,
/// no value, zero, or the empty list — never to an error.
pub proof fn lemma_missing_field_defaults(j: JsonV, k: Seq<char>)
    requires
        spec_lookup(j, k) is None,
    ensures
        spec_str_field(j, k) == Some(Seq::<char>::empty()),
        spec_opt_str_field(j, k) == Some(Option::<Seq<char>>::None),
        spec_opt_i64_field(j, k) == Some(Option::<i64>::None),
        spec_i32_field(j, k) == Some(0i32),
        spec_opt_bool_field(j, k) == Some(Option::<bool>::None),
        spec_str_list_field(j, k) == Some(Seq::<Seq<char>>::empty()),
{
}

} // verus!
