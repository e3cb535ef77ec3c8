//! The JSON values that the mail logic reads and writes: scalars, and objects
//! of named scalars (a database row, or the arguments of a tool call).

use vstd::prelude::*;

verus! {

/// A JSON value as far as the logic distinguishes it.
pub enum JsonValue {
    Null,
    Bool(bool),
    /// A number that fits an `i64`.
    Int(i64),
    /// Any other number (too large for an `i64`, or fractional).
    Number,
    Str(String),
    /// An array or an object.
    Composite,
}

/// The mathematical form of a [`JsonValue`].
pub enum JsonView {
    Null,
    Bool(bool),
    Int(i64),
    Number,
    Str(Seq<char>),
    Composite,
}

impl View for JsonValue {
    type V = JsonView;

    open spec fn view(&self) -> JsonView {
        match self {
            JsonValue::Null => JsonView::Null,
            JsonValue::Bool(b) => JsonView::Bool(*b),
            JsonValue::Int(i) => JsonView::Int(*i),
            JsonValue::Number => JsonView::Number,
            JsonValue::Str(s) => JsonView::Str(s@),
            JsonValue::Composite => JsonView::Composite,
        }
    }
}

/// The view of an optional value.
pub open spec fn opt_view(v: Option<JsonValue>) -> Option<JsonView> {
    match v {
        Some(x) => Some(x@),
        None => None,
    }
}

impl JsonValue {
    /// A copy with the same view.
    pub fn duplicate(&self) -> (r: JsonValue)
        ensures
            r@ == self@,
    {
        match self {
            JsonValue::Null => JsonValue::Null,
            JsonValue::Bool(b) => JsonValue::Bool(*b),
            JsonValue::Int(i) => JsonValue::Int(*i),
            JsonValue::Number => JsonValue::Number,
            JsonValue::Str(s) => JsonValue::Str(s.clone()),
            JsonValue::Composite => JsonValue::Composite,
        }
    }

    /// The string a string value holds (`Value::as_str`).
    pub fn as_str(&self) -> (r: Option<String>)
        ensures
            r matches Some(s) ==> self@ == JsonView::Str(s@),
            r is None ==> !(self@ is Str),
    {
        match self {
            JsonValue::Str(s) => Some(s.clone()),
            _ => None,
        }
    }
}

/// One named member of an object.
pub struct JsonField {
    pub key: String,
    pub value: JsonValue,
}

/// A JSON object: its members in order, each key at most once.
pub struct JsonObject {
    pub fields: Vec<JsonField>,
}

/// The view of an object: pairs of key and value.
pub open spec fn fields_view(fields: Seq<JsonField>) -> Seq<(Seq<char>, JsonView)> {
    fields.map_values(|f: JsonField| (f.key@, f.value@))
}

impl View for JsonObject {
    type V = Seq<(Seq<char>, JsonView)>;

    open spec fn view(&self) -> Seq<(Seq<char>, JsonView)> {
        fields_view(self.fields@)
    }
}

/// The value stored under `key` (the first member with that key).
pub open spec fn obj_get(o: Seq<(Seq<char>, JsonView)>, key: Seq<char>) -> Option<JsonView>
    decreases o.len(),
{
    if o.len() == 0 {
        None
    } else if o[0].0 == key {
        Some(o[0].1)
    } else {
        obj_get(o.drop_first(), key)
    }
}

/// `Value::get(key).and_then(Value::as_i64)`.
pub open spec fn get_i64_spec(o: Seq<(Seq<char>, JsonView)>, key: Seq<char>) -> Option<i64> {
    match obj_get(o, key) {
        Some(JsonView::Int(i)) => Some(i),
        _ => None,
    }
}

/// `Value::get(key).and_then(Value::as_str)`.
pub open spec fn get_str_spec(o: Seq<(Seq<char>, JsonView)>, key: Seq<char>) -> Option<Seq<char>> {
    match obj_get(o, key) {
        Some(JsonView::Str(s)) => Some(s),
        _ => None,
    }
}

/// `Value::get(key).and_then(Value::as_bool)`.
pub open spec fn get_bool_spec(o: Seq<(Seq<char>, JsonView)>, key: Seq<char>) -> Option<bool> {
    match obj_get(o, key) {
        Some(JsonView::Bool(b)) => Some(b),
        _ => None,
    }
}

/// `Value::get(key).map_or(true, Value::is_null)`: absent or null.
pub open spec fn absent_or_null_spec(o: Seq<(Seq<char>, JsonView)>, key: Seq<char>) -> bool {
    match obj_get(o, key) {
        Some(JsonView::Null) => true,
        None => true,
        _ => false,
    }
}

/// `opt.unwrap_or(default)` on character sequences.
pub open spec fn or_default(opt: Option<Seq<char>>, default: Seq<char>) -> Seq<char> {
    match opt {
        Some(s) => s,
        None => default,
    }
}

/// The view of an optional string.
pub open spec fn opt_str_view(o: Option<String>) -> Option<Seq<char>> {
    match o {
        Some(s) => Some(s@),
        None => None,
    }
}

impl JsonObject {
    /// An object with no members.
    pub fn empty() -> (r: JsonObject)
        ensures
            r@ == Seq::<(Seq<char>, JsonView)>::empty(),
    {
        let r = JsonObject { fields: Vec::new() };
        assert(r@ =~= Seq::<(Seq<char>, JsonView)>::empty());
        r
    }

    /// The index of the first member named `key`.
    fn find(&self, key: &str) -> (r: Option<usize>)
        ensures
            match r {
                Some(i) => i < self.fields@.len() && obj_get(self@, key@) == Some(
                    self.fields@[i as int].value@,
                ),
                None => obj_get(self@, key@) is None,
            },
    {
        let mut i: usize = 0;
        assert(self@.skip(0) =~= self@);
        while i < self.fields.len()
            invariant
                i <= self.fields@.len(),
                obj_get(self@, key@) == obj_get(self@.skip(i as int), key@),
            decreases self.fields.len() - i,
        {
            let f = &self.fields[i];
            assert(self@.skip(i as int)[0] == (f.key@, f.value@));
            if crate::text::str_eq(f.key.as_str(), key) {
                return Some(i);
            }
            assert(self@.skip(i as int).drop_first() =~= self@.skip(i + 1));
            i = i + 1;
        }
        None
    }

    /// The value under `key` (`Value::get(key).cloned()`).
    pub fn get(&self, key: &str) -> (r: Option<JsonValue>)
        ensures
            opt_view(r) == obj_get(self@, key@),
    {
        match self.find(key) {
            Some(i) => Some(self.fields[i].value.duplicate()),
            None => None,
        }
    }

    /// The integer under `key`, if it is one that fits an `i64`.
    pub fn get_i64(&self, key: &str) -> (r: Option<i64>)
        ensures
            r == get_i64_spec(self@, key@),
    {
        match self.find(key) {
            Some(i) => match &self.fields[i].value {
                JsonValue::Int(v) => Some(*v),
                _ => None,
            },
            None => None,
        }
    }

    /// The string under `key`, if it is one.
    pub fn get_str(&self, key: &str) -> (r: Option<String>)
        ensures
            opt_str_view(r) == get_str_spec(self@, key@),
    {
        match self.find(key) {
            Some(i) => self.fields[i].value.as_str(),
            None => None,
        }
    }

    /// The string under `key`, or `default` when it is absent or not a string.
    pub fn get_str_or(&self, key: &str, default: &str) -> (r: String)
        ensures
            r@ == or_default(get_str_spec(self@, key@), default@),
    {
        match self.get_str(key) {
            Some(s) => s,
            None => crate::text::to_owned(default),
        }
    }

    /// The boolean under `key`, if it is one.
    pub fn get_bool(&self, key: &str) -> (r: Option<bool>)
        ensures
            r == get_bool_spec(self@, key@),
    {
        match self.find(key) {
            Some(i) => match &self.fields[i].value {
                JsonValue::Bool(b) => Some(*b),
                _ => None,
            },
            None => None,
        }
    }

    /// Whether `key` is absent or null.
    pub fn absent_or_null(&self, key: &str) -> (r: bool)
        ensures
            r == absent_or_null_spec(self@, key@),
    {
        match self.find(key) {
            Some(i) => match &self.fields[i].value {
                JsonValue::Null => true,
                _ => false,
            },
            None => true,
        }
    }
}

} // verus!
