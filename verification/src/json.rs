//! The library's model of a JSON tree.
//!
//! The upstream API returns semi-structured JSON whose shape varies by
//! endpoint.  The normalizer therefore works on an explicit tagged union
//! rather than on a rigid schema.  A number is carried as its decimal
//! rendering, which is all the coercion layer ever reads of it; an object
//! is a list of key/value pairs with unique keys (the parser collapses
//! duplicates), looked up by first match.

use vstd::prelude::*;

verus! {

#[derive(Debug)]
pub enum JsonValue {
    Null,
    Bool(bool),
    /// A JSON number, as its decimal rendering (`"42"`, `"-7"`, `"42.9"`).
    Num(String),
    Str(String),
    Arr(Vec<JsonValue>),
    Obj(Vec<(String, JsonValue)>),
}

impl JsonValue {
    /// First value bound to `key` in a pair list, if any.
    pub open spec fn spec_lookup(pairs: Seq<(String, JsonValue)>, key: Seq<char>) -> Option<
        JsonValue,
    >
        decreases pairs.len(),
    {
        if pairs.len() == 0 {
            None
        } else if pairs[0].0@ == key {
            Some(pairs[0].1)
        } else {
            Self::spec_lookup(pairs.skip(1), key)
        }
    }

    /// Field lookup: `None` on anything but an object with that key.
    pub open spec fn spec_get(self, key: Seq<char>) -> Option<JsonValue> {
        match self {
            JsonValue::Obj(pairs) => Self::spec_lookup(pairs@, key),
            _ => None,
        }
    }

    pub fn get<'a>(&'a self, key: &str) -> (r: Option<&'a JsonValue>)
        ensures
            match r {
                Some(v) => self.spec_get(key@) == Some(*v),
                None => self.spec_get(key@) is None,
            },
    {
        match self {
            JsonValue::Obj(pairs) => {
                let mut i: usize = 0;
                assert(pairs@.skip(0) =~= pairs@);
                while i < pairs.len()
                    invariant
                        *self == JsonValue::Obj(*pairs),
                        i <= pairs@.len(),
                        forall|j: int| 0 <= j < i ==> pairs@[j].0@ != key@,
                        Self::spec_lookup(pairs@, key@) == Self::spec_lookup(
                            pairs@.skip(i as int),
                            key@,
                        ),
                    decreases pairs@.len() - i,
                {
                    if crate::text::str_eq(pairs[i].0.as_str(), key) {
                        assert(pairs@.skip(i as int)[0] == pairs@[i as int]);
                        assert(Self::spec_lookup(pairs@.skip(i as int), key@) == Some(
                            pairs@[i as int].1,
                        ));
                        return Some(&pairs[i].1);
                    }
                    assert(pairs@.skip(i as int)[0] == pairs@[i as int]);
                    assert(pairs@.skip(i as int).skip(1) =~= pairs@.skip(i as int + 1));
                    i = i + 1;
                }
                None
            },
            _ => None,
        }
    }

    /// A typed optional string field as the raw-shape decoder reads it:
    /// a string value, or nothing for an absent or null field.
    pub open spec fn spec_str_field(self, key: Seq<char>) -> Option<Seq<char>> {
        match self.spec_get(key) {
            Some(JsonValue::Str(s)) => Some(s@),
            _ => None,
        }
    }

    /// Whether a field obeys the optional-string typing rule: absent, null
    /// or a string.  Any other shape is a type error that discards the
    /// whole record.
    pub open spec fn spec_str_field_ok(self, key: Seq<char>) -> bool {
        match self.spec_get(key) {
            None => true,
            Some(JsonValue::Null) => true,
            Some(JsonValue::Str(_)) => true,
            _ => false,
        }
    }

    /// Read an optional string field; the outer `None` reports a type error.
    pub fn get_opt_str(&self, key: &str) -> (r: Option<Option<String>>)
        ensures
            match r {
                Some(f) => self.spec_str_field_ok(key@) && f.deep_view() == self.spec_str_field(
                    key@,
                ),
                None => !self.spec_str_field_ok(key@),
            },
    {
        match self.get(key) {
            None => Some(None),
            Some(JsonValue::Null) => Some(None),
            Some(JsonValue::Str(s)) => Some(Some(s.clone())),
            Some(_) => None,
        }
    }

    /// A free-form optional field: any value but null or absence.
    pub open spec fn spec_val_field(self, key: Seq<char>) -> Option<JsonValue> {
        match self.spec_get(key) {
            Some(JsonValue::Null) => None,
            Some(v) => Some(v),
            None => None,
        }
    }

    /// Read a free-form optional field; null and absence are both nothing.
    pub fn get_opt_value<'a>(&'a self, key: &str) -> (r: Option<&'a JsonValue>)
        ensures
            match r {
                Some(v) => self.spec_val_field(key@) == Some(*v),
                None => self.spec_val_field(key@) is None,
            },
    {
        match self.get(key) {
            None => None,
            Some(JsonValue::Null) => None,
            Some(v) => Some(v),
        }
    }

    /// A typed optional array field, by the same rule as optional strings.
    pub open spec fn spec_arr_field(self, key: Seq<char>) -> Option<Seq<JsonValue>> {
        match self.spec_get(key) {
            Some(JsonValue::Arr(items)) => Some(items@),
            _ => None,
        }
    }

    pub open spec fn spec_arr_field_ok(self, key: Seq<char>) -> bool {
        match self.spec_get(key) {
            None => true,
            Some(JsonValue::Null) => true,
            Some(JsonValue::Arr(_)) => true,
            _ => false,
        }
    }

    /// Read an optional array field; the outer `None` reports a type error.
    pub fn get_opt_arr<'a>(&'a self, key: &str) -> (r: Option<Option<&'a Vec<JsonValue>>>)
        ensures
            match r {
                Some(Some(items)) => self.spec_arr_field_ok(key@) && self.spec_arr_field(key@)
                    == Some(items@),
                Some(None) => self.spec_arr_field_ok(key@) && self.spec_arr_field(key@) is None,
                None => !self.spec_arr_field_ok(key@),
            },
    {
        match self.get(key) {
            None => Some(None),
            Some(JsonValue::Null) => Some(None),
            Some(JsonValue::Arr(items)) => Some(Some(items)),
            Some(_) => None,
        }
    }

    pub fn is_obj(&self) -> (r: bool)
        ensures
            r == (self is Obj),
    {
        match self {
            JsonValue::Obj(_) => true,
            _ => false,
        }
    }
}

} // verus!
