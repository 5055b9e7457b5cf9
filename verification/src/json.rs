use vstd::prelude::*;
use vstd::string::StringExecFns;

verus! {

/// A plain-data model of one deserialized JSON document.
///
/// The caller deserializes the raw response text with whatever JSON
/// library it likes and hands the tree over in this shape. The library
/// only ever reads strings, unsigned counts, arrays and object fields,
/// so a number that does not fit in `u64` is kept only as the fact that
/// it is some other number.
pub enum Json {
    Null,
    Bool(bool),
    /// A JSON number representable as an unsigned 64-bit integer.
    UInt(u64),
    /// Any other JSON number (negative, fractional or too large).
    OtherNumber,
    Str(String),
    Arr(Vec<Json>),
    Obj(Vec<(String, Json)>),
}

/// The value under `key` in an object's field list: the first binding
/// with that key, if any.
pub open spec fn obj_lookup(fields: Seq<(String, Json)>, key: Seq<char>) -> Option<Json>
    decreases fields.len(),
{
    if fields.len() == 0 {
        None
    } else if fields[0].0@ == key {
        Some(fields[0].1)
    } else {
        obj_lookup(fields.drop_first(), key)
    }
}

/// The value under `key` in a JSON value: `None` unless the value is an
/// object with such a field.
pub open spec fn spec_get(j: Json, key: Seq<char>) -> Option<Json> {
    match j {
        Json::Obj(fields) => obj_lookup(fields@, key),
        _ => None,
    }
}

/// If none of the first `i` fields binds `key`, the lookup result over
/// the whole list equals the one over the rest.
proof fn lemma_obj_lookup_skip(fields: Seq<(String, Json)>, key: Seq<char>, i: int)
    requires
        0 <= i <= fields.len(),
        forall|m: int| 0 <= m < i ==> fields[m].0@ != key,
    ensures
        obj_lookup(fields, key) == obj_lookup(fields.skip(i), key),
    decreases i,
{
    if i > 0 {
        lemma_obj_lookup_skip(fields.drop_first(), key, i - 1);
        assert(fields.drop_first().skip(i - 1) =~= fields.skip(i));
    } else {
        assert(fields.skip(0) =~= fields);
    }
}

impl Json {
    /// Looks up a field of an object; `None` for any other shape.
    pub fn get<'a>(&'a self, key: &str) -> (r: Option<&'a Json>)
        ensures
            match r {
                Some(v) => spec_get(*self, key@) == Some(*v),
                None => spec_get(*self, key@) is None,
            },
    {
        match self {
            Json::Obj(fields) => {
                let k = String::from_str(key);
                let n = fields.len();
                for i in 0..n
                    invariant
                        n == fields@.len(),
                        k@ == key@,
                        spec_get(*self, key@) == obj_lookup(fields@, key@),
                        forall|m: int| 0 <= m < i ==> fields@[m].0@ != key@,
                {
                    if fields[i].0 == k {
                        proof {
                            lemma_obj_lookup_skip(fields@, key@, i as int);
                            assert(fields@.skip(i as int)[0] == fields@[i as int]);
                            assert(obj_lookup(fields@.skip(i as int), key@)
                                == Some(fields@[i as int].1));
                        }
                        return Some(&fields[i].1);
                    }
                }
                proof {
                    lemma_obj_lookup_skip(fields@, key@, n as int);
                }
                None
            },
            _ => None,
        }
    }

    /// The string inside a `Str` value, if that is what this is.
    pub fn as_str<'a>(&'a self) -> (r: Option<&'a String>)
        ensures
            match r {
                Some(s) => *self == Json::Str(*s),
                None => !(*self is Str),
            },
    {
        match self {
            Json::Str(s) => Some(s),
            _ => None,
        }
    }

    /// The number inside a `UInt` value, if that is what this is.
    pub fn as_u64(&self) -> (r: Option<u64>)
        ensures
            match r {
                Some(n) => *self == Json::UInt(n),
                None => !(*self is UInt),
            },
    {
        match self {
            Json::UInt(n) => Some(*n),
            _ => None,
        }
    }

    /// The elements of an `Arr` value, if that is what this is.
    pub fn as_array<'a>(&'a self) -> (r: Option<&'a Vec<Json>>)
        ensures
            match r {
                Some(v) => *self == Json::Arr(*v),
                None => !(*self is Arr),
            },
    {
        match self {
            Json::Arr(v) => Some(v),
            _ => None,
        }
    }
}

} // verus!
