//! A plain model of a parsed JSON document, holding exactly what the
//! metadata and search logic reads: null, booleans, unsigned integers,
//! strings, arrays, and objects as ordered key/value pairs. The transport
//! layer converts a parsed response body into this type; everything that
//! reads it is verified.

use vstd::prelude::*;
use crate::scan::str_eq;

verus! {

/// One JSON value. A number that is not an unsigned integer carries no
/// information this library reads and is represented as `Null`.
#[derive(Debug)]
pub enum JsonValue {
    Null,
    Bool(bool),
    UInt(u64),
    Str(String),
    Arr(Vec<JsonValue>),
    Obj(Vec<(String, JsonValue)>),
}

/// The value of the first pair whose key reads `key`.
pub open spec fn obj_lookup(pairs: Seq<(String, JsonValue)>, key: Seq<char>) -> Option<JsonValue>
    decreases pairs.len(),
{
    if pairs.len() == 0 {
        None
    } else if pairs[0].0@ == key {
        Some(pairs[0].1)
    } else {
        obj_lookup(pairs.drop_first(), key)
    }
}

/// Member lookup on a value: a value is produced only for an object that
/// holds the key.
pub open spec fn spec_member(v: JsonValue, key: Seq<char>) -> Option<JsonValue> {
    match v {
        JsonValue::Obj(pairs) => obj_lookup(pairs@, key),
        _ => None,
    }
}

impl JsonValue {
    /// Look up a member of an object value; any other value has none.
    pub fn member<'a>(&'a self, key: &str) -> (r: Option<&'a JsonValue>)
        ensures
            match r {
                Some(v) => spec_member(*self, key@) == Some(*v),
                None => spec_member(*self, key@) is None,
            },
    {
        match self {
            JsonValue::Obj(pairs) => {
                proof {
                    assert(pairs@.skip(0) =~= pairs@);
                    assert(spec_member(*self, key@) == obj_lookup(pairs@, key@));
                }
                let mut i: usize = 0;
                while i < pairs.len()
                    invariant
                        i <= pairs@.len(),
                        spec_member(*self, key@) == obj_lookup(pairs@, key@),
                        obj_lookup(pairs@, key@) == obj_lookup(pairs@.skip(i as int), key@),
                    decreases pairs@.len() - i,
                {
                    let entry = &pairs[i];
                    if str_eq(entry.0.as_str(), key) {
                        proof {
                            assert(pairs@.skip(i as int)[0] == pairs@[i as int]);
                            assert(pairs@.skip(i as int).len() == pairs@.len() - i);
                            assert(obj_lookup(pairs@.skip(i as int), key@) == Some(
                                pairs@[i as int].1,
                            ));
                        }
                        return Some(&entry.1);
                    }
                    proof {
                        assert(pairs@.skip(i as int).drop_first() =~= pairs@.skip(i + 1 as int));
                        assert(pairs@.skip(i as int)[0] == pairs@[i as int]);
                    }
                    i = i + 1;
                }
                None
            },
            _ => None,
        }
    }
}

} // verus!
