//! The structured status document, as handed over by the external
//! document parser, and per-field extraction with missing-key
//! defaulting.

use vstd::prelude::*;

use crate::deserializers::{optional_string, DecodeError, SpecErr};
use crate::text::str_eq;

verus! {

/// One value of the status document: text and unsigned-integer
/// scalars, lists, and key-value objects. `Other` stands for any
/// scalar kind the domain model never accepts (null, boolean, negative
/// or fractional number); extracting a typed field from it is a
/// structural error.
pub enum DocValue {
    Text(String),
    Unsigned(u64),
    List(Vec<DocValue>),
    Object(Vec<(String, DocValue)>),
    Other,
}

/// First value under `key` in an object's field list, if any.
pub open spec fn spec_lookup(fields: Seq<(String, DocValue)>, key: Seq<char>) -> Option<DocValue>
    decreases fields.len(),
{
    if fields.len() == 0 {
        None
    } else if fields[0].0@ == key {
        Some(fields[0].1)
    } else {
        spec_lookup(fields.drop_first(), key)
    }
}

/// Looks a key up in an object's field list.
pub fn lookup<'a>(fields: &'a Vec<(String, DocValue)>, key: &str) -> (r: Option<&'a DocValue>)
    ensures
        match r {
            Some(v) => spec_lookup(fields@, key@) == Some(*v),
            None => spec_lookup(fields@, key@) is None,
        },
{
    let n: usize = fields.len();
    let mut i: usize = 0;
    proof {
        assert(fields@.skip(0) =~= fields@);
    }
    while i < n
        invariant
            0 <= i <= n,
            n == fields@.len(),
            spec_lookup(fields@, key@) == spec_lookup(fields@.skip(i as int), key@),
        decreases n - i,
    {
        if str_eq(fields[i].0.as_str(), key) {
            proof {
                assert(fields@.skip(i as int)[0] == fields@[i as int]);
            }
            return Some(&fields[i].1);
        }
        proof {
            assert(fields@.skip(i as int).drop_first() =~= fields@.skip(i as int + 1));
        }
        i += 1;
    }
    None
}

/// A plain text field: absent means the empty string; present text is
/// taken as is; any other kind is a structural error.
pub open spec fn spec_text_field(fields: Seq<(String, DocValue)>, key: Seq<char>) -> Result<
    Seq<char>,
    SpecErr,
> {
    match spec_lookup(fields, key) {
        None => Ok(Seq::<char>::empty()),
        Some(v) => match v {
            DocValue::Text(s) => Ok(s@),
            _ => Err(SpecErr::Structure(key)),
        },
    }
}

/// Extracts a plain text field, defaulting an absent key to the empty
/// string.
pub fn get_text_field(fields: &Vec<(String, DocValue)>, key: &str) -> (r: Result<
    String,
    DecodeError,
>)
    ensures
        r is Ok <==> spec_text_field(fields@, key@) is Ok,
        r matches Ok(s) ==> spec_text_field(fields@, key@) matches Ok(t) && s@ == t,
        r matches Err(e) ==> spec_text_field(fields@, key@) matches Err(t) && e@ == t,
{
    match lookup(fields, key) {
        None => Ok(String::new()),
        Some(v) => match v {
            DocValue::Text(s) => Ok(s.clone()),
            _ => Err(DecodeError::Structure(key.to_owned())),
        },
    }
}

/// An unsigned counter field: absent means zero; any non-numeric kind
/// is a structural error.
pub open spec fn spec_u64_field(fields: Seq<(String, DocValue)>, key: Seq<char>) -> Result<
    u64,
    SpecErr,
> {
    match spec_lookup(fields, key) {
        None => Ok(0u64),
        Some(v) => match v {
            DocValue::Unsigned(n) => Ok(n),
            _ => Err(SpecErr::Structure(key)),
        },
    }
}

/// Extracts an unsigned counter field, defaulting an absent key to
/// zero.
pub fn get_u64_field(fields: &Vec<(String, DocValue)>, key: &str) -> (r: Result<u64, DecodeError>)
    ensures
        r is Ok <==> spec_u64_field(fields@, key@) is Ok,
        r matches Ok(n) ==> spec_u64_field(fields@, key@) == Ok::<u64, SpecErr>(n),
        r matches Err(e) ==> spec_u64_field(fields@, key@) matches Err(t) && e@ == t,
{
    match lookup(fields, key) {
        None => Ok(0),
        Some(v) => match v {
            DocValue::Unsigned(n) => Ok(*n),
            _ => Err(DecodeError::Structure(key.to_owned())),
        },
    }
}

/// An enumerated field: absent means the given default variant;
/// present text goes through the enumeration's token table, an
/// unmatched token being a token error; any other kind is a structural
/// error.
pub open spec fn spec_state_field<T>(
    fields: Seq<(String, DocValue)>,
    key: Seq<char>,
    table: spec_fn(Seq<char>) -> Option<T>,
    dflt: T,
) -> Result<T, SpecErr> {
    match spec_lookup(fields, key) {
        None => Ok(dflt),
        Some(v) => match v {
            DocValue::Text(s) => match table(s@) {
                Some(x) => Ok(x),
                None => Err(SpecErr::Token(s@)),
            },
            _ => Err(SpecErr::Structure(key)),
        },
    }
}

/// An optional-string field: absent means `None`; present text goes
/// through the sentinel decoding of [`optional_string`]; any other
/// kind is a structural error.
pub open spec fn spec_opt_text_field(fields: Seq<(String, DocValue)>, key: Seq<char>) -> Result<
    Option<Seq<char>>,
    SpecErr,
> {
    match spec_lookup(fields, key) {
        None => Ok(None),
        Some(v) => match v {
            DocValue::Text(s) => if s@ == "[undef]"@ {
                Ok(None)
            } else {
                Ok(Some(s@))
            },
            _ => Err(SpecErr::Structure(key)),
        },
    }
}

/// Extracts an optional-string field, defaulting an absent key to
/// `None` and decoding the `[undef]` sentinel to `None`.
pub fn get_opt_text_field(fields: &Vec<(String, DocValue)>, key: &str) -> (r: Result<
    Option<String>,
    DecodeError,
>)
    ensures
        r is Ok <==> spec_opt_text_field(fields@, key@) is Ok,
        r matches Ok(o) ==> spec_opt_text_field(fields@, key@) matches Ok(t) && (match o {
            Some(s) => t matches Some(u) && s@ == u,
            None => t is None,
        }),
        r matches Err(e) ==> spec_opt_text_field(fields@, key@) matches Err(t) && e@ == t,
{
    match lookup(fields, key) {
        None => Ok(None),
        Some(v) => match v {
            DocValue::Text(s) => Ok(optional_string(s.as_str())),
            _ => Err(DecodeError::Structure(key.to_owned())),
        },
    }
}

} // verus!
