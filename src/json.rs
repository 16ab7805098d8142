//! A loosely typed JSON value, as the server sends it in payloads, and the
//! decoders that read typed fields out of it.
use vstd::prelude::*;

verus! {

/// A JSON document.
///
/// Numbers keep the exact text of their canonical JSON rendering, so that
/// integers of any width and fractional values are carried without loss.
#[derive(Debug, PartialEq)]
pub enum Json {
    /// `null`
    Null,
    /// `true` or `false`
    Bool(bool),
    /// A number, as its JSON text (`17`, `-3`, `0.666`).
    Number(String),
    /// A string.
    Str(String),
    /// An array.
    Array(Vec<Json>),
    /// An object: its members in order. A lookup finds the first member of a
    /// name; a parsed document has each name once.
    Object(Vec<(String, Json)>),
}

/// Why a JSON payload could not be read.
#[derive(Debug)]
pub enum JsonError {
    /// The text is not JSON.
    Syntax(serde_json::Error),
    /// The JSON does not have the shape that was asked for.
    Mismatch,
}

#[verifier::external_type_specification]
#[verifier::external_body]
pub struct ExJsonError(serde_json::Error);

#[verifier::external_type_specification]
#[verifier::external_body]
pub struct ExJsonValue(serde_json::Value);

/// The document that the JSON text `b` holds, if it is JSON.
pub uninterp spec fn json_of(b: Seq<u8>) -> Option<Json>;

/// Relies on `serde_json::from_slice` into a `serde_json::Value`: it succeeds
/// exactly on JSON text, and the document depends on the bytes alone.
#[verifier::external_body]
pub(crate) fn parse_json(b: &[u8]) -> (r: Result<Json, serde_json::Error>)
    ensures
        r is Ok <==> json_of(b@) is Some,
        r matches Ok(j) ==> json_of(b@) == Some(j),
{
    match serde_json::from_slice::<serde_json::Value>(b) {
        Ok(v) => Ok(json_from_value(v)),
        Err(e) => Err(e),
    }
}

/// Moves a `serde_json::Value` into a `Json`, variant for variant; a number
/// becomes its `Display` text.
#[verifier::external_body]
fn json_from_value(v: serde_json::Value) -> Json {
    match v {
        serde_json::Value::Null => Json::Null,
        serde_json::Value::Bool(b) => Json::Bool(b),
        serde_json::Value::Number(n) => Json::Number(n.to_string()),
        serde_json::Value::String(s) => Json::Str(s),
        serde_json::Value::Array(a) => Json::Array(a.into_iter().map(json_from_value).collect()),
        serde_json::Value::Object(m) => Json::Object(
            m.into_iter().map(|(k, v)| (k, json_from_value(v))).collect(),
        ),
    }
}

// ---------------------------------------------------------------------------
// Members of objects

/// The value of the first member of `fields` named `key`.
pub open spec fn member(fields: Seq<(String, Json)>, key: Seq<char>) -> Option<Json>
    decreases fields.len(),
{
    if fields.len() == 0 {
        None
    } else if fields[0].0@ == key {
        Some(fields[0].1)
    } else {
        member(fields.drop_first(), key)
    }
}

/// The member `key` of `j`, where `j` is an object that has one.
pub open spec fn lookup(j: Json, key: Seq<char>) -> Option<Json> {
    match j {
        Json::Object(fields) => member(fields@, key),
        _ => None,
    }
}

impl Json {
    /// The member `key` of this value, where it is an object that has one.
    pub fn get(&self, key: &str) -> (r: Option<&Json>)
        ensures
            r is Some <==> lookup(*self, key@) is Some,
            r matches Some(v) ==> lookup(*self, key@) == Some(*v),
    {
        match self {
            Json::Object(fields) => {
                let k = key.to_owned();
                let mut i: usize = 0;
                assert(fields@.subrange(0, fields@.len() as int) =~= fields@);
                while i < fields.len()
                    invariant
                        i <= fields@.len(),
                        k@ == key@,
                        lookup(*self, key@) == member(fields@, key@),
                        member(fields@, key@) == member(fields@.subrange(i as int, fields@.len() as int), key@),
                    decreases fields@.len() - i,
                {
                    let ghost rest = fields@.subrange(i as int, fields@.len() as int);
                    assert(rest.drop_first() =~= fields@.subrange(i + 1, fields@.len() as int));
                    assert(rest[0] == fields@[i as int]);
                    if fields[i].0 == k {
                        return Some(&fields[i].1);
                    }
                    i = i + 1;
                }
                None
            },
            _ => None,
        }
    }
}

// ---------------------------------------------------------------------------
// Scalars

/// The value of the decimal digit `c`.
pub open spec fn digit_value(c: char) -> nat {
    (c as u32 - '0' as u32) as nat
}

/// Whether `s` is made of decimal digits alone.
pub open spec fn all_digits(s: Seq<char>) -> bool {
    forall|i: int| 0 <= i < s.len() ==> '0' <= #[trigger] s[i] <= '9'
}

/// The number that the digits `s` denote.
pub open spec fn digits_value(s: Seq<char>) -> nat
    decreases s.len(),
{
    if s.len() == 0 {
        0
    } else {
        digits_value(s.drop_last()) * 10 + digit_value(s.last())
    }
}

/// The unsigned integer that `j` is, if it is one that fits in 64 bits.
pub open spec fn u64_of(j: Json) -> Option<u64> {
    match j {
        Json::Number(t) => if t@.len() > 0 && all_digits(t@) && digits_value(t@) <= u64::MAX {
            Some(digits_value(t@) as u64)
        } else {
            None
        },
        _ => None,
    }
}

/// The unsigned integer that `j` is, if it is one not above `max`.
pub open spec fn uint_of(j: Json, max: u64) -> Option<u64> {
    match u64_of(j) {
        Some(n) => if n <= max { Some(n) } else { None },
        None => None,
    }
}

/// The text of `j`, if it is a string.
pub open spec fn str_of(j: Json) -> Option<Seq<char>> {
    match j {
        Json::Str(s) => Some(s@),
        _ => None,
    }
}

/// The truth value of `j`, if it is one.
pub open spec fn bool_of(j: Json) -> Option<bool> {
    match j {
        Json::Bool(b) => Some(b),
        _ => None,
    }
}

/// Reads an optional member: absent or `null` is `None`; any other value
/// must decode (`d`), or the member fails (outer `None`).
pub open spec fn optional<T>(f: Option<Json>, d: spec_fn(Json) -> Option<T>) -> Option<Option<T>> {
    match f {
        None => Some(None),
        Some(Json::Null) => Some(None),
        Some(j) => match d(j) {
            Some(v) => Some(Some(v)),
            None => None,
        },
    }
}

/// Reads a required member: it must be there and decode (`d`).
pub open spec fn required<T>(f: Option<Json>, d: spec_fn(Json) -> Option<T>) -> Option<T> {
    match f {
        Some(j) => d(j),
        None => None,
    }
}

proof fn lemma_digits_push(s: Seq<char>, c: char)
    ensures
        digits_value(s.push(c)) == digits_value(s) * 10 + digit_value(c),
        all_digits(s.push(c)) == (all_digits(s) && '0' <= c <= '9'),
{
    assert(s.push(c).drop_last() =~= s);
    if all_digits(s) && '0' <= c <= '9' {
        assert forall|i: int| 0 <= i < s.push(c).len() implies '0' <= #[trigger] s.push(c)[i] <= '9' by {
            if i < s.len() {
                assert(s.push(c)[i] == s[i]);
            }
        }
    }
    if all_digits(s.push(c)) {
        assert forall|i: int| 0 <= i < s.len() implies '0' <= #[trigger] s[i] <= '9' by {
            assert(s.push(c)[i] == s[i]);
        }
        assert(s.push(c)[s.len() as int] == c);
    }
}

impl Json {
    /// The unsigned integer this value is (`u64_of`).
    pub fn as_u64(&self) -> (r: Option<u64>)
        ensures
            r == u64_of(*self),
    {
        match self {
            Json::Number(t) => {
                let text = t.as_str();
                let n = text.unicode_len();
                if n == 0 {
                    return None;
                }
                let mut acc: u64 = 0;
                let mut over = false;
                let mut digits = true;
                let mut i: usize = 0;
                assert(text@.subrange(0, 0) =~= Seq::<char>::empty());
                while i < n
                    invariant
                        i <= n,
                        n == text@.len(),
                        text@ == t@,
                        digits == all_digits(text@.subrange(0, i as int)),
                        digits && !over ==> acc == digits_value(text@.subrange(0, i as int)),
                        digits && over ==> digits_value(text@.subrange(0, i as int)) > u64::MAX,
                    decreases n - i,
                {
                    let c = text.get_char(i);
                    proof {
                        assert(text@.subrange(0, i + 1) =~= text@.subrange(0, i as int).push(c));
                        lemma_digits_push(text@.subrange(0, i as int), c);
                    }
                    if '0' <= c && c <= '9' {
                        let d = (c as u32 - '0' as u32) as u64;
                        if !over {
                            if acc > (u64::MAX - d) / 10 {
                                over = true;
                            } else {
                                acc = acc * 10 + d;
                            }
                        }
                    } else {
                        digits = false;
                    }
                    i = i + 1;
                }
                assert(text@.subrange(0, n as int) =~= text@);
                if digits && !over {
                    Some(acc)
                } else {
                    None
                }
            },
            _ => None,
        }
    }

    /// The unsigned integer this value is, if not above `max` (`uint_of`).
    pub fn as_uint(&self, max: u64) -> (r: Option<u64>)
        ensures
            r == uint_of(*self, max),
    {
        match self.as_u64() {
            Some(n) => if n <= max { Some(n) } else { None },
            None => None,
        }
    }

    /// The text of this value, if it is a string (`str_of`).
    pub fn as_str(&self) -> (r: Option<&String>)
        ensures
            r is Some <==> str_of(*self) is Some,
            r matches Some(s) ==> str_of(*self) == Some(s@),
    {
        match self {
            Json::Str(s) => Some(s),
            _ => None,
        }
    }

    /// The truth value of this value, if it is one (`bool_of`).
    pub fn as_bool(&self) -> (r: Option<bool>)
        ensures
            r == bool_of(*self),
    {
        match self {
            Json::Bool(b) => Some(*b),
            _ => None,
        }
    }

    /// Whether this value is an object.
    pub fn is_object(&self) -> (r: bool)
        ensures
            r == (*self is Object),
    {
        match self {
            Json::Object(_) => true,
            _ => false,
        }
    }

    /// Whether this value is `null`.
    pub fn is_null(&self) -> (r: bool)
        ensures
            r == (*self is Null),
    {
        match self {
            Json::Null => true,
            _ => false,
        }
    }
}

// ---------------------------------------------------------------------------
// Members, decoded

/// The optional unsigned integer member `key` of `obj`, not above `max`.
pub fn opt_uint_member(obj: &Json, key: &str, max: u64) -> (r: Option<Option<u64>>)
    ensures
        r == optional(lookup(*obj, key@), |j: Json| uint_of(j, max)),
{
    match obj.get(key) {
        None => Some(None),
        Some(v) => if v.is_null() {
            Some(None)
        } else {
            match v.as_uint(max) {
                Some(n) => Some(Some(n)),
                None => None,
            }
        },
    }
}

/// The required string member `key` of `obj`.
pub fn str_member(obj: &Json, key: &str) -> (r: Option<String>)
    ensures
        r is Some <==> required(lookup(*obj, key@), |j: Json| str_of(j)) is Some,
        r matches Some(v) ==> required(lookup(*obj, key@), |j: Json| str_of(j)) == Some(v@),
{
    match obj.get(key) {
        None => None,
        Some(v) => match v.as_str() {
            Some(s) => Some(s.clone()),
            None => None,
        },
    }
}


} // verus!
