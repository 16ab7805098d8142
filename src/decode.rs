//! Typed readings of JSON values: what it means for a document to decode to
//! a value of a given type, and the decoders that find that value.
//!
//! The rules follow the shape of the server's payloads: an optional member
//! may be absent or `null`; a list member may be absent, which reads as the
//! empty list, but not `null`; a required member must be there.
use vstd::prelude::*;

use crate::json::{bool_of, lookup, str_of, uint_of, Json};

verus! {

/// A type that JSON values can be read as.
pub trait FromJson: Sized {
    /// Whether `j` can be read as a value of this type.
    spec fn decodable(j: Json) -> bool;

    /// Whether `j` reads as `v`.
    spec fn decodes(j: Json, v: Self) -> bool;

    /// Whether `a` and `b` are alike: equal numbers, flags and variants, and
    /// strings and lists with equal contents (their views). Verus has no
    /// finer equality of a `String` or a `Vec` than that of its contents.
    spec fn alike(a: Self, b: Self) -> bool;

    /// Reads `j` as a value of this type.
    fn from_json(j: &Json) -> (r: Option<Self>)
        ensures
            r is Some <==> Self::decodable(*j),
            r matches Some(v) ==> Self::decodes(*j, v),
    ;

    /// A document reads as one value only, up to `alike`.
    proof fn lemma_decodes_unique(j: Json, a: Self, b: Self)
        requires
            Self::decodes(j, a),
            Self::decodes(j, b),
        ensures
            Self::alike(a, b),
    ;
}

/// Whether two optional values are alike.
pub open spec fn opt_alike<T: FromJson>(a: Option<T>, b: Option<T>) -> bool {
    match (a, b) {
        (None, None) => true,
        (Some(x), Some(y)) => T::alike(x, y),
        _ => false,
    }
}

/// Whether two lists are alike, item for item.
pub open spec fn seq_alike<T: FromJson>(a: Seq<T>, b: Seq<T>) -> bool {
    &&& a.len() == b.len()
    &&& forall|i: int| 0 <= i < a.len() ==> #[trigger] T::alike(a[i], b[i])
}

/// An optional member reads as one value only.
pub proof fn lemma_opt_unique<T: FromJson>(f: Option<Json>, a: Option<T>, b: Option<T>)
    requires
        opt_decodes(f, a),
        opt_decodes(f, b),
    ensures
        opt_alike(a, b),
{
    if let (Some(x), Some(y)) = (a, b) {
        T::lemma_decodes_unique(f->0, x, y);
    }
}

/// A required member reads as one value only.
pub proof fn lemma_req_unique<T: FromJson>(f: Option<Json>, a: T, b: T)
    requires
        req_decodes(f, a),
        req_decodes(f, b),
    ensures
        T::alike(a, b),
{
    T::lemma_decodes_unique(f->0, a, b);
}

/// The items of an array read as one list only.
pub proof fn lemma_items_unique<T: FromJson>(items: Seq<Json>, a: Seq<T>, b: Seq<T>)
    requires
        items_decode(items, a),
        items_decode(items, b),
    ensures
        seq_alike(a, b),
{
    assert forall|i: int| 0 <= i < a.len() implies #[trigger] T::alike(a[i], b[i]) by {
        T::lemma_decodes_unique(items[i], a[i], b[i]);
    }
}

/// A list member reads as one list only.
pub proof fn lemma_list_unique<T: FromJson>(f: Option<Json>, a: Seq<T>, b: Seq<T>)
    requires
        list_decodes(f, a),
        list_decodes(f, b),
    ensures
        seq_alike(a, b),
{
    if let Some(Json::Array(items)) = f {
        lemma_items_unique(items@, a, b);
    }
}

// ---------------------------------------------------------------------------
// Members

/// Whether the member `f` (absent: `None`) can be read as an optional value.
pub open spec fn opt_decodable<T: FromJson>(f: Option<Json>) -> bool {
    match f {
        None => true,
        Some(Json::Null) => true,
        Some(j) => T::decodable(j),
    }
}

/// Whether the member `f` reads as the optional value `v`.
pub open spec fn opt_decodes<T: FromJson>(f: Option<Json>, v: Option<T>) -> bool {
    match f {
        None => v is None,
        Some(Json::Null) => v is None,
        Some(j) => v matches Some(x) && T::decodes(j, x),
    }
}

/// Whether the member `f` can be read as a required value.
pub open spec fn req_decodable<T: FromJson>(f: Option<Json>) -> bool {
    match f {
        None => false,
        Some(j) => T::decodable(j),
    }
}

/// Whether the member `f` reads as the required value `v`.
pub open spec fn req_decodes<T: FromJson>(f: Option<Json>, v: T) -> bool {
    match f {
        None => false,
        Some(j) => T::decodes(j, v),
    }
}

/// Whether the array `items` can be read as a list.
pub open spec fn items_decodable<T: FromJson>(items: Seq<Json>) -> bool {
    forall|i: int| 0 <= i < items.len() ==> #[trigger] T::decodable(items[i])
}

/// Whether the array `items` reads as the list `v`, item for item.
pub open spec fn items_decode<T: FromJson>(items: Seq<Json>, v: Seq<T>) -> bool {
    &&& items.len() == v.len()
    &&& forall|i: int| 0 <= i < items.len() ==> #[trigger] T::decodes(items[i], v[i])
}

/// Whether the member `f` can be read as a list: absent, or an array.
pub open spec fn list_decodable<T: FromJson>(f: Option<Json>) -> bool {
    match f {
        None => true,
        Some(Json::Array(items)) => items_decodable::<T>(items@),
        Some(_) => false,
    }
}

/// Whether the member `f` reads as the list `v`; absent reads as empty.
pub open spec fn list_decodes<T: FromJson>(f: Option<Json>, v: Seq<T>) -> bool {
    match f {
        None => v.len() == 0,
        Some(Json::Array(items)) => items_decode::<T>(items@, v),
        Some(_) => false,
    }
}

/// Reads the items of an array as a list.
pub fn items_from_json<T: FromJson>(items: &Vec<Json>) -> (r: Option<Vec<T>>)
    ensures
        r is Some <==> items_decodable::<T>(items@),
        r matches Some(v) ==> items_decode::<T>(items@, v@),
{
    let mut out: Vec<T> = Vec::new();
    let mut i: usize = 0;
    while i < items.len()
        invariant
            i <= items@.len(),
            out@.len() == i,
            forall|k: int| 0 <= k < i ==> #[trigger] T::decodable(items@[k]),
            forall|k: int| 0 <= k < i ==> #[trigger] T::decodes(items@[k], out@[k]),
        decreases items@.len() - i,
    {
        match T::from_json(&items[i]) {
            Some(v) => {
                out.push(v);
            },
            None => {
                return None;
            },
        }
        i = i + 1;
    }
    Some(out)
}

/// Reads the optional member `key` of `obj`.
pub fn opt_member<T: FromJson>(obj: &Json, key: &str) -> (r: Option<Option<T>>)
    ensures
        r is Some <==> opt_decodable::<T>(lookup(*obj, key@)),
        r matches Some(v) ==> opt_decodes::<T>(lookup(*obj, key@), v),
{
    match obj.get(key) {
        None => Some(None),
        Some(j) => if j.is_null() {
            Some(None)
        } else {
            match T::from_json(j) {
                Some(v) => Some(Some(v)),
                None => None,
            }
        },
    }
}

/// Reads the required member `key` of `obj`.
pub fn req_member<T: FromJson>(obj: &Json, key: &str) -> (r: Option<T>)
    ensures
        r is Some <==> req_decodable::<T>(lookup(*obj, key@)),
        r matches Some(v) ==> req_decodes::<T>(lookup(*obj, key@), v),
{
    match obj.get(key) {
        None => None,
        Some(j) => T::from_json(j),
    }
}

/// Reads the list member `key` of `obj`.
pub fn list_member<T: FromJson>(obj: &Json, key: &str) -> (r: Option<Vec<T>>)
    ensures
        r is Some <==> list_decodable::<T>(lookup(*obj, key@)),
        r matches Some(v) ==> list_decodes::<T>(lookup(*obj, key@), v@),
{
    match obj.get(key) {
        None => Some(Vec::new()),
        Some(Json::Array(items)) => items_from_json(items),
        Some(_) => None,
    }
}

/// Whether the member `f` can be read as a count that defaults to 0.
pub open spec fn zero_decodable(f: Option<Json>) -> bool {
    match f {
        None => true,
        Some(j) => <u64 as FromJson>::decodable(j),
    }
}

/// Whether the member `f` reads as the count `v`; absent reads as 0.
pub open spec fn zero_decodes(f: Option<Json>, v: u64) -> bool {
    match f {
        None => v == 0,
        Some(j) => <u64 as FromJson>::decodes(j, v),
    }
}

/// Reads the member `key` of `obj`, a count that defaults to 0.
pub fn zero_member(obj: &Json, key: &str) -> (r: Option<u64>)
    ensures
        r is Some <==> zero_decodable(lookup(*obj, key@)),
        r matches Some(v) ==> zero_decodes(lookup(*obj, key@), v),
{
    match obj.get(key) {
        None => Some(0),
        Some(j) => <u64 as FromJson>::from_json(j),
    }
}

/// A count that defaults to 0 reads as one value only.
pub proof fn lemma_zero_unique(f: Option<Json>, a: u64, b: u64)
    requires
        zero_decodes(f, a),
        zero_decodes(f, b),
    ensures
        a == b,
{
}

// ---------------------------------------------------------------------------
// Scalars

impl FromJson for u64 {
    open spec fn decodable(j: Json) -> bool {
        uint_of(j, u64::MAX) is Some
    }

    open spec fn decodes(j: Json, v: u64) -> bool {
        uint_of(j, u64::MAX) == Some(v)
    }

    open spec fn alike(a: u64, b: u64) -> bool {
        a == b
    }

    fn from_json(j: &Json) -> (r: Option<u64>) {
        j.as_uint(u64::MAX)
    }

    proof fn lemma_decodes_unique(j: Json, a: u64, b: u64) {
    }
}

impl FromJson for u32 {
    open spec fn decodable(j: Json) -> bool {
        uint_of(j, u32::MAX as u64) is Some
    }

    open spec fn decodes(j: Json, v: u32) -> bool {
        uint_of(j, u32::MAX as u64) == Some(v as u64)
    }

    open spec fn alike(a: u32, b: u32) -> bool {
        a == b
    }

    fn from_json(j: &Json) -> (r: Option<u32>) {
        match j.as_uint(u32::MAX as u64) {
            Some(n) => Some(n as u32),
            None => None,
        }
    }

    proof fn lemma_decodes_unique(j: Json, a: u32, b: u32) {
    }
}

impl FromJson for u16 {
    open spec fn decodable(j: Json) -> bool {
        uint_of(j, u16::MAX as u64) is Some
    }

    open spec fn decodes(j: Json, v: u16) -> bool {
        uint_of(j, u16::MAX as u64) == Some(v as u64)
    }

    open spec fn alike(a: u16, b: u16) -> bool {
        a == b
    }

    fn from_json(j: &Json) -> (r: Option<u16>) {
        match j.as_uint(u16::MAX as u64) {
            Some(n) => Some(n as u16),
            None => None,
        }
    }

    proof fn lemma_decodes_unique(j: Json, a: u16, b: u16) {
    }
}

impl FromJson for u8 {
    open spec fn decodable(j: Json) -> bool {
        uint_of(j, u8::MAX as u64) is Some
    }

    open spec fn decodes(j: Json, v: u8) -> bool {
        uint_of(j, u8::MAX as u64) == Some(v as u64)
    }

    open spec fn alike(a: u8, b: u8) -> bool {
        a == b
    }

    fn from_json(j: &Json) -> (r: Option<u8>) {
        match j.as_uint(u8::MAX as u64) {
            Some(n) => Some(n as u8),
            None => None,
        }
    }

    proof fn lemma_decodes_unique(j: Json, a: u8, b: u8) {
    }
}

impl FromJson for bool {
    open spec fn decodable(j: Json) -> bool {
        bool_of(j) is Some
    }

    open spec fn decodes(j: Json, v: bool) -> bool {
        bool_of(j) == Some(v)
    }

    open spec fn alike(a: bool, b: bool) -> bool {
        a == b
    }

    fn from_json(j: &Json) -> (r: Option<bool>) {
        j.as_bool()
    }

    proof fn lemma_decodes_unique(j: Json, a: bool, b: bool) {
    }
}

impl FromJson for String {
    open spec fn decodable(j: Json) -> bool {
        str_of(j) is Some
    }

    open spec fn decodes(j: Json, v: String) -> bool {
        str_of(j) == Some(v@)
    }

    open spec fn alike(a: String, b: String) -> bool {
        a@ == b@
    }

    fn from_json(j: &Json) -> (r: Option<String>) {
        match j.as_str() {
            Some(s) => Some(s.clone()),
            None => None,
        }
    }

    proof fn lemma_decodes_unique(j: Json, a: String, b: String) {
    }
}

/// A number with a fractional part, kept as the JSON parser renders it
/// (`7.52`; `1e2` becomes `100.0`), so that no conversion to a float is
/// needed to hold it.
#[derive(Clone, Debug, PartialEq)]
pub struct Decimal {
    /// The number's JSON text.
    pub text: String,
}

impl FromJson for Decimal {
    open spec fn decodable(j: Json) -> bool {
        j is Number
    }

    open spec fn decodes(j: Json, v: Decimal) -> bool {
        j matches Json::Number(t) && t@ == v.text@
    }

    open spec fn alike(a: Decimal, b: Decimal) -> bool {
        a.text@ == b.text@
    }

    fn from_json(j: &Json) -> (r: Option<Decimal>) {
        match j {
            Json::Number(t) => Some(Decimal { text: t.clone() }),
            _ => None,
        }
    }

    proof fn lemma_decodes_unique(j: Json, a: Decimal, b: Decimal) {
    }
}

impl<T: FromJson> FromJson for Vec<T> {
    open spec fn decodable(j: Json) -> bool {
        j matches Json::Array(items) && items_decodable::<T>(items@)
    }

    open spec fn decodes(j: Json, v: Vec<T>) -> bool {
        j matches Json::Array(items) && items_decode::<T>(items@, v@)
    }

    open spec fn alike(a: Vec<T>, b: Vec<T>) -> bool {
        seq_alike(a@, b@)
    }

    fn from_json(j: &Json) -> (r: Option<Vec<T>>) {
        match j {
            Json::Array(items) => items_from_json(items),
            _ => None,
        }
    }

    proof fn lemma_decodes_unique(j: Json, a: Vec<T>, b: Vec<T>) {
        if let Json::Array(items) = j {
            lemma_items_unique(items@, a@, b@);
        }
    }
}

// ---------------------------------------------------------------------------
// Tuples, read from arrays of their length

impl<A: FromJson, B: FromJson> FromJson for (A, B) {
    open spec fn decodable(j: Json) -> bool {
        j matches Json::Array(items) && items@.len() == 2 && A::decodable(items@[0])
            && B::decodable(items@[1])
    }

    open spec fn decodes(j: Json, v: (A, B)) -> bool {
        j matches Json::Array(items) && items@.len() == 2 && A::decodes(items@[0], v.0)
            && B::decodes(items@[1], v.1)
    }

    open spec fn alike(a: (A, B), b: (A, B)) -> bool {
        A::alike(a.0, b.0) && B::alike(a.1, b.1)
    }

    proof fn lemma_decodes_unique(j: Json, a: (A, B), b: (A, B)) {
        if let Json::Array(items) = j {
            A::lemma_decodes_unique(items@[0], a.0, b.0);
            B::lemma_decodes_unique(items@[1], a.1, b.1);
        }
    }

    fn from_json(j: &Json) -> (r: Option<(A, B)>) {
        match j {
            Json::Array(items) => {
                if items.len() != 2 {
                    return None;
                }
                match (A::from_json(&items[0]), B::from_json(&items[1])) {
                    (Some(a), Some(b)) => Some((a, b)),
                    _ => None,
                }
            },
            _ => None,
        }
    }
}

impl<A: FromJson, B: FromJson, C: FromJson, D: FromJson> FromJson for (A, B, C, D) {
    open spec fn decodable(j: Json) -> bool {
        j matches Json::Array(items) && items@.len() == 4 && A::decodable(items@[0])
            && B::decodable(items@[1]) && C::decodable(items@[2]) && D::decodable(items@[3])
    }

    open spec fn decodes(j: Json, v: (A, B, C, D)) -> bool {
        j matches Json::Array(items) && items@.len() == 4 && A::decodes(items@[0], v.0)
            && B::decodes(items@[1], v.1) && C::decodes(items@[2], v.2) && D::decodes(
            items@[3],
            v.3,
        )
    }

    open spec fn alike(a: (A, B, C, D), b: (A, B, C, D)) -> bool {
        A::alike(a.0, b.0) && B::alike(a.1, b.1) && C::alike(a.2, b.2) && D::alike(a.3, b.3)
    }

    proof fn lemma_decodes_unique(j: Json, a: (A, B, C, D), b: (A, B, C, D)) {
        if let Json::Array(items) = j {
            A::lemma_decodes_unique(items@[0], a.0, b.0);
            B::lemma_decodes_unique(items@[1], a.1, b.1);
            C::lemma_decodes_unique(items@[2], a.2, b.2);
            D::lemma_decodes_unique(items@[3], a.3, b.3);
        }
    }

    fn from_json(j: &Json) -> (r: Option<(A, B, C, D)>) {
        match j {
            Json::Array(items) => {
                if items.len() != 4 {
                    return None;
                }
                match (
                    A::from_json(&items[0]),
                    B::from_json(&items[1]),
                    C::from_json(&items[2]),
                    D::from_json(&items[3]),
                ) {
                    (Some(a), Some(b), Some(c), Some(d)) => Some((a, b, c, d)),
                    _ => None,
                }
            },
            _ => None,
        }
    }
}

} // verus!
