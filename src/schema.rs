//! Reading typed records out of JSON documents.
//!
//! Each type that an event carries says, over the document model, which
//! documents it accepts and which value it reads from each. The rules are
//! those of the event feed's schema: a required member must be present with a
//! value of its type; an optional member may be absent or `null`; members that
//! a record does not name are ignored.
use vstd::prelude::*;

use crate::json::{copy_json, find_member, json_document, member, parse_json, Json, JsonValue};

verus! {

/// A type that can be read from a JSON value.
pub trait FromJson: Sized {
    /// Whether `j` holds a value of this type.
    spec fn accepts(j: Json) -> bool;

    /// Whether `v` is the value that `j` holds.
    spec fn decodes(j: Json, v: Self) -> bool;

    fn from_json(j: &JsonValue) -> (r: Option<Self>)
        ensures
            r is Some <==> Self::accepts(j@),
            r matches Some(v) ==> Self::decodes(j@, v),
    ;
}

/// The object holds member `k`, with a value of type `T`.
pub open spec fn required<T: FromJson>(j: Json, k: Seq<char>) -> bool {
    member(j, k) matches Some(m) && T::accepts(m)
}

/// Member `k` of the object holds `v`.
pub open spec fn required_is<T: FromJson>(j: Json, k: Seq<char>, v: T) -> bool {
    member(j, k) matches Some(m) && T::decodes(m, v)
}

/// Member `k` of the object is absent, `null`, or a value of type `T`.
pub open spec fn optional<T: FromJson>(j: Json, k: Seq<char>) -> bool {
    match member(j, k) {
        None => true,
        Some(Json::Null) => true,
        Some(m) => T::accepts(m),
    }
}

/// `v` is what the optional member `k` of the object holds.
pub open spec fn optional_is<T: FromJson>(j: Json, k: Seq<char>, v: Option<T>) -> bool {
    match member(j, k) {
        None => v is None,
        Some(Json::Null) => v is None,
        Some(m) => v matches Some(x) && T::decodes(m, x),
    }
}

/// Reads the required member `key` of an object.
pub fn read_required<T: FromJson>(j: &JsonValue, key: &str) -> (r: Option<T>)
    ensures
        r is Some <==> required::<T>(j@, key@),
        r matches Some(v) ==> required_is::<T>(j@, key@, v),
{
    match j {
        JsonValue::Object(entries) => match find_member(entries, key) {
            Some(m) => T::from_json(m),
            None => None,
        },
        _ => None,
    }
}

/// Reads the optional member `key` of an object: `Some(None)` where it is
/// absent or `null`, `None` where it holds a value of another type.
pub fn read_optional<T: FromJson>(j: &JsonValue, key: &str) -> (r: Option<Option<T>>)
    ensures
        r is Some <==> optional::<T>(j@, key@),
        r matches Some(v) ==> optional_is::<T>(j@, key@, v),
{
    match j {
        JsonValue::Object(entries) => match find_member(entries, key) {
            Some(m) => match m {
                JsonValue::Null => Some(None),
                _ => match T::from_json(m) {
                    Some(v) => Some(Some(v)),
                    None => None,
                },
            },
            None => Some(None),
        },
        _ => Some(None),
    }
}

/// Reads a value of type `T` from JSON text (a response body of the REST
/// interface): `None` where the text is not JSON or does not hold a `T`.
pub fn decode_document<T: FromJson>(text: &str) -> (r: Option<T>)
    ensures
        r is Some <==> (json_document(text@) matches Some(j) && T::accepts(j)),
        r matches Some(v) ==> T::decodes(json_document(text@)->0, v),
{
    match parse_json(text) {
        Some(j) => T::from_json(&j),
        None => None,
    }
}

/// Whether a value is an object.
pub fn is_object(j: &JsonValue) -> (r: bool)
    ensures
        r == (j@ is Object),
{
    match j {
        JsonValue::Object(_) => true,
        _ => false,
    }
}

impl FromJson for String {
    open spec fn accepts(j: Json) -> bool {
        j is Str
    }

    open spec fn decodes(j: Json, v: String) -> bool {
        j == Json::Str(v@)
    }

    fn from_json(j: &JsonValue) -> (r: Option<String>) {
        match j {
            JsonValue::Str(s) => Some(s.clone()),
            _ => None,
        }
    }
}

impl FromJson for bool {
    open spec fn accepts(j: Json) -> bool {
        j is Bool
    }

    open spec fn decodes(j: Json, v: bool) -> bool {
        j == Json::Bool(v)
    }

    fn from_json(j: &JsonValue) -> (r: Option<bool>) {
        match j {
            JsonValue::Bool(b) => Some(*b),
            _ => None,
        }
    }
}

/// The text is one or more decimal digits.
pub open spec fn is_digits(t: Seq<char>) -> bool {
    t.len() > 0 && forall|i: int| 0 <= i < t.len() ==> '0' <= #[trigger] t[i] <= '9'
}

/// The value of a text of decimal digits.
pub open spec fn digits_value(t: Seq<char>) -> nat
    decreases t.len(),
{
    if t.len() == 0 {
        0
    } else {
        digits_value(t.drop_last()) * 10 + ((t.last() as u32 - '0' as u32) as nat)
    }
}

proof fn lemma_digits_grow(t: Seq<char>, i: int, j: int)
    requires
        0 <= i <= j <= t.len(),
        forall|k: int| 0 <= k < t.len() ==> '0' <= #[trigger] t[k] <= '9',
    ensures
        digits_value(t.subrange(0, i)) <= digits_value(t.subrange(0, j)),
    decreases j - i,
{
    if i < j {
        lemma_digits_grow(t, i, j - 1);
        assert(t.subrange(0, j).drop_last() =~= t.subrange(0, j - 1));
    }
}

impl FromJson for u32 {
    /// A non-negative integer that fits in 32 bits.
    open spec fn accepts(j: Json) -> bool {
        j matches Json::Number(t) && is_digits(t) && digits_value(t) <= u32::MAX
    }

    open spec fn decodes(j: Json, v: u32) -> bool {
        j matches Json::Number(t) && is_digits(t) && digits_value(t) == v
    }

    fn from_json(j: &JsonValue) -> (r: Option<u32>) {
        match j {
            JsonValue::Number(t) => {
                let s = t.as_str();
                let n = s.unicode_len();
                if n == 0 {
                    return None;
                }
                let mut acc: u32 = 0;
                let mut i: usize = 0;
                while i < n
                    invariant
                        j@ == Json::Number(t@),
                        n == s@.len(),
                        s@ == t@,
                        i <= n,
                        forall|k: int| 0 <= k < i ==> '0' <= #[trigger] s@[k] <= '9',
                        acc == digits_value(s@.subrange(0, i as int)),
                    decreases n - i,
                {
                    let c = s.get_char(i);
                    if !('0' <= c && c <= '9') {
                        assert(!('0' <= t@[i as int] <= '9'));
                        return None;
                    }
                    let d = (c as u32) - ('0' as u32);
                    assert(s@.subrange(0, i + 1).drop_last() =~= s@.subrange(0, i as int));
                    if acc > 429496729 || (acc == 429496729 && d > 5) {
                        proof {
                            let p = s@.subrange(0, i + 1);
                            assert(p.last() == c);
                            assert(digits_value(p) == acc * 10 + d);
                            assert(acc * 10 + d > u32::MAX) by (nonlinear_arith)
                                requires
                                    acc > 429496729 || (acc == 429496729 && d > 5),
                            ;
                            if is_digits(s@) {
                                lemma_digits_grow(s@, i + 1, n as int);
                                assert(s@.subrange(0, n as int) =~= s@);
                            }
                        }
                        return None;
                    }
                    assert(s@.subrange(0, i + 1).last() == c);
                    assert(acc * 10 + d <= u32::MAX) by (nonlinear_arith)
                        requires
                            acc <= 429496729,
                            acc < 429496729 || d <= 5,
                            d <= 9,
                    ;
                    acc = acc * 10 + d;
                    i = i + 1;
                }
                assert(s@.subrange(0, n as int) =~= s@);
                Some(acc)
            },
            _ => None,
        }
    }
}

impl<T: FromJson> FromJson for Vec<T> {
    open spec fn accepts(j: Json) -> bool {
        j matches Json::Array(a) && forall|i: int| 0 <= i < a.len() ==> T::accepts(#[trigger] a[i])
    }

    open spec fn decodes(j: Json, v: Vec<T>) -> bool {
        j matches Json::Array(a) && a.len() == v.len() && forall|i: int|
            0 <= i < a.len() ==> T::decodes(#[trigger] a[i], v[i])
    }

    fn from_json(j: &JsonValue) -> (r: Option<Vec<T>>) {
        match j {
            JsonValue::Array(a) => {
                let ghost ja = j@->Array_0;
                assert(ja.len() == a.len());
                let mut out: Vec<T> = Vec::new();
                let mut i: usize = 0;
                while i < a.len()
                    invariant
                        ja == j@->Array_0,
                        ja.len() == a.len(),
                        *j == JsonValue::Array(*a),
                        i <= a.len(),
                        out.len() == i,
                        forall|k: int| 0 <= k < i ==> T::accepts(#[trigger] ja[k]),
                        forall|k: int| 0 <= k < i ==> T::decodes(#[trigger] ja[k], out[k]),
                    decreases a.len() - i,
                {
                    assert(ja[i as int] == a[i as int]@);
                    match T::from_json(&a[i]) {
                        Some(x) => out.push(x),
                        None => return None,
                    }
                    i = i + 1;
                }
                Some(out)
            },
            _ => None,
        }
    }
}

/// A JSON number, kept as its decimal text.
#[derive(Clone, Debug, PartialEq)]
pub struct JsonNumber {
    pub text: String,
}

impl FromJson for JsonNumber {
    /// Any number.
    open spec fn accepts(j: Json) -> bool {
        j is Number
    }

    open spec fn decodes(j: Json, v: JsonNumber) -> bool {
        j == Json::Number(v.text@)
    }

    fn from_json(j: &JsonValue) -> (r: Option<JsonNumber>) {
        match j {
            JsonValue::Number(t) => Some(JsonNumber { text: t.clone() }),
            _ => None,
        }
    }
}

impl FromJson for JsonValue {
    /// Any value.
    open spec fn accepts(j: Json) -> bool {
        true
    }

    open spec fn decodes(j: Json, v: JsonValue) -> bool {
        v@ == j
    }

    fn from_json(j: &JsonValue) -> (r: Option<JsonValue>) {
        Some(copy_json(j))
    }
}

} // verus!
