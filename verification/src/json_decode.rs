//! Typed reading of JSON texts: each type states, as a spec function, which
//! texts it accepts and what it reads from them.
use vstd::prelude::*;
use crate::json::{
    JsonShape, JsonShapeView, json_custom_error, json_shape, json_shape_of, member_of, find_member, serde_decode_bool,
    serde_decode_i32, serde_decode_i64, serde_decode_sequence, serde_decode_string, serde_decode_u32,
};

verus! {

/// A type read from JSON text.
pub trait FromJson: DeepView + Sized {
    /// What the type reads from `text`, or `None` where it refuses the text.
    spec fn json_model(text: Seq<char>) -> Option<<Self as DeepView>::V>;

    fn from_json(text: &str) -> (r: Option<Self>)
        ensures
            r is Some <==> Self::json_model(text@) is Some,
            r matches Some(v) ==> Self::json_model(text@) == Some(v.deep_view()),
    ;

    /// The error that serde_json gives where `text` does not read as this
    /// type. A record of the library has no serde derive to ask, and gives an
    /// error of its own that says the value does not have the expected shape.
    fn json_error(text: &str) -> serde_json::Error {
        json_custom_error("the value does not have the expected shape")
    }
}

/// serde_json's error from one of the decoders above, or the library's own
/// where the text does read.
fn decode_error(r: Result<(), serde_json::Error>) -> serde_json::Error {
    match r {
        Err(e) => e,
        Ok(()) => json_custom_error("the value does not have the expected shape"),
    }
}

/// The members of the object that `text` holds.
pub open spec fn object_of(text: Seq<char>) -> Option<Seq<(Seq<char>, Seq<char>)>> {
    match json_shape_of(text) {
        Some(JsonShapeView::Object(members)) => Some(members),
        _ => None,
    }
}

/// The views of an object's members.
pub open spec fn member_views(members: Seq<(String, String)>) -> Seq<(Seq<char>, Seq<char>)> {
    members.map_values(|m: (String, String)| (m.0@, m.1@))
}

/// The members of the object that `text` holds.
pub fn object_members(text: &str) -> (r: Option<Vec<(String, String)>>)
    ensures
        r is Some <==> object_of(text@) is Some,
        r matches Some(m) ==> object_of(text@) == Some(member_views(m@)),
        r matches Some(m) ==> crate::json::distinct_keys(member_views(m@)),
{
    match json_shape(text) {
        Some(JsonShape::Object(members)) => Some(members),
        _ => None,
    }
}

/// A member that must be present and must read as `T`.
pub open spec fn required_field<T: FromJson>(members: Seq<(Seq<char>, Seq<char>)>, key: Seq<char>) -> Option<<T as DeepView>::V> {
    match member_of(members, key) {
        Some(t) => T::json_model(t),
        None => None,
    }
}

/// A member that reads as `T` where present and is `default` where absent.
pub open spec fn default_field<T: FromJson>(
    members: Seq<(Seq<char>, Seq<char>)>,
    key: Seq<char>,
    default: <T as DeepView>::V,
) -> Option<<T as DeepView>::V> {
    match member_of(members, key) {
        Some(t) => T::json_model(t),
        None => Some(default),
    }
}

/// Reads member `key`, which must be present.
pub fn required<T: FromJson>(members: &Vec<(String, String)>, key: &str) -> (r: Option<T>)
    ensures
        r is Some <==> required_field::<T>(member_views(members@), key@) is Some,
        r matches Some(v) ==> required_field::<T>(member_views(members@), key@) == Some(v.deep_view()),
{
    match find_member(members, key) {
        Some(t) => T::from_json(t.as_str()),
        None => None,
    }
}

/// Reads member `key`, or gives `default` where it is absent.
pub fn or_default<T: FromJson>(members: &Vec<(String, String)>, key: &str, default: T) -> (r: Option<T>)
    ensures
        r is Some <==> default_field::<T>(member_views(members@), key@, default.deep_view()) is Some,
        r matches Some(v) ==> default_field::<T>(member_views(members@), key@, default.deep_view())
            == Some(v.deep_view()),
{
    match find_member(members, key) {
        Some(t) => T::from_json(t.as_str()),
        None => Some(default),
    }
}

impl FromJson for String {
    open spec fn json_model(text: Seq<char>) -> Option<Seq<char>> {
        match json_shape_of(text) {
            Some(JsonShapeView::Str(s)) => Some(s),
            _ => None,
        }
    }

    fn from_json(text: &str) -> (r: Option<String>) {
        match json_shape(text) {
            Some(JsonShape::Str(s)) => Some(s),
            _ => None,
        }
    }

    fn json_error(text: &str) -> serde_json::Error {
        decode_error(serde_decode_string(text))
    }
}

impl FromJson for bool {
    open spec fn json_model(text: Seq<char>) -> Option<bool> {
        match json_shape_of(text) {
            Some(JsonShapeView::Bool(b)) => Some(b),
            _ => None,
        }
    }

    fn from_json(text: &str) -> (r: Option<bool>) {
        match json_shape(text) {
            Some(JsonShape::Bool(b)) => Some(b),
            _ => None,
        }
    }

    fn json_error(text: &str) -> serde_json::Error {
        decode_error(serde_decode_bool(text))
    }
}

impl FromJson for i64 {
    /// Integers that fit; fractions and exponents are refused.
    open spec fn json_model(text: Seq<char>) -> Option<i64> {
        match json_shape_of(text) {
            Some(JsonShapeView::Number { signed, .. }) => signed,
            _ => None,
        }
    }

    fn from_json(text: &str) -> (r: Option<i64>) {
        match json_shape(text) {
            Some(JsonShape::Number { signed, .. }) => signed,
            _ => None,
        }
    }

    fn json_error(text: &str) -> serde_json::Error {
        decode_error(serde_decode_i64(text))
    }
}

impl FromJson for u32 {
    /// Non-negative integers that fit; fractions and exponents are refused.
    open spec fn json_model(text: Seq<char>) -> Option<u32> {
        match json_shape_of(text) {
            Some(JsonShapeView::Number { unsigned: Some(v), .. }) => if v <= u32::MAX {
                Some(v as u32)
            } else {
                None
            },
            _ => None,
        }
    }

    fn from_json(text: &str) -> (r: Option<u32>) {
        match json_shape(text) {
            Some(JsonShape::Number { unsigned: Some(v), .. }) => if v <= u32::MAX as u64 {
                Some(v as u32)
            } else {
                None
            },
            _ => None,
        }
    }

    fn json_error(text: &str) -> serde_json::Error {
        decode_error(serde_decode_u32(text))
    }
}

impl FromJson for i32 {
    open spec fn json_model(text: Seq<char>) -> Option<i32> {
        match json_shape_of(text) {
            Some(JsonShapeView::Number { signed: Some(v), .. }) => if i32::MIN <= v <= i32::MAX {
                Some(v as i32)
            } else {
                None
            },
            _ => None,
        }
    }

    fn from_json(text: &str) -> (r: Option<i32>) {
        match json_shape(text) {
            Some(JsonShape::Number { signed: Some(v), .. }) => if i32::MIN as i64 <= v && v
                <= i32::MAX as i64 {
                Some(v as i32)
            } else {
                None
            },
            _ => None,
        }
    }

    fn json_error(text: &str) -> serde_json::Error {
        decode_error(serde_decode_i32(text))
    }
}

impl<T: FromJson> FromJson for Option<T> {
    /// `null` reads as `None`; any other text as `T`.
    open spec fn json_model(text: Seq<char>) -> Option<Option<<T as DeepView>::V>> {
        match json_shape_of(text) {
            Some(JsonShapeView::Null) => Some(None),
            _ => match T::json_model(text) {
                Some(v) => Some(Some(v)),
                None => None,
            },
        }
    }

    fn from_json(text: &str) -> (r: Option<Option<T>>) {
        match json_shape(text) {
            Some(JsonShape::Null) => Some(None),
            _ => match T::from_json(text) {
                Some(v) => Some(Some(v)),
                None => None,
            },
        }
    }

    /// `null` reads; any other text fails as `T` fails.
    fn json_error(text: &str) -> serde_json::Error {
        T::json_error(text)
    }
}

/// The elements of an array read as `T`, where every one of them reads.
pub open spec fn items_model<T: FromJson>(items: Seq<Seq<char>>) -> Option<Seq<<T as DeepView>::V>>
    decreases items.len(),
{
    if items.len() == 0 {
        Some(Seq::empty())
    } else {
        match (items_model::<T>(items.drop_last()), T::json_model(items.last())) {
            (Some(init), Some(last)) => Some(init.push(last)),
            _ => None,
        }
    }
}

impl<T: FromJson> FromJson for Vec<T> {
    open spec fn json_model(text: Seq<char>) -> Option<Seq<<T as DeepView>::V>> {
        match json_shape_of(text) {
            Some(JsonShapeView::Array(items)) => items_model::<T>(items),
            _ => None,
        }
    }

    fn from_json(text: &str) -> (r: Option<Vec<T>>) {
        let items = match json_shape(text) {
            Some(JsonShape::Array(items)) => items,
            _ => return None,
        };
        let ghost views = items@.map_values(|t: String| t@);
        assert(json_shape_of(text@) == Some(JsonShapeView::Array(views)));
        let mut out: Vec<T> = Vec::new();
        let mut i: usize = 0;
        while i < items.len()
            invariant
                views == items@.map_values(|t: String| t@),
                json_shape_of(text@) == Some(JsonShapeView::Array(views)),
                0 <= i <= items@.len(),
                items_model::<T>(views.take(i as int)) == Some(out.deep_view()),
            decreases items@.len() - i,
        {
            assert(views.take(i + 1).drop_last() =~= views.take(i as int));
            assert(views.take(i + 1).last() == items@[i as int]@);
            match T::from_json(items[i].as_str()) {
                Some(v) => {
                    let ghost before = out.deep_view();
                    out.push(v);
                    assert(out.deep_view() =~= before.push(v.deep_view()));
                },
                None => {
                    proof {
                        lemma_items_model_prefix::<T>(views, i + 1);
                        assert(json_shape_of(text@) == Some(JsonShapeView::Array(views)));
                        assert(Self::json_model(text@) == items_model::<T>(views));
                    }
                    return None;
                },
            }
            i += 1;
        }
        assert(views.take(i as int) =~= views);
        Some(out)
    }

    /// A text that is not an array fails as serde_json's sequence does; an
    /// array fails with the error of its first element that does not read.
    fn json_error(text: &str) -> serde_json::Error {
        let items = match json_shape(text) {
            Some(JsonShape::Array(items)) => items,
            _ => return decode_error(serde_decode_sequence(text)),
        };
        let mut i: usize = 0;
        while i < items.len()
            decreases items@.len() - i,
        {
            if T::from_json(items[i].as_str()).is_none() {
                return T::json_error(items[i].as_str());
            }
            i += 1;
        }
        json_custom_error("the value does not have the expected shape")
    }
}

/// Where a prefix of the elements does not read, the whole array does not.
pub proof fn lemma_items_model_prefix<T: FromJson>(items: Seq<Seq<char>>, n: int)
    requires
        0 <= n <= items.len(),
        items_model::<T>(items.take(n)) is None,
    ensures
        items_model::<T>(items) is None,
    decreases items.len() - n,
{
    if n < items.len() {
        assert(items.take(n + 1).drop_last() =~= items.take(n));
        lemma_items_model_prefix::<T>(items, n + 1);
    } else {
        assert(items.take(n) =~= items);
    }
}

} // verus!
