//! What holds of every value that is read out of a document.
use crate::shared::decode;
use crate::shared::decode::FromJson;
use crate::shared::documents;
use crate::shared::json;
use serde_json::Value;
use vstd::prelude::*;

verus! {

/// The items of an array are read where each can be, and then one by one, in their order.
pub proof fn law_items_are_read_one_by_one<T: FromJson>(items: Seq<json::Json>)
    ensures
        ({
            let read = Vec::<T>::from_json(json::Json::Array(items));
            &&& read is Some <==> forall|i: int|
                0 <= i < items.len() ==> T::from_json(#[trigger] items[i]) is Some
            &&& read matches Some(values) ==> {
                &&& values.len() == items.len()
                &&& forall|i: int|
                    0 <= i < items.len() ==> T::from_json(#[trigger] items[i]) == Some(values[i])
            }
        }),
    decreases items.len(),
{
    if items.len() > 0 {
        let before = items.drop_last();
        law_items_are_read_one_by_one::<T>(before);
        assert forall|i: int| 0 <= i < before.len() implies before[i] == #[trigger] items[i] by {}
        let last = items.len() - 1;
        assert(items.last() == items[last]);
        let read = Vec::<T>::from_json(json::Json::Array(items));
        if read is Some {
            assert forall|i: int| 0 <= i < items.len() implies T::from_json(#[trigger] items[i])
                == Some(read->Some_0[i]) by {
                if i < last {
                    assert(T::from_json(before[i]) is Some);
                }
            }
        } else if forall|i: int| 0 <= i < items.len() ==> T::from_json(#[trigger] items[i]) is Some {
            assert forall|i: int| 0 <= i < before.len() implies T::from_json(
                #[trigger] before[i],
            ) is Some by {
                assert(T::from_json(items[i]) is Some);
            }
            assert(T::from_json(items[last]) is Some);
        }
    }
}

/// What is no array is no list.
pub proof fn law_lists_are_arrays<T: FromJson>(doc: json::Json)
    requires
        !(doc is Array),
    ensures
        Vec::<T>::from_json(doc) is None,
{
}

/// A text, an integer and a truth value are read from a document that is one, and from no other.
pub proof fn law_plain_values_are_read_as_they_are(doc: json::Json)
    ensures
        String::from_json(doc) == (if doc is Str {
            Some(doc->Str_0)
        } else {
            None
        }),
        i64::from_json(doc) == (if doc is Number {
            json::number_i64(doc->Number_0)
        } else {
            None
        }),
        bool::from_json(doc) == (if doc is Bool {
            Some(doc->Bool_0)
        } else {
            None
        }),
{
}

/// `null` stands for no value, and any other document for the value that it stands for by itself.
pub proof fn law_null_stands_for_no_value<T: FromJson>(doc: json::Json)
    ensures
        doc is Null ==> Option::<T>::from_json(doc) == Some(None::<<T as DeepView>::V>),
        !(doc is Null) ==> (Option::<T>::from_json(doc) is Some <==> T::from_json(doc) is Some),
        !(doc is Null) && T::from_json(doc) is Some ==> Option::<T>::from_json(doc) == Some(
            T::from_json(doc),
        ),
{
}

/// Reading a value gives what the document stands for, and an error where it stands for nothing.
pub proof fn law_reading_gives_what_is_stood_for<T: FromJson>(v: Value, r: Result<T, String>)
    requires
        call_ensures(T::from_value, (&v,), r),
    ensures
        r is Ok <==> T::from_json(json::value_json(v)) is Some,
        r matches Ok(value) ==> T::from_json(json::value_json(v)) == Some(value.deep_view()),
{
}

} // verus!
