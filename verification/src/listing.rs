use vstd::prelude::*;
use crate::value::{JsonView, Value};

verus! {

/// Every value of the list is a string.
pub open spec fn all_strings(values: Seq<Value>) -> bool {
    forall|i: int| 0 <= i < values.len() ==> (#[trigger] values[i])@ is Str
}

/// The texts of a list of string values, such as the identifiers that a
/// listing of objects gives.
pub fn string_ids(values: &Vec<Value>) -> (r: Vec<String>)
    requires
        all_strings(values@),
    ensures
        r@.len() == values@.len(),
        forall|i: int| 0 <= i < values@.len() ==> JsonView::Str(#[trigger] r@[i]@) == values@[i]@,
{
    let mut ids: Vec<String> = Vec::new();
    let mut i: usize = 0;
    while i < values.len()
        invariant
            i <= values@.len(),
            all_strings(values@),
            ids@.len() == i,
            forall|j: int| 0 <= j < i ==> JsonView::Str(#[trigger] ids@[j]@) == values@[j]@,
        decreases values@.len() - i,
    {
        match &values[i] {
            Value::String(s) => ids.push(s.clone()),
            _ => {
                proof {
                    assert(values@[i as int]@ is Str);
                    assert(false);
                }
            },
        }
        i = i + 1;
    }
    ids
}

} // verus!
