//! Helpers that take borrowed text into the library's own keeping.

use crate::encode::json_list;
use vstd::prelude::*;

verus! {

/// Copies each string of a list: the result holds the same strings in the
/// same order, and so has the same encoding.
pub(crate) fn owned_string_vector(items: Vec<&str>) -> (owned: Vec<String>)
    ensures
        owned@.len() == items@.len(),
        forall|i: int| 0 <= i < items@.len() ==> (#[trigger] owned@[i])@ == items@[i]@,
        json_list(owned@) == json_list(items@),
{
    let mut owned: Vec<String> = Vec::new();
    let mut at: usize = 0;
    while at < items.len()
        invariant
            at <= items.len(),
            owned@.len() == at,
            forall|i: int| 0 <= i < at ==> (#[trigger] owned@[i])@ == items@[i]@,
        decreases items.len() - at,
    {
        owned.push(items[at].to_owned());
        at = at + 1;
    }
    assert(json_list(owned@) =~= json_list(items@));
    owned
}

} // verus!
