use vstd::prelude::*;

verus! {

/// Removes the element at `index` from the list and returns it; the elements
/// behind it move one place to the front. An index past the end leaves the
/// list as it is and gives `None`.
pub fn consume_at<T>(list: &mut Vec<T>, index: usize) -> (taken: Option<T>)
    ensures
        index < old(list)@.len() ==> taken == Some(old(list)@[index as int])
            && final(list)@ == old(list)@.remove(index as int),
        index >= old(list)@.len() ==> taken.is_none() && final(list)@ == old(list)@,
{
    if index < list.len() {
        Some(list.remove(index))
    } else {
        None
    }
}

} // verus!
