//! Choice of the physical device the renderer runs on.

use vstd::prelude::*;

verus! {

/// Goes through the devices in enumeration order, running `check` on each,
/// and returns the first device that passes, with what `check` found of it.
/// `check` is run on no device after that one.
pub fn first_suitable<T, F: Fn(usize) -> Option<T>>(device_count: usize, check: F) -> (r: Option<
    (usize, T),
>)
    requires
        forall|i: usize| i < device_count ==> call_requires(check, (i,)),
    ensures
        r matches Some((i, found)) ==> {
            &&& i < device_count
            &&& call_ensures(check, (i,), Some(found))
            &&& forall|j: usize| j < i ==> call_ensures(check, (j,), None::<T>)
        },
        r is None ==> forall|j: usize| j < device_count ==> call_ensures(check, (j,), None::<T>),
{
    let mut i: usize = 0;
    while i < device_count
        invariant
            i <= device_count,
            forall|k: usize| k < device_count ==> call_requires(check, (k,)),
            forall|j: usize| j < i ==> call_ensures(check, (j,), None::<T>),
        decreases device_count - i,
    {
        let result = check(i);
        match result {
            Some(found) => {
                return Some((i, found));
            },
            None => {},
        }
        i = i + 1;
    }
    None
}

} // verus!
