//! Check of the device extensions a physical device offers against those the
//! renderer needs.

use vstd::prelude::*;

verus! {

fn bytes_equal(a: &Vec<u8>, b: &Vec<u8>) -> (r: bool)
    ensures
        r == (a@ == b@),
{
    if a.len() != b.len() {
        return false;
    }
    let n = a.len();
    for i in 0..n
        invariant
            n == a@.len(),
            n == b@.len(),
            forall|k: int| 0 <= k < i ==> a@[k] == b@[k],
    {
        if a[i] != b[i] {
            return false;
        }
    }
    assert(a@ =~= b@);
    true
}

/// `name` is one of `names`.
pub open spec fn is_available(names: Seq<Vec<u8>>, name: Seq<u8>) -> bool {
    exists|k: int| 0 <= k < names.len() && (#[trigger] names[k])@ == name
}

fn contains_name(names: &Vec<Vec<u8>>, name: &Vec<u8>) -> (r: bool)
    ensures
        r == is_available(names@, name@),
{
    let n = names.len();
    for i in 0..n
        invariant
            n == names@.len(),
            forall|k: int| 0 <= k < i ==> (#[trigger] names@[k])@ != name@,
    {
        if bytes_equal(&names[i], name) {
            return true;
        }
    }
    false
}

/// Every required extension name is among the available ones (names compared
/// byte for byte, without their terminating zero).
pub fn has_required_extensions(available: &Vec<Vec<u8>>, required: &Vec<Vec<u8>>) -> (r: bool)
    ensures
        r == forall|i: int|
            0 <= i < required@.len() ==> #[trigger] is_available(available@, required@[i]@),
{
    let n = required.len();
    for i in 0..n
        invariant
            n == required@.len(),
            forall|j: int| 0 <= j < i ==> #[trigger] is_available(available@, required@[j]@),
    {
        if !contains_name(available, &required[i]) {
            assert(!is_available(available@, required@[i as int]@));
            return false;
        }
    }
    true
}

} // verus!
