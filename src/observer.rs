//! The state observer: finds, among the named bodies of the world, the two whose relative
//! rotation is the pendulum's angle.
use vstd::prelude::*;

use crate::scene::BodyName;

verus! {

/// The position of the last entry of `names` equal to `name`, or -1.
pub open spec fn last_named(names: Seq<String>, name: Seq<char>) -> int
    decreases names.len(),
{
    if names.len() == 0 {
        -1
    } else if names.last()@ == name {
        names.len() - 1
    } else {
        last_named(names.drop_last(), name)
    }
}

pub open spec fn find_last_spec(names: Seq<String>, name: Seq<char>) -> Option<usize> {
    if last_named(names, name) >= 0 {
        Some(last_named(names, name) as usize)
    } else {
        None
    }
}

/// Where the third cube and the second cylinder stand among `names`, in that order; a name
/// met twice counts where it was last met. `None` when either is missing.
pub open spec fn pendulum_bodies_spec(names: Seq<String>) -> Option<(usize, usize)> {
    match (
        find_last_spec(names, BodyName::Cube3.spec_str()),
        find_last_spec(names, BodyName::Cylinder2.spec_str()),
    ) {
        (Some(cube), Some(cylinder)) => Some((cube, cylinder)),
        _ => None,
    }
}

proof fn lemma_last_named(names: Seq<String>, name: Seq<char>)
    ensures
        -1 <= last_named(names, name) < names.len(),
        last_named(names, name) >= 0 ==> names[last_named(names, name)]@ == name,
        last_named(names, name) < 0 ==> forall|i: int|
            0 <= i < names.len() ==> (#[trigger] names[i])@ != name,
    decreases names.len(),
{
    if names.len() > 0 && names.last()@ != name {
        lemma_last_named(names.drop_last(), name);
        if last_named(names, name) < 0 {
            assert forall|i: int| 0 <= i < names.len() implies (#[trigger] names[i])@ != name by {
                if i < names.len() - 1 {
                    assert(names[i] == names.drop_last()[i]);
                }
            }
        }
    }
}

/// The position of the last entry of `names` equal to `name`.
pub fn find_last(names: &Vec<String>, name: &str) -> (r: Option<usize>)
    ensures
        r == find_last_spec(names@, name@),
        r matches Some(i) ==> i < names@.len() && names@[i as int]@ == name@,
        r is None ==> forall|i: int| 0 <= i < names@.len() ==> (#[trigger] names@[i])@ != name@,
{
    proof {
        lemma_last_named(names@, name@);
    }
    let wanted = String::from_str(name);
    let mut i: usize = names.len();
    assert(names@.subrange(0, i as int) =~= names@);
    while i > 0 && !names[i - 1].eq(&wanted)
        invariant
            i <= names@.len(),
            wanted@ == name@,
            last_named(names@, name@) == last_named(names@.subrange(0, i as int), name@),
        decreases i,
    {
        assert(names@.subrange(0, i as int).drop_last() =~= names@.subrange(0, i - 1));
        i = i - 1;
    }
    if i == 0 {
        None
    } else {
        Some(i - 1)
    }
}

/// Finds the third cube and the second cylinder among the names of the world's bodies.
pub fn find_pendulum_bodies(names: &Vec<String>) -> (r: Option<(usize, usize)>)
    ensures
        r == pendulum_bodies_spec(names@),
{
    let cube = find_last(names, BodyName::Cube3.as_str());
    let cylinder = find_last(names, BodyName::Cylinder2.as_str());
    match (cube, cylinder) {
        (Some(c), Some(y)) => Some((c, y)),
        _ => None,
    }
}

/// The lookup reports "not found" exactly when one of the two names is absent.
pub proof fn lemma_not_found_iff_absent(names: Seq<String>)
    ensures
        pendulum_bodies_spec(names) is None <==> (forall|i: int|
            0 <= i < names.len() ==> (#[trigger] names[i])@ != BodyName::Cube3.spec_str()) || (
        forall|i: int|
            0 <= i < names.len() ==> (#[trigger] names[i])@ != BodyName::Cylinder2.spec_str()),
{
    lemma_last_named(names, BodyName::Cube3.spec_str());
    lemma_last_named(names, BodyName::Cylinder2.spec_str());
}

} // verus!
