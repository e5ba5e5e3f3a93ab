//! Fanning a checksum check out over the identifiers that an operation holds.
use vstd::prelude::*;

use crate::ids::EntityId;

verus! {

/// Runs `validate` on each identifier of `ids` in order, and stops at the
/// first failure, which it returns.
pub fn validate_each<E, F: Fn(EntityId) -> Result<(), E>>(ids: &Vec<EntityId>, validate: &F) -> (r:
    Result<(), E>)
    requires
        forall|id: EntityId| validate.requires((id,)),
    ensures
        r is Ok ==> forall|i: int| 0 <= i < ids@.len() ==> validate.ensures((ids@[i],), Ok(())),
        r matches Err(e) ==> exists|i: int|
            0 <= i < ids@.len() && validate.ensures((ids@[i],), Err(e)) && forall|j: int|
                0 <= j < i ==> validate.ensures((ids@[j],), Ok(())),
{
    let mut i: usize = 0;
    while i < ids.len()
        invariant
            i <= ids@.len(),
            forall|id: EntityId| validate.requires((id,)),
            forall|j: int| 0 <= j < i ==> validate.ensures((ids@[j],), Ok(())),
        decreases ids@.len() - i,
    {
        let result = validate(ids[i]);
        match result {
            Ok(unit) => {
                assert(result == Ok::<(), E>(()));
            },
            Err(e) => {
                assert(validate.ensures((ids@[i as int],), Err(e)));
                return Err(e);
            },
        }
        i = i + 1;
    }
    Ok(())
}

/// The identifiers that are set among `ids`, in order.
pub open spec fn set_ids(ids: Seq<Option<EntityId>>) -> Seq<EntityId>
    decreases ids.len(),
{
    if ids.len() == 0 {
        Seq::empty()
    } else {
        let rest = set_ids(ids.drop_last());
        match ids.last() {
            Some(id) => rest.push(id),
            None => rest,
        }
    }
}

/// The identifiers that are set among `ids`, in order.
pub fn collect_set_ids(ids: &Vec<Option<EntityId>>) -> (r: Vec<EntityId>)
    ensures
        r@ == set_ids(ids@),
{
    let mut out: Vec<EntityId> = Vec::new();
    let mut i: usize = 0;
    while i < ids.len()
        invariant
            i <= ids@.len(),
            out@ == set_ids(ids@.subrange(0, i as int)),
        decreases ids@.len() - i,
    {
        assert(ids@.subrange(0, i + 1).drop_last() =~= ids@.subrange(0, i as int));
        if let Some(id) = ids[i] {
            out.push(id);
        }
        i = i + 1;
    }
    assert(ids@.subrange(0, ids@.len() as int) =~= ids@);
    out
}

} // verus!
