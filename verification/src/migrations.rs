//! Which schema migrations a database needs: the versions after the one it
//! records, up to the newest, in order.
use vstd::prelude::*;

verus! {

/// The newest schema version.
pub const LATEST_SCHEMA_VERSION: i32 = 10;

/// The first version to migrate to from `current`.
pub open spec fn first_pending(current: i32) -> int {
    if current < 0 { 1 } else { current + 1 }
}

/// The versions a database at `current` migrates through, in order: every
/// version from 1 to the newest that is above `current`.
pub fn pending_migrations(current: i32) -> (r: Vec<i32>)
    ensures
        r.len() == (if first_pending(current) > LATEST_SCHEMA_VERSION {
            0
        } else {
            LATEST_SCHEMA_VERSION - first_pending(current) + 1
        }),
        forall|i: int| 0 <= i < r.len() ==> r[i] == first_pending(current) + i,
        forall|v: i32|
            1 <= v <= LATEST_SCHEMA_VERSION ==> (r@.contains(v) <==> current < v),
{
    let mut r: Vec<i32> = Vec::new();
    let mut v: i32 = 1;
    while v <= LATEST_SCHEMA_VERSION
        invariant
            1 <= v <= LATEST_SCHEMA_VERSION + 1,
            r.len() == (if first_pending(current) >= v {
                0
            } else {
                v - first_pending(current)
            }),
            forall|i: int| 0 <= i < r.len() ==> r[i] == first_pending(current) + i,
        decreases LATEST_SCHEMA_VERSION + 1 - v,
    {
        if current < v {
            r.push(v);
        }
        v = v + 1;
    }
    proof {
        assert forall|w: i32| 1 <= w <= LATEST_SCHEMA_VERSION implies (r@.contains(w) <==> current < w) by {
            if current < w {
                let i = w - first_pending(current);
                assert(r@[i] == w);
            }
        }
    }
    r
}

} // verus!
