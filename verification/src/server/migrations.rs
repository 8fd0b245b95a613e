//! Schema migrations: which to run on a database at a given schema version, and the
//! version recorded afterwards.
use vstd::prelude::*;

verus! {

/// A schema migration, known by the version it brings the schema to.
pub trait Migration {
    fn version(&self) -> i32;
}

/// The tables of disks, roots, events, assets, tags, subclips, proxies and rankings.
pub struct V0001CreateTables;

/// The tables of cameras and camera instances.
pub struct V0002Cameras;

impl Migration for V0001CreateTables {
    fn version(&self) -> (v: i32)
        ensures
            v == 1,
    {
        1
    }
}

impl Migration for V0002Cameras {
    fn version(&self) -> (v: i32)
        ensures
            v == 2,
    {
        2
    }
}

/// The versions of the migrations that the database runs, in order. Only the first is
/// registered.
pub fn registered_versions() -> (v: Vec<i32>)
    ensures
        v@ == seq![1i32],
{
    let m = V0001CreateTables;
    let mut v: Vec<i32> = Vec::new();
    v.push(m.version());
    assert(v@ =~= seq![1i32]);
    v
}

/// The greatest of the versions, or 0 when there are none.
pub open spec fn max_version(v: Seq<i32>) -> int
    decreases v.len(),
{
    if v.len() == 0 {
        0
    } else {
        let m = max_version(v.drop_last());
        if v.last() > m {
            v.last() as int
        } else {
            m
        }
    }
}

/// The positions of the migrations to run on a schema at version `from`: those whose
/// version is above `from`, in the order given.
pub open spec fn pending(from: int, v: Seq<i32>) -> Seq<int>
    decreases v.len(),
{
    if v.len() == 0 {
        Seq::empty()
    } else {
        let p = pending(from, v.drop_last());
        if from < v.last() {
            p.push(v.len() - 1)
        } else {
            p
        }
    }
}

/// What a migration run does on a schema at version `from`: the positions (in `versions`)
/// of the migrations to run, in order, and the version recorded afterwards (the greatest
/// registered version, or 0).
pub fn migration_plan(from: i32, versions: &Vec<i32>) -> (r: (Vec<usize>, i32))
    ensures
        r.0@.len() == pending(from as int, versions@).len(),
        forall|k: int| 0 <= k < r.0.len() ==> #[trigger] r.0@[k] as int == pending(from as int, versions@)[k],
        r.1 as int == max_version(versions@),
{
    let mut run: Vec<usize> = Vec::new();
    let mut top: i32 = 0;
    let mut i: usize = 0;
    while i < versions.len()
        invariant
            i <= versions.len(),
            top as int == max_version(versions@.take(i as int)),
            run@.len() == pending(from as int, versions@.take(i as int)).len(),
            forall|k: int|
                0 <= k < run.len() ==> #[trigger] run@[k] as int == pending(
                    from as int,
                    versions@.take(i as int),
                )[k],
        decreases versions.len() - i,
    {
        assert(versions@.take(i + 1).drop_last() =~= versions@.take(i as int));
        if from < versions[i] {
            run.push(i);
        }
        if versions[i] > top {
            top = versions[i];
        }
        i = i + 1;
    }
    assert(versions@.take(versions.len() as int) =~= versions@);
    (run, top)
}

proof fn lemma_max_bounds(v: Seq<i32>)
    ensures
        forall|i: int| 0 <= i < v.len() ==> v[i] <= max_version(v),
    decreases v.len(),
{
    if v.len() > 0 {
        lemma_max_bounds(v.drop_last());
        assert forall|i: int| 0 <= i < v.len() implies v[i] <= max_version(v) by {
            if i < v.len() - 1 {
                assert(v.drop_last()[i] == v[i]);
            }
        }
    }
}

proof fn lemma_pending_empty(from: int, v: Seq<i32>)
    requires
        forall|i: int| 0 <= i < v.len() ==> v[i] <= from,
    ensures
        pending(from, v).len() == 0,
    decreases v.len(),
{
    if v.len() > 0 {
        lemma_pending_empty(from, v.drop_last());
    }
}

/// Migrating twice runs nothing the second time: on a schema at the version that a run
/// records, no migration is pending.
pub proof fn law_migration_idempotent(versions: Seq<i32>)
    ensures
        pending(max_version(versions), versions).len() == 0,
{
    lemma_max_bounds(versions);
    lemma_pending_empty(max_version(versions), versions);
}

} // verus!
