//! One complete enumeration snapshot.
//!
//! A snapshot either yields one record per enumerated volume, in exactly
//! the enumeration order, or surfaces a single operating-system error and
//! no partial list.  Recoverable per-volume conditions are absorbed during
//! metadata resolution; anything that still fails here aborts the whole
//! snapshot.

use vstd::prelude::*;
use crate::describe::{describe_volume, record_matches, volume_error, volume_resolves};
use crate::describe::{lemma_mounted_on_nonempty, Filesystem, VolumeQueries};
use crate::error::OsError;
use crate::volumes::{fill_length_ok, list_volumes, views_of, volume_list, VolumeIdentifier};

verus! {

/// Every volume of the snapshot resolved to a record.
pub open spec fn all_resolve(qs: Seq<VolumeQueries>) -> bool {
    forall|i: int| 0 <= i < qs.len() ==> volume_resolves(#[trigger] qs[i])
}

/// The snapshot aborted with the error of its first unresolved volume.
pub open spec fn aborts_with(qs: Seq<VolumeQueries>, e: OsError) -> bool {
    exists|i: int|
        {
            &&& 0 <= i < qs.len()
            &&& !volume_resolves(#[trigger] qs[i])
            &&& e == volume_error(qs[i])
            &&& forall|j: int| 0 <= j < i ==> volume_resolves(#[trigger] qs[j])
        }
}

/// One record per raw identifier, in enumeration order, each related to
/// its identifier and its volume's answers by `record_matches`.
pub open spec fn snapshot_matches(
    recs: Seq<Filesystem>,
    raw_ids: Seq<Seq<u16>>,
    qs: Seq<VolumeQueries>,
) -> bool {
    &&& recs.len() == raw_ids.len()
    &&& forall|i: int| 0 <= i < recs.len() ==> record_matches(
        #[trigger] recs[i],
        raw_ids[i],
        qs[i],
    )
}

/// Every record of the list carries a non-empty mount-point name.
pub open spec fn mounted_on_nonempty(recs: Seq<Filesystem>) -> bool {
    forall|i: int| 0 <= i < recs.len() ==> #[trigger] recs[i].fs_mounted_on@.len() > 0
}

/// Builds the record list for an enumerated identifier list, one record
/// per identifier and in the same order, from the platform's answers about
/// each volume.  The first volume that does not resolve aborts the whole
/// assembly with its error; no partial list is returned.
#[verifier::loop_isolation(false)]
pub fn assemble_records(ids: &Vec<VolumeIdentifier>, queries: Vec<VolumeQueries>) -> (r: Result<
    Vec<Filesystem>,
    OsError,
>)
    requires
        ids@.len() == queries@.len(),
    ensures
        all_resolve(queries@) <==> r is Ok,
        r matches Ok(recs) ==> snapshot_matches(recs@, views_of(ids@), queries@),
        r matches Err(e) ==> aborts_with(queries@, e),
{
    let ghost qs = queries@;
    let mut rest = queries;
    let mut out: Vec<Filesystem> = Vec::new();
    let mut k: usize = 0;
    proof {
        assert(rest@ =~= qs.skip(0));
    }
    while k < ids.len()
        invariant
            ids@.len() == qs.len(),
            k <= qs.len(),
            rest@ == qs.skip(k as int),
            out@.len() == k,
            forall|i: int| 0 <= i < k ==> volume_resolves(#[trigger] qs[i]),
            forall|i: int| 0 <= i < k ==> record_matches(#[trigger] out@[i], ids@[i]@, qs[i]),
        decreases qs.len() - k,
    {
        let ghost prev_rest = rest@;
        let q = rest.remove(0);
        proof {
            assert(prev_rest[0] == qs[k as int]);
            assert(rest@ =~= qs.skip(k as int + 1));
        }
        match describe_volume(&ids[k], q) {
            Ok(rec) => {
                out.push(rec);
            },
            Err(e) => {
                proof {
                    assert(!volume_resolves(qs[k as int]));
                    assert(aborts_with(qs, e)) by {
                        assert(0 <= k < qs.len() && !volume_resolves(qs[k as int]) && e
                            == volume_error(qs[k as int]) && (forall|j: int|
                            0 <= j < k ==> volume_resolves(#[trigger] qs[j])));
                    }
                }
                return Err(e);
            },
        }
        k = k + 1;
    }
    proof {
        assert(all_resolve(qs));
        assert(snapshot_matches(out@, views_of(ids@), qs)) by {
            assert forall|i: int| 0 <= i < out@.len() implies record_matches(
                #[trigger] out@[i],
                views_of(ids@)[i],
                qs[i],
            ) by {
                assert(views_of(ids@)[i] == ids@[i]@);
            }
        }
    }
    Ok(out)
}

/// One whole snapshot over plain platform answers: validate the
/// enumeration protocol, split the identifier buffer, and assemble one
/// record per volume.  `queries` holds the platform's answers for the
/// enumerated volumes, in enumeration order; `last_error` is the
/// platform's last-error value at the enumeration step.  Either every
/// volume yields a record — in enumeration order, each with a non-empty
/// mount-point name — or the first error aborts the snapshot.
pub fn drives(
    probe_len: u32,
    reported_len: u32,
    buf: &[u16],
    queries: Vec<VolumeQueries>,
    last_error: OsError,
) -> (r: Result<Vec<Filesystem>, OsError>)
    requires
        fill_length_ok(probe_len, reported_len) ==> queries@.len() == volume_list(buf@).len(),
    ensures
        !fill_length_ok(probe_len, reported_len) ==> (r matches Err(e) && e == last_error),
        fill_length_ok(probe_len, reported_len) ==> {
            &&& (all_resolve(queries@) <==> r is Ok)
            &&& (r matches Ok(recs) ==> snapshot_matches(recs@, volume_list(buf@), queries@)
                && mounted_on_nonempty(recs@))
            &&& (r matches Err(e) ==> aborts_with(queries@, e))
        },
{
    let ids = match list_volumes(probe_len, reported_len, buf, last_error) {
        Ok(ids) => ids,
        Err(e) => {
            return Err(e);
        },
    };
    proof {
        assert(ids@.len() == volume_list(buf@).len()) by {
            assert(views_of(ids@).len() == ids@.len());
        }
    }
    let r = assemble_records(&ids, queries);
    proof {
        if r is Ok {
            let recs = r->Ok_0;
            assert(snapshot_matches(recs@, volume_list(buf@), queries@)) by {
                assert(views_of(ids@) == volume_list(buf@));
            }
            assert(mounted_on_nonempty(recs@)) by {
                assert forall|i: int| 0 <= i < recs@.len() implies #[trigger] recs@[i].fs_mounted_on@.len()
                    > 0 by {
                    assert(record_matches(recs@[i], views_of(ids@)[i], queries@[i]));
                    assert(views_of(ids@)[i] == ids@[i]@);
                    assert(ids@[i]@.len() > 0);
                    lemma_mounted_on_nonempty(recs@[i], ids@[i]@, queries@[i]);
                }
            }
        }
    }
    r
}

} // verus!
