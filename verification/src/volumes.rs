//! Discovery of mounted volume identifiers.
//!
//! The platform reports the mounted volumes through a two-call
//! size-negotiation protocol: a probe call returns the required buffer
//! length, a second call fills a buffer of exactly that length and reports
//! how much it wrote.  The filled buffer is a run of nul-terminated
//! identifier strings closed by one extra nul.  This module validates the
//! protocol and splits the buffer into the ordered list of identifiers.

use vstd::prelude::*;
use crate::error::OsError;

verus! {

/// An opaque, platform-specific handle naming one mountable volume, as the
/// raw code units the enumeration returned it in.  Valid only within the
/// snapshot that produced it.
#[derive(Debug, Clone, PartialEq, Eq)]
pub struct VolumeIdentifier {
    pub units: Vec<u16>,
}

impl View for VolumeIdentifier {
    type V = Seq<u16>;

    open spec fn view(&self) -> Seq<u16> {
        self.units@
    }
}

/// The raw code units of each identifier in a list, in order.
pub open spec fn views_of(ids: Seq<VolumeIdentifier>) -> Seq<Seq<u16>> {
    ids.map_values(|id: VolumeIdentifier| id@)
}

/// The segments a buffer splits into on zero units, scanned left to right
/// with `cur` the part of the current segment already gathered; empty
/// segments are discarded.
pub open spec fn split_segments(s: Seq<u16>, cur: Seq<u16>) -> Seq<Seq<u16>>
    decreases s.len(),
{
    if s.len() == 0 {
        if cur.len() == 0 {
            Seq::empty()
        } else {
            seq![cur]
        }
    } else if s[0] == 0 {
        if cur.len() == 0 {
            split_segments(s.skip(1), Seq::empty())
        } else {
            seq![cur] + split_segments(s.skip(1), Seq::empty())
        }
    } else {
        split_segments(s.skip(1), cur + seq![s[0]])
    }
}

/// The ordered, non-empty identifier segments of a raw enumeration buffer.
pub open spec fn volume_list(s: Seq<u16>) -> Seq<Seq<u16>> {
    split_segments(s, Seq::empty())
}

/// The protocol's success criterion: the filling call must report exactly
/// one unit less than the probe call asked for — the written identifiers
/// without the closing nul.
pub open spec fn fill_length_ok(probe_len: u32, reported_len: u32) -> bool {
    reported_len + 1 == probe_len
}

/// Every identifier the split yields is non-empty: a segment is only
/// emitted once at least one non-zero unit has been gathered into it.
pub proof fn lemma_segments_nonempty(s: Seq<u16>, cur: Seq<u16>)
    ensures
        forall|i: int|
            0 <= i < split_segments(s, cur).len() ==> #[trigger] split_segments(
                s,
                cur,
            )[i].len() > 0,
    decreases s.len(),
{
    if s.len() == 0 {
        if cur.len() > 0 {
            assert(split_segments(s, cur) == seq![cur]);
            assert(split_segments(s, cur)[0] == cur);
        } else {
            assert(split_segments(s, cur).len() == 0);
        }
    } else if s[0] == 0 {
        lemma_segments_nonempty(s.skip(1), Seq::empty());
        if cur.len() == 0 {
            assert(split_segments(s, cur) == split_segments(s.skip(1), Seq::empty()));
        }
        if cur.len() > 0 {
            let rec = split_segments(s.skip(1), Seq::empty());
            assert(split_segments(s, cur) == seq![cur] + rec);
            assert forall|i: int| 0 <= i < split_segments(s, cur).len() implies #[trigger]
            split_segments(s, cur)[i].len() > 0 by {
                if i > 0 {
                    assert(split_segments(s, cur)[i] == rec[i - 1]);
                }
            }
        }
    } else {
        lemma_segments_nonempty(s.skip(1), cur + seq![s[0]]);
        assert(split_segments(s, cur) == split_segments(s.skip(1), cur + seq![s[0]]));
    }
}

/// Splits a raw enumeration buffer on nul boundaries into the ordered list
/// of identifiers, discarding empty segments.
pub fn split_volume_buffer(buf: &[u16]) -> (r: Vec<VolumeIdentifier>)
    ensures
        views_of(r@) == volume_list(buf@),
{
    let mut out: Vec<VolumeIdentifier> = Vec::new();
    let mut cur: Vec<u16> = Vec::new();
    let mut i: usize = 0;
    proof {
        assert(buf@.skip(0) =~= buf@);
        assert(views_of(out@) + split_segments(buf@, cur@) =~= volume_list(buf@));
    }
    while i < buf.len()
        invariant
            i <= buf@.len(),
            views_of(out@) + split_segments(buf@.skip(i as int), cur@) == volume_list(buf@),
        decreases buf@.len() - i,
    {
        let ghost rest = buf@.skip(i as int);
        let ghost prev_out = out@;
        let ghost prev_cur = cur@;
        let u = buf[i];
        assert(rest[0] == u);
        proof {
            assert(rest.skip(1) =~= buf@.skip(i as int + 1));
        }
        if u == 0 {
            if !cur.is_empty() {
                let id = VolumeIdentifier { units: cur };
                out.push(id);
                cur = Vec::new();
                proof {
                    assert(split_segments(rest, prev_cur) == seq![prev_cur] + split_segments(
                        rest.skip(1),
                        Seq::empty(),
                    ));
                    assert(views_of(out@) =~= views_of(prev_out) + seq![prev_cur]);
                    assert(views_of(out@) + split_segments(buf@.skip(i as int + 1), cur@)
                        =~= views_of(prev_out) + split_segments(rest, prev_cur));
                }
            } else {
                proof {
                    assert(split_segments(rest, prev_cur) == split_segments(
                        rest.skip(1),
                        Seq::empty(),
                    ));
                }
            }
        } else {
            cur.push(u);
            proof {
                assert(cur@ =~= prev_cur + seq![u]);
                assert(split_segments(rest, prev_cur) == split_segments(rest.skip(1), cur@));
            }
        }
        i = i + 1;
    }
    proof {
        assert(buf@.skip(buf@.len() as int) =~= Seq::<u16>::empty());
    }
    if !cur.is_empty() {
        let ghost prev_out = out@;
        let ghost prev_cur = cur@;
        let id = VolumeIdentifier { units: cur };
        out.push(id);
        proof {
            assert(split_segments(Seq::<u16>::empty(), prev_cur) == seq![prev_cur]);
            assert(views_of(out@) =~= views_of(prev_out) + seq![prev_cur]);
            assert(views_of(out@) =~= volume_list(buf@));
        }
    } else {
        proof {
            assert(split_segments(Seq::<u16>::empty(), cur@) =~= Seq::<Seq<u16>>::empty());
            assert(views_of(out@) =~= volume_list(buf@));
        }
    }
    out
}

/// Validates the size-negotiation protocol and yields the enumerated
/// identifiers, in exactly the order the platform wrote them: no
/// reordering and no deduplication.  A reported length other than one less
/// than the probed length is a protocol violation and surfaces the
/// platform's last error.
pub fn list_volumes(probe_len: u32, reported_len: u32, buf: &[u16], last_error: OsError) -> (r:
    Result<Vec<VolumeIdentifier>, OsError>)
    ensures
        fill_length_ok(probe_len, reported_len) <==> r is Ok,
        r matches Ok(ids) ==> views_of(ids@) == volume_list(buf@),
        r matches Ok(ids) ==> forall|i: int| 0 <= i < ids@.len() ==> #[trigger] ids@[i]@.len()
            > 0,
        !fill_length_ok(probe_len, reported_len) ==> (r matches Err(e) && e == last_error),
{
    if probe_len < 1 || reported_len != probe_len - 1 {
        return Err(last_error);
    }
    let ids = split_volume_buffer(buf);
    proof {
        lemma_segments_nonempty(buf@, Seq::<u16>::empty());
        assert forall|i: int| 0 <= i < ids@.len() implies #[trigger] ids@[i]@.len() > 0 by {
            assert(views_of(ids@)[i] == ids@[i]@);
            assert(views_of(ids@)[i] == volume_list(buf@)[i]);
        }
    }
    Ok(ids)
}

} // verus!
