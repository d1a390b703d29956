//! Resolution of one volume's metadata and capacity into its record.
//!
//! The platform answers three queries about a volume: a metadata query
//! (display name, filesystem type, maximum component length), a drive-type
//! classification, and an extended free-space query.  The raw answers are
//! carried in by plain values; this module applies the recovery policy for
//! removable and optical media and assembles the normalized record.

use vstd::prelude::*;
use crate::error::OsError;
use crate::text::{decode_to_nul, decode_utf16_lossy, decoded_utf16, nul_terminated_prefix};
use crate::text::lemma_decoded_nonempty;
use crate::volumes::VolumeIdentifier;

verus! {

/// The platform's classification code for removable media (floppy, USB).
pub const DRIVE_REMOVABLE: u32 = 2;

/// The platform's classification code for optical media.
pub const DRIVE_CDROM: u32 = 5;

/// What a successful metadata query filled in: the maximum
/// filename-component length, and the nul-terminated text buffers for the
/// volume's label and its filesystem type.
#[derive(Debug, Clone, PartialEq, Eq)]
pub struct VolumeMetadataRaw {
    pub max_component_length: u32,
    pub volume_name: Vec<u16>,
    pub fs_name: Vec<u16>,
}

/// What is left after a failed metadata query: whatever the call wrote
/// into the outputs before failing, the drive-type classification obtained
/// afterwards, and the platform's last error at that point.
#[derive(Debug, Clone, PartialEq, Eq)]
pub struct VolumeMetadataFailure {
    pub max_component_length: u32,
    pub partial_volume_name: Vec<u16>,
    pub drive_type: u32,
    pub last_error: OsError,
}

/// The outcome of the metadata query on one volume.
#[derive(Debug, Clone, PartialEq, Eq)]
pub enum MetadataQuery {
    Succeeded(VolumeMetadataRaw),
    Failed(VolumeMetadataFailure),
}

/// The three magnitudes a successful free-space query reports.
#[derive(Debug, Clone, Copy, PartialEq, Eq)]
pub struct CapacityRaw {
    pub available_to_caller: u64,
    pub total_bytes: u64,
    pub total_free_bytes: u64,
}

/// The outcome of the free-space query on one volume.
#[derive(Debug, Clone, PartialEq, Eq)]
pub enum CapacityQuery {
    Succeeded(CapacityRaw),
    Failed(OsError),
}

/// Everything the platform answered about one volume.  The capacity answer
/// is ignored whenever the resolved maximum component length is zero: such
/// a volume gets zeroed capacity fields without the query being consulted.
#[derive(Debug, Clone, PartialEq, Eq)]
pub struct VolumeQueries {
    pub metadata: MetadataQuery,
    pub capacity: CapacityQuery,
}

/// A volume's resolved identifying metadata.
#[derive(Debug, Clone, PartialEq, Eq)]
pub struct VolumeMetadata {
    pub name_max: u32,
    pub fs_type: String,
    pub label: String,
}

/// One normalized volume record.  The file-count quota fields are kept for
/// schema symmetry with other hosts and are always zero here: the platform
/// does not report them.
#[derive(Debug, Clone, PartialEq, Eq)]
pub struct Filesystem {
    pub files: u64,
    pub files_total: u64,
    pub files_avail: u64,
    pub free: u64,
    pub avail: u64,
    pub total: u64,
    pub name_max: u32,
    pub fs_type: String,
    pub fs_mounted_from: String,
    pub fs_mounted_on: String,
}

/// True when a failed metadata query is recovered: media classified as
/// removable or optical may simply have nothing inserted, which is an
/// expected condition, not an error.
pub open spec fn metadata_recovers(q: MetadataQuery) -> bool {
    q matches MetadataQuery::Failed(f) && (f.drive_type == DRIVE_REMOVABLE || f.drive_type
        == DRIVE_CDROM)
}

/// True when the metadata query yields a usable result, directly or
/// through the removable/optical recovery.
pub open spec fn metadata_resolves(q: MetadataQuery) -> bool {
    q is Succeeded || metadata_recovers(q)
}

/// The maximum component length the resolution reports: the queried value,
/// or whatever the failed call left behind (typically zero) on a recovered
/// volume.
pub open spec fn resolved_name_max(q: MetadataQuery) -> u32 {
    match q {
        MetadataQuery::Succeeded(m) => m.max_component_length,
        MetadataQuery::Failed(f) => f.max_component_length,
    }
}

/// The filesystem type tag the resolution reports: the decoded native type
/// string, or the synthetic tag of the recovered media class.
pub open spec fn resolved_fs_type(q: MetadataQuery) -> Seq<char> {
    match q {
        MetadataQuery::Succeeded(m) => decoded_utf16(nul_terminated_prefix(m.fs_name@)),
        MetadataQuery::Failed(f) => if f.drive_type == DRIVE_REMOVABLE {
            "REM"@
        } else {
            "CDROM"@
        },
    }
}

/// The volume label the resolution reports; on a recovered volume, the
/// decoded form of whatever partial label the failed call wrote.
pub open spec fn resolved_label(q: MetadataQuery) -> Seq<char> {
    match q {
        MetadataQuery::Succeeded(m) => decoded_utf16(nul_terminated_prefix(m.volume_name@)),
        MetadataQuery::Failed(f) => decoded_utf16(nul_terminated_prefix(f.partial_volume_name@)),
    }
}

/// The error surfaced by a metadata query that does not resolve.
pub open spec fn metadata_error(q: MetadataQuery) -> OsError
    recommends
        !metadata_resolves(q),
{
    q->Failed_0.last_error
}

/// True when the whole volume yields a record: its metadata resolves, and
/// the capacity query succeeded wherever it is consulted at all.
pub open spec fn volume_resolves(q: VolumeQueries) -> bool {
    metadata_resolves(q.metadata) && (resolved_name_max(q.metadata) != 0 ==> q.capacity
        is Succeeded)
}

/// The error a volume that does not resolve surfaces: the metadata error
/// where metadata was at fault, the capacity error otherwise.
pub open spec fn volume_error(q: VolumeQueries) -> OsError
    recommends
        !volume_resolves(q),
{
    if !metadata_resolves(q.metadata) {
        metadata_error(q.metadata)
    } else {
        q.capacity->Failed_0
    }
}

/// The full relation between one volume's record, its raw identifier, and
/// the platform's answers about it.
pub open spec fn record_matches(f: Filesystem, id: Seq<u16>, q: VolumeQueries) -> bool {
    &&& f.fs_mounted_on@ == decoded_utf16(id)
    &&& f.name_max == resolved_name_max(q.metadata)
    &&& f.fs_type@ == resolved_fs_type(q.metadata)
    &&& f.fs_mounted_from@ == resolved_label(q.metadata)
    &&& (if resolved_name_max(q.metadata) == 0 {
        f.total == 0 && f.avail == 0 && f.free == 0
    } else {
        &&& f.total == q.capacity->Succeeded_0.total_bytes
        &&& f.avail == q.capacity->Succeeded_0.available_to_caller
        &&& f.free == q.capacity->Succeeded_0.total_free_bytes
    })
    &&& f.files == 0
    &&& f.files_total == 0
    &&& f.files_avail == 0
}

/// Applies the metadata recovery policy: a straight success decodes its
/// text buffers; a failure on removable or optical media becomes a
/// synthetic success with the media tag; any other failure surfaces the
/// platform's error unmasked.
pub fn resolve_metadata(q: MetadataQuery) -> (r: Result<VolumeMetadata, OsError>)
    ensures
        metadata_resolves(q) <==> r is Ok,
        r matches Ok(m) ==> {
            &&& m.name_max == resolved_name_max(q)
            &&& m.fs_type@ == resolved_fs_type(q)
            &&& m.label@ == resolved_label(q)
        },
        !metadata_resolves(q) ==> (r matches Err(e) && e == metadata_error(q)),
{
    match q {
        MetadataQuery::Succeeded(m) => {
            let fs_type = decode_to_nul(m.fs_name.as_slice());
            let label = decode_to_nul(m.volume_name.as_slice());
            Ok(VolumeMetadata { name_max: m.max_component_length, fs_type, label })
        },
        MetadataQuery::Failed(f) => {
            if f.drive_type == DRIVE_REMOVABLE {
                let label = decode_to_nul(f.partial_volume_name.as_slice());
                Ok(
                    VolumeMetadata {
                        name_max: f.max_component_length,
                        fs_type: "REM".to_owned(),
                        label,
                    },
                )
            } else if f.drive_type == DRIVE_CDROM {
                let label = decode_to_nul(f.partial_volume_name.as_slice());
                Ok(
                    VolumeMetadata {
                        name_max: f.max_component_length,
                        fs_type: "CDROM".to_owned(),
                        label,
                    },
                )
            } else {
                Err(f.last_error)
            }
        },
    }
}

/// Reinterprets a successful free-space answer as the `(total, avail,
/// free)` triple of the record; a failed one surfaces the platform's
/// error.
pub fn resolve_capacity(q: CapacityQuery) -> (r: Result<(u64, u64, u64), OsError>)
    ensures
        q is Succeeded <==> r is Ok,
        r matches Ok(c) ==> {
            &&& c.0 == q->Succeeded_0.total_bytes
            &&& c.1 == q->Succeeded_0.available_to_caller
            &&& c.2 == q->Succeeded_0.total_free_bytes
        },
        r matches Err(e) ==> e == q->Failed_0,
{
    match q {
        CapacityQuery::Succeeded(c) => Ok((c.total_bytes, c.available_to_caller, c.total_free_bytes)),
        CapacityQuery::Failed(e) => Err(e),
    }
}

/// Builds the record of one volume from the platform's answers about it.
/// A volume whose resolved maximum component length is zero — typically a
/// recovered removable or optical drive with no media inserted — gets
/// zeroed capacity fields, and its capacity answer is never consulted.
pub fn describe_volume(id: &VolumeIdentifier, q: VolumeQueries) -> (r: Result<
    Filesystem,
    OsError,
>)
    ensures
        volume_resolves(q) <==> r is Ok,
        r matches Ok(f) ==> record_matches(f, id@, q),
        !volume_resolves(q) ==> (r matches Err(e) && e == volume_error(q)),
{
    let VolumeQueries { metadata, capacity } = q;
    let name = decode_utf16_lossy(id.units.as_slice());
    let meta = match resolve_metadata(metadata) {
        Ok(m) => m,
        Err(e) => {
            return Err(e);
        },
    };
    if meta.name_max == 0 {
        Ok(
            Filesystem {
                files: 0,
                files_total: 0,
                files_avail: 0,
                free: 0,
                avail: 0,
                total: 0,
                name_max: meta.name_max,
                fs_type: meta.fs_type,
                fs_mounted_from: meta.label,
                fs_mounted_on: name,
            },
        )
    } else {
        let (total, avail, free) = match resolve_capacity(capacity) {
            Ok(c) => c,
            Err(e) => {
                return Err(e);
            },
        };
        Ok(
            Filesystem {
                files: 0,
                files_total: 0,
                files_avail: 0,
                free,
                avail,
                total,
                name_max: meta.name_max,
                fs_type: meta.fs_type,
                fs_mounted_from: meta.label,
                fs_mounted_on: name,
            },
        )
    }
}

/// A record whose metadata marked capacity as unavailable carries zeroed
/// capacity counters by construction, never stale query values.
pub proof fn lemma_zero_name_max_zero_capacity(f: Filesystem, id: Seq<u16>, q: VolumeQueries)
    requires
        record_matches(f, id, q),
        f.name_max == 0,
    ensures
        f.total == 0,
        f.avail == 0,
        f.free == 0,
{
}

/// On a well-formed snapshot — the platform reporting no more free bytes
/// than total bytes — a populated record keeps its free count within its
/// total count.
pub proof fn lemma_capacity_consistent(f: Filesystem, id: Seq<u16>, q: VolumeQueries)
    requires
        record_matches(f, id, q),
        f.name_max != 0,
        q.capacity->Succeeded_0.total_free_bytes <= q.capacity->Succeeded_0.total_bytes,
    ensures
        f.free <= f.total,
{
}

/// Decoding never silently empties a name: the record of a non-empty raw
/// identifier has a non-empty mount-point name.
pub proof fn lemma_mounted_on_nonempty(f: Filesystem, id: Seq<u16>, q: VolumeQueries)
    requires
        record_matches(f, id, q),
        id.len() > 0,
    ensures
        f.fs_mounted_on@.len() > 0,
{
    lemma_decoded_nonempty(id);
}

} // verus!
