use volsnap::describe::{
    CapacityQuery, CapacityRaw, MetadataQuery, VolumeMetadataFailure, VolumeMetadataRaw,
    VolumeQueries,
};
use volsnap::error::OsError;
use volsnap::snapshot::{assemble_records, drives};
use volsnap::text::REPLACEMENT_CHARACTER;
use volsnap::volumes::VolumeIdentifier;

fn utf16(s: &str) -> Vec<u16> {
    s.encode_utf16().collect()
}

fn utf16z(s: &str) -> Vec<u16> {
    let mut units = utf16(s);
    units.push(0);
    units
}

fn os_error(code: u32) -> OsError {
    OsError { code, message: format!("platform error {}", code) }
}

fn good_metadata(label: &str, fs: &str, name_max: u32) -> MetadataQuery {
    MetadataQuery::Succeeded(VolumeMetadataRaw {
        max_component_length: name_max,
        volume_name: utf16z(label),
        fs_name: utf16z(fs),
    })
}

fn good_capacity(total: u64, avail: u64, free: u64) -> CapacityQuery {
    CapacityQuery::Succeeded(CapacityRaw {
        available_to_caller: avail,
        total_bytes: total,
        total_free_bytes: free,
    })
}

#[test]
fn fixed_volume_and_empty_removable_drive() {
    // Two volumes: a normal fixed one, and a removable drive whose metadata
    // query fails because no media is inserted.
    let buf = utf16("C:\\\0E:\\\0\0");
    let probe = buf.len() as u32;
    let queries = vec![
        VolumeQueries {
            metadata: good_metadata("DATA", "NTFS", 255),
            capacity: good_capacity(1000, 400, 400),
        },
        VolumeQueries {
            metadata: MetadataQuery::Failed(VolumeMetadataFailure {
                max_component_length: 0,
                partial_volume_name: vec![0],
                drive_type: 2,
                last_error: os_error(21),
            }),
            capacity: CapacityQuery::Failed(os_error(21)),
        },
    ];
    let recs = drives(probe, probe - 1, &buf, queries, os_error(1)).unwrap();
    assert_eq!(recs.len(), 2);

    assert_eq!(recs[0].fs_mounted_on, "C:\\");
    assert_eq!(recs[0].fs_mounted_from, "DATA");
    assert_eq!(recs[0].fs_type, "NTFS");
    assert_eq!(recs[0].name_max, 255);
    assert_eq!(recs[0].total, 1000);
    assert_eq!(recs[0].avail, 400);
    assert_eq!(recs[0].free, 400);

    assert_eq!(recs[1].fs_mounted_on, "E:\\");
    assert_eq!(recs[1].fs_type, "REM");
    assert_eq!(recs[1].name_max, 0);
    assert_eq!(recs[1].total, 0);
    assert_eq!(recs[1].avail, 0);
    assert_eq!(recs[1].free, 0);
}

#[test]
fn metadata_failure_on_a_fixed_volume_aborts_the_snapshot() {
    let buf = utf16("C:\\\0D:\\\0\0");
    let probe = buf.len() as u32;
    let queries = vec![
        VolumeQueries {
            metadata: MetadataQuery::Failed(VolumeMetadataFailure {
                max_component_length: 0,
                partial_volume_name: vec![0],
                drive_type: 3,
                last_error: os_error(1005),
            }),
            capacity: good_capacity(1000, 400, 400),
        },
        VolumeQueries {
            metadata: good_metadata("DATA", "NTFS", 255),
            capacity: good_capacity(1000, 400, 400),
        },
    ];
    assert_eq!(
        drives(probe, probe - 1, &buf, queries, os_error(1)),
        Err(os_error(1005))
    );
}

#[test]
fn probe_length_mismatch_aborts_the_snapshot() {
    let buf = utf16("C:\\\0\0");
    let probe = buf.len() as u32;
    let enumeration_error = os_error(122);
    assert_eq!(
        drives(probe, probe, &buf, Vec::new(), enumeration_error.clone()),
        Err(enumeration_error)
    );
}

#[test]
fn invalid_code_unit_in_identifier_becomes_replacement_character() {
    // The identifier holds a lone high surrogate followed by an 'X'.
    let buf = vec![0xD800u16, 0x58, 0, 0];
    let probe = buf.len() as u32;
    let queries = vec![VolumeQueries {
        metadata: good_metadata("DATA", "NTFS", 255),
        capacity: good_capacity(10, 5, 5),
    }];
    let recs = drives(probe, probe - 1, &buf, queries, os_error(1)).unwrap();
    assert_eq!(recs.len(), 1);
    assert_eq!(recs[0].fs_mounted_on, format!("{}X", REPLACEMENT_CHARACTER));
    assert!(recs[0].fs_mounted_on.contains(REPLACEMENT_CHARACTER));
}

#[test]
fn records_come_in_enumeration_order() {
    let buf = utf16("Z:\\\0A:\\\0M:\\\0\0");
    let probe = buf.len() as u32;
    let queries = vec![
        VolumeQueries {
            metadata: good_metadata("THIRD", "NTFS", 255),
            capacity: good_capacity(3, 3, 3),
        },
        VolumeQueries {
            metadata: good_metadata("FIRST", "FAT32", 128),
            capacity: good_capacity(1, 1, 1),
        },
        VolumeQueries {
            metadata: good_metadata("SECOND", "exFAT", 64),
            capacity: good_capacity(2, 2, 2),
        },
    ];
    let recs = drives(probe, probe - 1, &buf, queries, os_error(1)).unwrap();
    let mounted: Vec<&str> = recs.iter().map(|r| r.fs_mounted_on.as_str()).collect();
    assert_eq!(mounted, vec!["Z:\\", "A:\\", "M:\\"]);
    let labels: Vec<&str> = recs.iter().map(|r| r.fs_mounted_from.as_str()).collect();
    assert_eq!(labels, vec!["THIRD", "FIRST", "SECOND"]);
}

#[test]
fn first_failing_volume_decides_the_error() {
    let ids = vec![
        VolumeIdentifier { units: utf16("C:\\") },
        VolumeIdentifier { units: utf16("D:\\") },
        VolumeIdentifier { units: utf16("E:\\") },
    ];
    let queries = vec![
        VolumeQueries {
            metadata: good_metadata("OK", "NTFS", 255),
            capacity: good_capacity(1, 1, 1),
        },
        VolumeQueries {
            metadata: good_metadata("BAD", "NTFS", 255),
            capacity: CapacityQuery::Failed(os_error(112)),
        },
        VolumeQueries {
            metadata: MetadataQuery::Failed(VolumeMetadataFailure {
                max_component_length: 0,
                partial_volume_name: vec![0],
                drive_type: 3,
                last_error: os_error(999),
            }),
            capacity: good_capacity(1, 1, 1),
        },
    ];
    assert_eq!(assemble_records(&ids, queries), Err(os_error(112)));
}

#[test]
fn assembling_no_volumes_yields_an_empty_list() {
    let recs = assemble_records(&Vec::new(), Vec::new()).unwrap();
    assert!(recs.is_empty());
}
