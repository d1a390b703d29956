use volsnap::error::OsError;
use volsnap::volumes::{list_volumes, split_volume_buffer};

fn utf16(s: &str) -> Vec<u16> {
    s.encode_utf16().collect()
}

fn os_error(code: u32) -> OsError {
    OsError { code, message: format!("platform error {}", code) }
}

#[test]
fn buffer_splits_on_nul_boundaries() {
    let buf = utf16("C:\\\0D:\\\0E:\\\0\0");
    let ids = split_volume_buffer(&buf);
    assert_eq!(ids.len(), 3);
    assert_eq!(ids[0].units, utf16("C:\\"));
    assert_eq!(ids[1].units, utf16("D:\\"));
    assert_eq!(ids[2].units, utf16("E:\\"));
}

#[test]
fn empty_segments_are_discarded() {
    let buf = utf16("A\0\0\0B\0\0");
    let ids = split_volume_buffer(&buf);
    assert_eq!(ids.len(), 2);
    assert_eq!(ids[0].units, utf16("A"));
    assert_eq!(ids[1].units, utf16("B"));
}

#[test]
fn unterminated_tail_is_still_an_identifier() {
    let buf = utf16("A\0BC");
    let ids = split_volume_buffer(&buf);
    assert_eq!(ids.len(), 2);
    assert_eq!(ids[1].units, utf16("BC"));
}

#[test]
fn empty_buffer_yields_no_identifiers() {
    let buf: Vec<u16> = Vec::new();
    assert_eq!(split_volume_buffer(&buf).len(), 0);
}

#[test]
fn enumeration_keeps_order_and_duplicates() {
    let buf = utf16("C:\\\0A:\\\0C:\\\0\0");
    let probe = buf.len() as u32;
    let ids = list_volumes(probe, probe - 1, &buf, os_error(1)).unwrap();
    let names: Vec<Vec<u16>> = ids.iter().map(|id| id.units.clone()).collect();
    assert_eq!(names, vec![utf16("C:\\"), utf16("A:\\"), utf16("C:\\")]);
}

#[test]
fn reported_length_must_be_one_less_than_probe() {
    let buf = utf16("C:\\\0\0");
    let probe = buf.len() as u32;
    let err = os_error(87);
    assert!(list_volumes(probe, probe - 1, &buf, err.clone()).is_ok());
    assert_eq!(list_volumes(probe, probe, &buf, err.clone()), Err(err.clone()));
    assert_eq!(list_volumes(probe, probe - 2, &buf, err.clone()), Err(err.clone()));
    assert_eq!(list_volumes(probe, 0, &buf, err.clone()), Err(err));
}

#[test]
fn zero_probe_length_is_a_protocol_violation() {
    let buf: Vec<u16> = Vec::new();
    let err = os_error(5);
    assert_eq!(list_volumes(0, 0, &buf, err.clone()), Err(err));
}
