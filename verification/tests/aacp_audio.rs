use earbuds::bluetooth::aacp_audio::{demux_type58, is_audio, u16le};

fn sdu(records: &[(u32, &[u8])], tail: &[u8]) -> Vec<u8> {
    let mut bytes = vec![0u8; 22];
    bytes[0] = 0x04;
    bytes[2] = 0x04;
    bytes[4] = 0x58;
    bytes[6] = 0x01;
    for (timestamp, au) in records {
        bytes.extend_from_slice(&timestamp.to_le_bytes());
        bytes.push(au.len() as u8);
        bytes.extend_from_slice(au);
    }
    bytes.extend_from_slice(tail);
    bytes
}

fn demux(bytes: &[u8]) -> (usize, Vec<Vec<u8>>) {
    let mut aus: Vec<&[u8]> = Vec::new();
    let n = demux_type58(bytes, &mut aus);
    (n, aus.iter().map(|au| au.to_vec()).collect())
}

#[test]
fn u16le_reads_the_low_byte_first() {
    assert_eq!(u16le(&[0xAA, 0x34, 0x12], 1), 0x1234);
    assert_eq!(u16le(&[0xFF, 0xFF], 0), 0xFFFF);
    assert_eq!(u16le(&[0x00, 0x80], 0), 0x8000);
}

#[test]
fn audio_frames_are_recognised() {
    let audio = [0x04, 0x99, 0x04, 0x77, 0x58, 0x00, 0x01, 0x00];
    assert!(is_audio(&audio));
    assert!(is_audio(&sdu(&[], &[])));
    assert!(!is_audio(&audio[..7]));
    assert!(!is_audio(&[]));
    for i in [0usize, 2, 4, 5, 6, 7] {
        let mut other = audio;
        other[i] = other[i].wrapping_add(1);
        assert!(!is_audio(&other), "byte {} matters", i);
    }
}

#[test]
fn bytes_behind_the_first_eight_do_not_decide() {
    let mut long = vec![0x04, 0, 0x04, 0, 0x58, 0, 0x01, 0];
    long.extend_from_slice(&[0xFF; 40]);
    assert!(is_audio(&long));
}

#[test]
fn access_units_are_read_back() {
    let bytes = sdu(&[(1, &[10, 11, 12]), (0xDEADBEEF, &[]), (3, &[13])], &[]);
    let (n, aus) = demux(&bytes);
    assert_eq!(n, 3);
    assert_eq!(aus, vec![vec![10u8, 11, 12], vec![], vec![13]]);
}

#[test]
fn longest_access_unit_is_read_back() {
    let au = [7u8; 255];
    let (n, aus) = demux(&sdu(&[(0, &au)], &[]));
    assert_eq!(n, 1);
    assert_eq!(aus[0], au.to_vec());
}

#[test]
fn cut_off_records_are_left_out() {
    // Four bytes are no record, and neither is one whose unit is cut off.
    let (n, aus) = demux(&sdu(&[(1, &[10])], &[0, 0, 0, 0]));
    assert_eq!((n, aus), (1, vec![vec![10u8]]));
    let (n, aus) = demux(&sdu(&[(1, &[10])], &[0, 0, 0, 0, 3, 1, 2]));
    assert_eq!((n, aus), (1, vec![vec![10u8]]));
}

#[test]
fn short_sdus_hold_nothing() {
    assert_eq!(demux(&[]).0, 0);
    assert_eq!(demux(&[0; 21]).0, 0);
    assert_eq!(demux(&[0; 22]).0, 0);
    assert_eq!(demux(&[0; 26]).0, 0);
    assert_eq!(demux(&[0; 27]), (1, vec![vec![]]));
}

#[test]
fn access_units_are_appended_to_what_is_there() {
    let bytes = sdu(&[(1, &[10])], &[]);
    let first = [1u8, 2];
    let mut aus: Vec<&[u8]> = vec![&first];
    assert_eq!(demux_type58(&bytes, &mut aus), 1);
    assert_eq!(aus.len(), 2);
    assert_eq!(aus[0], &[1, 2]);
    assert_eq!(aus[1], &[10]);
}
