use iptv::rtp::{parse_rtp_header, strip_header};

fn minimal_datagram(seq: u16, payload: &[u8]) -> Vec<u8> {
    let mut d = vec![0x80, 96, (seq >> 8) as u8, (seq & 0xff) as u8, 0, 0, 0, 0, 0, 0, 0, 0];
    d.extend_from_slice(payload);
    d
}

#[test]
fn minimal_header_parses() {
    let d = minimal_datagram(10040, &[1, 2, 3]);
    let h = parse_rtp_header(&d).unwrap();
    assert_eq!(h.seq, 10040);
    assert_eq!(h.payload_offset, 12);
}

#[test]
fn strip_header_yields_payload() {
    let d = minimal_datagram(7, &[9, 8, 7, 6]);
    let h = parse_rtp_header(&d).unwrap();
    let p = strip_header(&d, h.payload_offset);
    assert_eq!(p, vec![9, 8, 7, 6]);
}

#[test]
fn empty_payload_parses() {
    let d = minimal_datagram(0, &[]);
    let h = parse_rtp_header(&d).unwrap();
    assert_eq!(h.seq, 0);
    assert_eq!(h.payload_offset, 12);
    assert!(strip_header(&d, h.payload_offset).is_empty());
}

#[test]
fn short_datagram_is_invalid() {
    let d = vec![0x80, 96, 0, 1, 0, 0, 0, 0, 0, 0, 0];
    assert!(parse_rtp_header(&d).is_none());
}

#[test]
fn wrong_version_is_invalid() {
    let mut d = minimal_datagram(1, &[1]);
    d[0] = 0x40;
    assert!(parse_rtp_header(&d).is_none());
}

#[test]
fn csrc_entries_shift_payload_offset() {
    let mut d = vec![0x82, 96, 0x01, 0x02, 0, 0, 0, 0, 0, 0, 0, 0];
    d.extend_from_slice(&[0, 0, 0, 1, 0, 0, 0, 2]);
    d.extend_from_slice(&[0xaa, 0xbb]);
    let h = parse_rtp_header(&d).unwrap();
    assert_eq!(h.seq, 0x0102);
    assert_eq!(h.payload_offset, 20);
    assert_eq!(strip_header(&d, h.payload_offset), vec![0xaa, 0xbb]);
}

#[test]
fn truncated_csrc_list_is_invalid() {
    let d = vec![0x82, 96, 0, 1, 0, 0, 0, 0, 0, 0, 0, 0, 0, 0];
    assert!(parse_rtp_header(&d).is_none());
}

#[test]
fn extension_shifts_payload_offset() {
    let mut d = vec![0x90, 96, 0, 5, 0, 0, 0, 0, 0, 0, 0, 0];
    d.extend_from_slice(&[0xbe, 0xde, 0, 1]);
    d.extend_from_slice(&[1, 2, 3, 4]);
    d.extend_from_slice(&[0x77]);
    let h = parse_rtp_header(&d).unwrap();
    assert_eq!(h.seq, 5);
    assert_eq!(h.payload_offset, 20);
    assert_eq!(strip_header(&d, h.payload_offset), vec![0x77]);
}

#[test]
fn truncated_extension_is_invalid() {
    let mut d = vec![0x90, 96, 0, 5, 0, 0, 0, 0, 0, 0, 0, 0];
    d.extend_from_slice(&[0xbe, 0xde, 0, 2]);
    d.extend_from_slice(&[1, 2, 3, 4]);
    assert!(parse_rtp_header(&d).is_none());
}

#[test]
fn zero_padding_length_is_invalid() {
    let mut d = minimal_datagram(1, &[1, 2, 0]);
    d[0] = 0xa0;
    assert!(parse_rtp_header(&d).is_none());
}

#[test]
fn oversized_padding_is_invalid() {
    let mut d = minimal_datagram(1, &[1, 2, 200]);
    d[0] = 0xa0;
    assert!(parse_rtp_header(&d).is_none());
}

#[test]
fn valid_padding_parses_and_is_kept() {
    let mut d = minimal_datagram(1, &[1, 2, 3]);
    d[0] = 0xa0;
    let h = parse_rtp_header(&d).unwrap();
    assert_eq!(h.payload_offset, 12);
    assert_eq!(strip_header(&d, h.payload_offset), vec![1, 2, 3]);
}

#[test]
fn matches_reference_reader() {
    let mut cases: Vec<Vec<u8>> = vec![
        minimal_datagram(10040, &[1, 2, 3]),
        minimal_datagram(0, &[]),
        vec![0x80, 96, 0, 1, 0, 0, 0, 0, 0, 0, 0],
        vec![0x40, 96, 0, 1, 0, 0, 0, 0, 0, 0, 0, 0],
        vec![0x82, 96, 0, 1, 0, 0, 0, 0, 0, 0, 0, 0, 0, 0],
    ];
    let mut with_ext = vec![0x90, 96, 0, 5, 0, 0, 0, 0, 0, 0, 0, 0];
    with_ext.extend_from_slice(&[0xbe, 0xde, 0, 1, 1, 2, 3, 4, 0x77]);
    cases.push(with_ext);
    let mut padded = minimal_datagram(1, &[1, 2, 3]);
    padded[0] = 0xa0;
    cases.push(padded);
    let mut bad_pad = minimal_datagram(1, &[1, 2, 0]);
    bad_pad[0] = 0xa0;
    cases.push(bad_pad);

    for d in &cases {
        let ours = parse_rtp_header(d);
        match rtp_rs::RtpReader::new(d.as_slice()) {
            Ok(reader) => {
                let h = ours.expect("reference reader accepted, ours must too");
                let reference_seq: u16 = reader.sequence_number().into();
                assert_eq!(h.seq, reference_seq);
                assert_eq!(h.payload_offset, reader.payload_offset());
            }
            Err(_) => {
                assert!(ours.is_none(), "reference reader rejected, ours must too");
            }
        }
    }
}
