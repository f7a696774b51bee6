use byteorder::{LittleEndian, ReadBytesExt, WriteBytesExt};
use vban_autogain::gain::{decode_samples, peak_abs, write_body};
use vban_autogain::vban::VbanPacket;
use vban_autogain::HEADER_SIZE;

fn packet_with_body(body: &[u8]) -> Vec<u8> {
    let mut buf = vec![0u8; 4];
    buf.push(0x00);
    buf.push(0x10);
    buf.push(0x01);
    buf.push(0x01); // 16-bit PCM
    buf.extend_from_slice(b"teststream123456");
    buf.extend_from_slice(&[1, 0, 0, 0]);
    buf.extend_from_slice(body);
    buf
}

#[test]
fn decode_matches_little_endian_reader() {
    let body = [0x34u8, 0x12, 0xff, 0xff, 0x00, 0x80, 0xff, 0x7f];
    let samples = decode_samples(&body.to_vec());
    let mut expected = Vec::new();
    let mut s: &[u8] = &body;
    while let Ok(v) = s.read_i16::<LittleEndian>() {
        expected.push(v);
    }
    assert_eq!(samples, expected);
    assert_eq!(samples, vec![0x1234, -1, i16::MIN, i16::MAX]);
}

#[test]
fn decode_ignores_a_trailing_odd_byte() {
    let body = [0x01u8, 0x00, 0x02, 0x00, 0x99];
    let samples = decode_samples(&body.to_vec());
    assert_eq!(samples, vec![1, 2]);
}

#[test]
fn decode_of_empty_body_is_empty() {
    assert!(decode_samples(&Vec::new()).is_empty());
}

#[test]
fn peak_is_the_largest_magnitude() {
    assert_eq!(peak_abs(&vec![0, -5, 3]), 5);
    assert_eq!(peak_abs(&vec![7]), 7);
    assert_eq!(peak_abs(&vec![i16::MIN, i16::MAX]), 32768);
    assert_eq!(peak_abs(&vec![i16::MAX]), 32767);
}

#[test]
fn peak_of_silence_is_zero() {
    // a silent packet puts no bound on the gain accumulator
    assert_eq!(peak_abs(&vec![0; 64]), 0);
    assert_eq!(peak_abs(&Vec::new()), 0);
}

#[test]
fn write_back_of_unchanged_samples_is_byte_identical() {
    let body = [0x34u8, 0x12, 0xff, 0xff, 0x00, 0x80, 0xff, 0x7f];
    let mut buf = packet_with_body(&body);
    let copy = buf.clone();
    let p = VbanPacket::from_mut_slice(&buf).unwrap();
    let samples = decode_samples(&p.vban_data);
    write_body(&mut buf, &samples);
    assert_eq!(buf, copy);
}

#[test]
fn write_back_keeps_the_trailing_odd_byte() {
    let body = [0x01u8, 0x00, 0x02, 0x00, 0x99];
    let mut buf = packet_with_body(&body);
    let copy = buf.clone();
    let samples = decode_samples(&body.to_vec());
    write_body(&mut buf, &samples);
    assert_eq!(buf, copy);
}

#[test]
fn write_body_encodes_little_endian_and_spares_the_header() {
    let body = [0u8; 8];
    let mut buf = packet_with_body(&body);
    let header_copy = buf[..HEADER_SIZE].to_vec();
    let scaled: Vec<i16> = vec![0x1234, -1, i16::MIN, i16::MAX];
    write_body(&mut buf, &scaled);
    assert_eq!(&buf[..HEADER_SIZE], header_copy.as_slice());
    let mut expected = Vec::new();
    for s in &scaled {
        expected.write_i16::<LittleEndian>(*s).unwrap();
    }
    assert_eq!(&buf[HEADER_SIZE..], expected.as_slice());
}

#[test]
fn scaling_by_one_preserves_every_sample() {
    // accumulator 1.0 and multiplier 1.0: floor(s * 1.0) == s for the
    // whole 16-bit range, so the processed packet is bit-identical
    let mut body = Vec::new();
    for s in [i16::MIN, -12345, -1, 0, 1, 999, i16::MAX] {
        body.write_i16::<LittleEndian>(s).unwrap();
    }
    let mut buf = packet_with_body(&body);
    let copy = buf.clone();
    let samples = decode_samples(&decode_body(&buf));
    let acc: f32 = 1.0;
    let scaled: Vec<i16> = samples
        .iter()
        .map(|s| (*s as f32 * acc).floor() as i16)
        .collect();
    write_body(&mut buf, &scaled);
    assert_eq!(buf, copy);
}

fn decode_body(buf: &Vec<u8>) -> Vec<u8> {
    VbanPacket::from_mut_slice(buf).unwrap().vban_data
}
