use rust_backend::media::{
    detect_format, is_avi_format, is_mkv_format, is_mp4_format, is_webm_format, parse_moov_box,
    parse_trak_box, VideoFormat,
};

fn boxed(kind: &[u8; 4], body: &[u8]) -> Vec<u8> {
    let mut v = ((body.len() + 8) as u32).to_be_bytes().to_vec();
    v.extend_from_slice(kind);
    v.extend_from_slice(body);
    v
}

fn mvhd_v0(timescale: u32, duration: u32) -> Vec<u8> {
    let mut body = vec![0u8; 32];
    body[12..16].copy_from_slice(&timescale.to_be_bytes());
    body[16..20].copy_from_slice(&duration.to_be_bytes());
    boxed(b"mvhd", &body)
}

#[test]
fn mp4_is_recognised_by_its_first_box() {
    assert!(is_mp4_format(b"\x00\x00\x00\x18ftypisom"));
    assert!(is_mp4_format(b"\x00\x00\x00\x08free"));
    assert!(is_mp4_format(b"\x00\x00\x00\x08moov"));
    assert!(!is_mp4_format(b"\x00\x00\x00\x08fty"));
    assert!(!is_mp4_format(b"\x00\x00\x00\x08junk"));
}

#[test]
fn avi_and_matroska_magic() {
    assert!(is_avi_format(b"RIFF\x10\x00\x00\x00AVI LIST"));
    assert!(!is_avi_format(b"RIFF\x10\x00\x00\x00WAVE"));
    assert!(is_mkv_format(b"\x1a\x45\xdf\xa3rest"));
    assert!(is_webm_format(b"\x1a\x45\xdf\xa3"));
    assert!(!is_mkv_format(b"\x1a\x45\xdf"));
}

#[test]
fn detection_order() {
    assert!(detect_format(b"\x00\x00\x00\x18ftypisom") == Some(VideoFormat::Mp4));
    assert!(detect_format(b"RIFF\x10\x00\x00\x00AVI LIST") == Some(VideoFormat::Avi));
    assert!(detect_format(b"\x1a\x45\xdf\xa3\x00\x00") == Some(VideoFormat::Mkv));
    assert!(detect_format(b"plain text here") == None);
}

#[test]
fn moov_duration_after_skipped_box() {
    let mut data = boxed(b"free", &[0u8; 8]);
    data.extend(mvhd_v0(1000, 93_500));
    assert_eq!(parse_moov_box(&data), Some((93_500, 1000)));
}

#[test]
fn moov_version_one_reads_64_bit_duration() {
    let mut body = vec![0u8; 44];
    body[0] = 1;
    body[20..24].copy_from_slice(&600u32.to_be_bytes());
    body[24..32].copy_from_slice(&0x1_0000_0002u64.to_be_bytes());
    let data = boxed(b"mvhd", &body);
    assert_eq!(parse_moov_box(&data), Some((0x1_0000_0002, 600)));
}

#[test]
fn moov_truncated_version_one_header_is_not_read() {
    let mut body = vec![0u8; 30];
    body[0] = 1;
    let data = boxed(b"mvhd", &body);
    assert_eq!(parse_moov_box(&data), None);
}

#[test]
fn moov_without_header_or_with_bad_size() {
    assert_eq!(parse_moov_box(&boxed(b"udta", &[0u8; 40])), None);
    let mut data = vec![0, 0, 0, 0];
    data.extend_from_slice(b"free");
    data.extend(mvhd_v0(1, 2));
    assert_eq!(parse_moov_box(&data), None);
    assert_eq!(parse_moov_box(&[]), None);
}

#[test]
fn trak_frame_size_from_fixed_point() {
    let mut body = vec![0u8; 84];
    body[72..76].copy_from_slice(&(1920u32 << 16).to_be_bytes());
    body[76..80].copy_from_slice(&((1080u32 << 16) | 0x8000).to_be_bytes());
    let mut data = boxed(b"edts", &[0u8; 4]);
    data.extend(boxed(b"tkhd", &body));
    assert_eq!(parse_trak_box(&data), Some((1920, 1080)));
}

#[test]
fn trak_with_zero_size_track_is_skipped() {
    let audio = boxed(b"tkhd", &[0u8; 84]);
    let mut body = vec![0u8; 84];
    body[72..76].copy_from_slice(&(640u32 << 16).to_be_bytes());
    body[76..80].copy_from_slice(&(480u32 << 16).to_be_bytes());
    let mut data = audio;
    data.extend(boxed(b"tkhd", &body));
    assert_eq!(parse_trak_box(&data), Some((640, 480)));
}
