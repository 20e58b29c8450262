//! Recognition of video container formats by their leading bytes, and the
//! reading of duration and frame size from MP4 (ISO base media) boxes.
use vstd::prelude::*;

verus! {

/// The big-endian 32-bit integer in the four bytes of `d` from `i`.
pub open spec fn be32(d: Seq<u8>, i: int) -> int {
    d[i] as int * 16777216 + d[i + 1] as int * 65536 + d[i + 2] as int * 256 + d[i + 3] as int
}

/// Whether the four bytes of `d` from `i` are `a b c e`.
pub open spec fn tag_at(d: Seq<u8>, i: int, a: u8, b: u8, c: u8, e: u8) -> bool {
    d[i] == a && d[i + 1] == b && d[i + 2] == c && d[i + 3] == e
}

/// A container that begins with an MP4 box of type `ftyp`, `mdat`, `moov`, `wide` or `free`.
pub open spec fn is_mp4_spec(d: Seq<u8>) -> bool {
    d.len() >= 8 && (tag_at(d, 4, 0x66, 0x74, 0x79, 0x70) || tag_at(d, 4, 0x6d, 0x64, 0x61, 0x74)
        || tag_at(d, 4, 0x6d, 0x6f, 0x6f, 0x76) || tag_at(d, 4, 0x77, 0x69, 0x64, 0x65) || tag_at(
        d,
        4,
        0x66,
        0x72,
        0x65,
        0x65,
    ))
}

/// A RIFF file of form `AVI `.
pub open spec fn is_avi_spec(d: Seq<u8>) -> bool {
    d.len() >= 12 && tag_at(d, 0, 0x52, 0x49, 0x46, 0x46) && tag_at(d, 8, 0x41, 0x56, 0x49, 0x20)
}

/// A file that starts with the EBML magic number shared by Matroska and WebM.
pub open spec fn is_ebml_spec(d: Seq<u8>) -> bool {
    d.len() >= 4 && tag_at(d, 0, 0x1a, 0x45, 0xdf, 0xa3)
}

proof fn lemma_be32_bounds(d: Seq<u8>, i: int)
    requires
        0 <= i,
        i + 4 <= d.len(),
    ensures
        0 <= be32(d, i) <= 0xffff_ffff,
{
}

fn read_be32(d: &[u8], i: usize) -> (r: u32)
    requires
        i + 4 <= d@.len(),
    ensures
        r as int == be32(d@, i as int),
{
    proof {
        lemma_be32_bounds(d@, i as int);
    }
    (d[i] as u32) * 16777216 + (d[i + 1] as u32) * 65536 + (d[i + 2] as u32) * 256 + (d[i
        + 3] as u32)
}

fn tag_is(d: &[u8], i: usize, a: u8, b: u8, c: u8, e: u8) -> (r: bool)
    requires
        i + 4 <= d@.len(),
    ensures
        r == tag_at(d@, i as int, a, b, c, e),
{
    d[i] == a && d[i + 1] == b && d[i + 2] == c && d[i + 3] == e
}

/// Whether the first bytes of a file mark it as MP4.
pub fn is_mp4_format(buffer: &[u8]) -> (r: bool)
    ensures
        r == is_mp4_spec(buffer@),
{
    buffer.len() >= 8 && (tag_is(buffer, 4, 0x66, 0x74, 0x79, 0x70) || tag_is(
        buffer,
        4,
        0x6d,
        0x64,
        0x61,
        0x74,
    ) || tag_is(buffer, 4, 0x6d, 0x6f, 0x6f, 0x76) || tag_is(buffer, 4, 0x77, 0x69, 0x64, 0x65)
        || tag_is(buffer, 4, 0x66, 0x72, 0x65, 0x65))
}

/// Whether the first bytes of a file mark it as AVI.
pub fn is_avi_format(buffer: &[u8]) -> (r: bool)
    ensures
        r == is_avi_spec(buffer@),
{
    buffer.len() >= 12 && tag_is(buffer, 0, 0x52, 0x49, 0x46, 0x46) && tag_is(
        buffer,
        8,
        0x41,
        0x56,
        0x49,
        0x20,
    )
}

/// Whether the first bytes of a file mark it as Matroska.
pub fn is_mkv_format(buffer: &[u8]) -> (r: bool)
    ensures
        r == is_ebml_spec(buffer@),
{
    buffer.len() >= 4 && tag_is(buffer, 0, 0x1a, 0x45, 0xdf, 0xa3)
}

/// Whether the first bytes of a file mark it as WebM; WebM is Matroska and
/// shares its magic number.
pub fn is_webm_format(buffer: &[u8]) -> (r: bool)
    ensures
        r == is_ebml_spec(buffer@),
{
    is_mkv_format(buffer)
}

/// The container formats whose metadata can be read.
#[derive(PartialEq, Eq, Structural)]
pub enum VideoFormat {
    Mp4,
    Avi,
    Mkv,
    WebM,
}

/// The format of a file by its first bytes, tested in the order MP4, AVI,
/// Matroska, WebM; `None` for an unsupported format.
pub fn detect_format(buffer: &[u8]) -> (r: Option<VideoFormat>)
    ensures
        r == if is_mp4_spec(buffer@) {
            Some(VideoFormat::Mp4)
        } else if is_avi_spec(buffer@) {
            Some(VideoFormat::Avi)
        } else if is_ebml_spec(buffer@) {
            Some(VideoFormat::Mkv)
        } else {
            None
        },
{
    if is_mp4_format(buffer) {
        Some(VideoFormat::Mp4)
    } else if is_avi_format(buffer) {
        Some(VideoFormat::Avi)
    } else if is_mkv_format(buffer) {
        Some(VideoFormat::Mkv)
    } else if is_webm_format(buffer) {
        Some(VideoFormat::WebM)
    } else {
        None
    }
}

/// The (duration, timescale) of a movie header box (`mvhd`) at `i`, when its
/// fields lie within `d`. Version 1 holds a 64-bit duration at offset 32,
/// version 0 a 32-bit one at offset 24; the timescale comes just before.
pub open spec fn mvhd_fields(d: Seq<u8>, i: int) -> Option<(u64, u32)> {
    let room = d.len() - i;
    let v1 = d[i + 8] == 1;
    let off = if v1 {
        28int
    } else {
        20int
    };
    if i + off + 8 < d.len() && (!v1 || i + off + 12 <= d.len()) {
        let duration = if v1 {
            be32(d, i + off + 4) * 0x1_0000_0000 + be32(d, i + off + 8)
        } else {
            be32(d, i + off + 4)
        };
        Some((duration as u64, be32(d, i + off) as u32))
    } else {
        None
    }
}

/// The (width, height) in whole pixels of a track header box (`tkhd`) at
/// `i`, when its fields lie within `d` and both are positive. The sizes are
/// 16.16 fixed-point numbers at offset 88 (version 1) or 80 (version 0).
pub open spec fn tkhd_fields(d: Seq<u8>, i: int) -> Option<(u32, u32)> {
    let off = if d[i + 8] == 1 {
        88int
    } else {
        80int
    };
    if i + off + 8 < d.len() {
        let w = be32(d, i + off) / 65536;
        let h = be32(d, i + off + 4) / 65536;
        if w > 0 && h > 0 {
            Some((w as u32, h as u32))
        } else {
            None
        }
    } else {
        None
    }
}

/// Walks the boxes of `d` from `i`, each a 32-bit big-endian size and a
/// four-byte type, to the first movie header (`mvhd`) box with more than 32
/// bytes after its start whose fields can be read. The walk ends at a box of
/// size 0 or one that runs past the end.
pub open spec fn moov_scan(d: Seq<u8>, i: int) -> Option<(u64, u32)>
    decreases d.len() - i,
{
    if i < 0 || i + 8 >= d.len() {
        None
    } else if tag_at(d, i + 4, 0x6d, 0x76, 0x68, 0x64) && i + 32 < d.len() && mvhd_fields(
        d,
        i,
    ) is Some {
        mvhd_fields(d, i)
    } else if be32(d, i) == 0 || be32(d, i) > d.len() - i {
        None
    } else {
        moov_scan(d, i + be32(d, i))
    }
}

/// The same walk to the first track header (`tkhd`) box with more than 84
/// bytes after its start that gives a frame size.
pub open spec fn trak_scan(d: Seq<u8>, i: int) -> Option<(u32, u32)>
    decreases d.len() - i,
{
    if i < 0 || i + 8 >= d.len() {
        None
    } else if tag_at(d, i + 4, 0x74, 0x6b, 0x68, 0x64) && i + 84 < d.len() && tkhd_fields(
        d,
        i,
    ) is Some {
        tkhd_fields(d, i)
    } else if be32(d, i) == 0 || be32(d, i) > d.len() - i {
        None
    } else {
        trak_scan(d, i + be32(d, i))
    }
}

fn read_mvhd(d: &[u8], i: usize) -> (r: Option<(u64, u32)>)
    requires
        i + 32 < d@.len(),
    ensures
        r == mvhd_fields(d@, i as int),
{
    let room = d.len() - i;
    let v1 = d[i + 8] == 1;
    let off: usize = if v1 {
        28
    } else {
        20
    };
    if room > off + 8 && (!v1 || room >= off + 12) {
        let timescale = read_be32(d, i + off);
        let duration: u64 = if v1 {
            let hi = read_be32(d, i + off + 4);
            let lo = read_be32(d, i + off + 8);
            (hi as u64) * 0x1_0000_0000 + (lo as u64)
        } else {
            read_be32(d, i + off + 4) as u64
        };
        Some((duration, timescale))
    } else {
        None
    }
}

fn read_tkhd(d: &[u8], i: usize) -> (r: Option<(u32, u32)>)
    requires
        i + 84 < d@.len(),
    ensures
        r == tkhd_fields(d@, i as int),
{
    let room = d.len() - i;
    let off: usize = if d[i + 8] == 1 {
        88
    } else {
        80
    };
    if room > off + 8 {
        let w = read_be32(d, i + off) / 65536;
        let h = read_be32(d, i + off + 4) / 65536;
        if w > 0 && h > 0 {
            Some((w, h))
        } else {
            None
        }
    } else {
        None
    }
}

/// The duration and timescale from the movie header inside a `moov` box's contents.
pub fn parse_moov_box(data: &[u8]) -> (r: Option<(u64, u32)>)
    ensures
        r == moov_scan(data@, 0),
{
    let mut i: usize = 0;
    while i < data.len() && data.len() - i > 8
        invariant
            i <= data@.len(),
            moov_scan(data@, 0) == moov_scan(data@, i as int),
        decreases data@.len() - i,
    {
        if tag_is(data, i + 4, 0x6d, 0x76, 0x68, 0x64) && data.len() - i > 32 {
            let found = read_mvhd(data, i);
            if found.is_some() {
                return found;
            }
        }
        let size = read_be32(data, i) as usize;
        if size == 0 || size > data.len() - i {
            return None;
        }
        i = i + size;
    }
    None
}

/// The frame size from the track header inside a `trak` box's contents.
pub fn parse_trak_box(data: &[u8]) -> (r: Option<(u32, u32)>)
    ensures
        r == trak_scan(data@, 0),
{
    let mut i: usize = 0;
    while i < data.len() && data.len() - i > 8
        invariant
            i <= data@.len(),
            trak_scan(data@, 0) == trak_scan(data@, i as int),
        decreases data@.len() - i,
    {
        if tag_is(data, i + 4, 0x74, 0x6b, 0x68, 0x64) && data.len() - i > 84 {
            let found = read_tkhd(data, i);
            if found.is_some() {
                return found;
            }
        }
        let size = read_be32(data, i) as usize;
        if size == 0 || size > data.len() - i {
            return None;
        }
        i = i + size;
    }
    None
}

} // verus!
