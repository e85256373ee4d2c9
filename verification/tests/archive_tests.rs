use autolinux::archive::decompress_archive;
use autolinux::archive::sniff_format;
use autolinux::archive::ArchiveFormat;
use std::io::Read;
use std::io::Write;

#[test]
fn xz_magic_selects_xz_decoder() {
    let mut data = vec![0xFDu8, 0x37, 0x7A, 0x58, 0x5A, 0x00];
    data.extend_from_slice(b"anything");
    assert_eq!(sniff_format(&data), ArchiveFormat::Xz);
}

#[test]
fn gzip_magic_selects_gzip() {
    let data = vec![0x1Fu8, 0x8B, 0x08, 0x00, 0x00, 0x00];
    assert_eq!(sniff_format(&data), ArchiveFormat::Gzip);
}

#[test]
fn unknown_magic_falls_back_to_gzip() {
    let data = b"PK\x03\x04junkjunk".to_vec();
    assert_eq!(sniff_format(&data), ArchiveFormat::Gzip);
}

#[test]
fn short_blob_is_padded_for_sniffing() {
    // five bytes of the XZ magic with an implicit zero sixth byte
    let data = vec![0xFDu8, 0x37, 0x7A, 0x58, 0x5A];
    assert_eq!(sniff_format(&data), ArchiveFormat::Xz);
    let data = vec![0x1Fu8];
    assert_eq!(sniff_format(&data), ArchiveFormat::Gzip);
}

#[test]
fn gzip_round_trip() {
    let payload = b"hello rootfs payload".to_vec();
    let mut enc = flate2::write::GzEncoder::new(Vec::new(), flate2::Compression::default());
    enc.write_all(&payload).unwrap();
    let compressed = enc.finish().unwrap();
    let out = decompress_archive(&compressed).unwrap();
    assert_eq!(out, payload);
    assert_ne!(compressed, payload);
}

#[test]
fn xz_round_trip() {
    let payload = b"another rootfs payload".to_vec();
    let mut enc = xz2::read::XzEncoder::new(payload.as_slice(), 6);
    let mut compressed = Vec::new();
    enc.read_to_end(&mut compressed).unwrap();
    assert_eq!(sniff_format(&compressed), ArchiveFormat::Xz);
    let out = decompress_archive(&compressed).unwrap();
    assert_eq!(out, payload);
    assert_ne!(compressed, payload);
}

#[test]
fn corrupt_gzip_reports_extraction_error() {
    let data = b"not an archive at all".to_vec();
    let err = decompress_archive(&data).unwrap_err();
    let msg = err.message();
    assert!(!msg.is_empty());
}
