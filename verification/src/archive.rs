//! Archive format sniffing and decompression.
//!
//! The compression scheme is detected from the first six bytes of the
//! blob: the XZ magic selects the XZ decoder; a gzip magic, or any
//! unrecognized prefix, selects gzip. Decoding itself is delegated to
//! the `flate2` and `xz2` crates behind trusted wrappers.

use vstd::prelude::*;
use crate::error::InstallError;

verus! {

/// The compression schemes the unpacker can decode.
#[derive(PartialEq, Eq, Structural, Clone, Copy, Debug)]
pub enum ArchiveFormat {
    Xz,
    Gzip,
}

/// Byte `i` of the sniffed prefix; short blobs are padded with zeros.
pub open spec fn magic_byte(data: Seq<u8>, i: int) -> u8 {
    if 0 <= i < data.len() {
        data[i]
    } else {
        0
    }
}

/// The first six bytes match the XZ stream magic.
pub open spec fn is_xz_magic(data: Seq<u8>) -> bool {
    &&& magic_byte(data, 0) == 0xFDu8
    &&& magic_byte(data, 1) == 0x37u8
    &&& magic_byte(data, 2) == 0x7Au8
    &&& magic_byte(data, 3) == 0x58u8
    &&& magic_byte(data, 4) == 0x5Au8
    &&& magic_byte(data, 5) == 0x00u8
}

/// The first two bytes match the gzip magic.
pub open spec fn is_gzip_magic(data: Seq<u8>) -> bool {
    magic_byte(data, 0) == 0x1Fu8 && magic_byte(data, 1) == 0x8Bu8
}

/// The scheme selected for a blob: XZ on an XZ magic, otherwise gzip
/// (gzip is also the fallback for unrecognized prefixes).
pub open spec fn spec_sniff(data: Seq<u8>) -> ArchiveFormat {
    if is_xz_magic(data) {
        ArchiveFormat::Xz
    } else {
        ArchiveFormat::Gzip
    }
}

fn magic_at(data: &Vec<u8>, i: usize) -> (r: u8)
    ensures
        r == magic_byte(data@, i as int),
{
    if i < data.len() {
        data[i]
    } else {
        0
    }
}

/// Detects the compression scheme of `data` from its magic prefix.
pub fn sniff_format(data: &Vec<u8>) -> (r: ArchiveFormat)
    ensures
        r == spec_sniff(data@),
{
    if magic_at(data, 0) == 0xFD && magic_at(data, 1) == 0x37 && magic_at(data, 2) == 0x7A
        && magic_at(data, 3) == 0x58 && magic_at(data, 4) == 0x5A && magic_at(data, 5) == 0x00 {
        ArchiveFormat::Xz
    } else {
        ArchiveFormat::Gzip
    }
}

/// What flate2's gzip decoder yields for a blob, or `None` when the
/// blob does not decode.
pub uninterp spec fn gzip_decoded(data: Seq<u8>) -> Option<Seq<u8>>;

/// What xz2's XZ decoder yields for a blob, or `None` when the blob
/// does not decode.
pub uninterp spec fn xz_decoded(data: Seq<u8>) -> Option<Seq<u8>>;

/// Relies on `flate2::read::GzDecoder`: decoding an in-memory gzip
/// stream is a function of the input bytes alone.
#[verifier::external_body]
fn gzip_decompress(data: &Vec<u8>) -> (r: Result<Vec<u8>, String>)
    ensures
        match r {
            Ok(out) => gzip_decoded(data@) == Some(out@),
            Err(_) => gzip_decoded(data@) is None,
        },
{
    let mut dec = flate2::read::GzDecoder::new(data.as_slice());
    let mut out: Vec<u8> = Vec::new();
    match std::io::Read::read_to_end(&mut dec, &mut out) {
        Ok(_) => Ok(out),
        Err(e) => Err(format!("{}", e)),
    }
}

/// Relies on `xz2::read::XzDecoder`: decoding an in-memory XZ stream
/// is a function of the input bytes alone.
#[verifier::external_body]
fn xz_decompress(data: &Vec<u8>) -> (r: Result<Vec<u8>, String>)
    ensures
        match r {
            Ok(out) => xz_decoded(data@) == Some(out@),
            Err(_) => xz_decoded(data@) is None,
        },
{
    let mut dec = xz2::read::XzDecoder::new(data.as_slice());
    let mut out: Vec<u8> = Vec::new();
    match std::io::Read::read_to_end(&mut dec, &mut out) {
        Ok(_) => Ok(out),
        Err(e) => Err(format!("{}", e)),
    }
}

/// The bytes the unpacker obtains for a blob: the decoder chosen by the
/// sniffed magic, applied to the blob.
pub open spec fn spec_decode(data: Seq<u8>) -> Option<Seq<u8>> {
    match spec_sniff(data) {
        ArchiveFormat::Xz => xz_decoded(data),
        ArchiveFormat::Gzip => gzip_decoded(data),
    }
}

/// Decoder selection goes by the magic prefix alone — never by a file
/// extension: a blob whose first six bytes match the XZ magic is
/// decoded as XZ; one with the gzip magic, or with no recognized
/// magic, is decoded as gzip.
pub proof fn lemma_magic_selects_decoder(data: Seq<u8>)
    ensures
        is_xz_magic(data) ==> spec_decode(data) == xz_decoded(data),
        !is_xz_magic(data) ==> spec_decode(data) == gzip_decoded(data),
        is_gzip_magic(data) && !is_xz_magic(data) ==> spec_decode(data) == gzip_decoded(data),
{
}

/// Decompresses an archive blob, selecting the decoder by the sniffed
/// magic prefix: the XZ magic selects XZ; a gzip magic, or anything
/// unrecognized, selects gzip.
pub fn decompress_archive(data: &Vec<u8>) -> (r: Result<Vec<u8>, InstallError>)
    ensures
        match r {
            Ok(out) => spec_decode(data@) == Some(out@),
            Err(e) => spec_decode(data@) is None && e is Extraction,
        },
{
    match sniff_format(data) {
        ArchiveFormat::Xz => match xz_decompress(data) {
            Ok(out) => Ok(out),
            Err(m) => Err(InstallError::Extraction(m)),
        },
        ArchiveFormat::Gzip => match gzip_decompress(data) {
            Ok(out) => Ok(out),
            Err(m) => Err(InstallError::Extraction(m)),
        },
    }
}

} // verus!
