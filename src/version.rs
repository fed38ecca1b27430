//! Bit-packed version tags required in every capture-API and encode-API
//! request structure.
use vstd::prelude::*;

verus! {

/// Major version of the capture API this library speaks.
pub const NVFBC_VERSION_MAJOR: u32 = 1;
/// Minor version of the capture API this library speaks.
pub const NVFBC_VERSION_MINOR: u32 = 8;
/// Major version of the encode API this library speaks.
pub const NVENCAPI_MAJOR_VERSION: u32 = 12;
/// Minor version of the encode API this library speaks.
pub const NVENCAPI_MINOR_VERSION: u32 = 0;
/// Marker the encode API expects in the top bits of every structure version.
pub const NVENC_STRUCT_MARKER: u32 = 7;

/// Capture-API version: the minor number in the low byte, the major number above it.
pub open spec fn capture_api_version(major: u32, minor: u32) -> u32 {
    minor | (major << 8u32)
}

/// Capture-API structure tag: size in the low 16 bits, revision in bits
/// 16..24, API version in the top byte.
pub open spec fn capture_struct_version(size: u32, revision: u32, api: u32) -> u32 {
    size | (revision << 16u32) | (api << 24u32)
}

/// Encode-API version: the major number in the low bits, the minor number in
/// the top byte.
pub open spec fn encode_api_version(major: u32, minor: u32) -> u32 {
    major | (minor << 24u32)
}

/// Encode-API structure tag: API version, revision from bit 16, and the
/// fixed marker in the top four bits.
pub open spec fn encode_struct_version(revision: u32, api: u32) -> u32 {
    api | (revision << 16u32) | (NVENC_STRUCT_MARKER << 28u32)
}

/// The capture-API version this library speaks.
pub fn nvfbc_version() -> (r: u32)
    ensures
        r == capture_api_version(NVFBC_VERSION_MAJOR, NVFBC_VERSION_MINOR),
        r == 0x108,
{
    let r = NVFBC_VERSION_MINOR | (NVFBC_VERSION_MAJOR << 8u32);
    assert(r == 0x108) by (bit_vector)
        requires r == (8u32 | (1u32 << 8u32));
    r
}

/// Version tag for a capture-API structure of `struct_size` bytes at
/// `revision`.
pub fn nvfbc_struct_version(struct_size: u32, revision: u32) -> (r: u32)
    ensures
        r == capture_struct_version(
            struct_size,
            revision,
            capture_api_version(NVFBC_VERSION_MAJOR, NVFBC_VERSION_MINOR),
        ),
{
    struct_size | (revision << 16u32) | (nvfbc_version() << 24u32)
}

/// The encode-API version this library speaks.
pub fn nvenc_version() -> (r: u32)
    ensures
        r == encode_api_version(NVENCAPI_MAJOR_VERSION, NVENCAPI_MINOR_VERSION),
{
    NVENCAPI_MAJOR_VERSION | (NVENCAPI_MINOR_VERSION << 24u32)
}

/// Version tag for an encode-API structure at `revision`.
pub fn nvenc_struct_version(revision: u32) -> (r: u32)
    ensures
        r == encode_struct_version(
            revision,
            encode_api_version(NVENCAPI_MAJOR_VERSION, NVENCAPI_MINOR_VERSION),
        ),
{
    nvenc_version() | (revision << 16u32) | (NVENC_STRUCT_MARKER << 28u32)
}

/// A capture-API structure tag keeps its three fields apart: for a size that
/// fits in 16 bits and a revision that fits in 8, the size, the revision and
/// the low byte of the API version are each read back from their own bits.
pub proof fn lemma_capture_struct_version_fields(size: u32, revision: u32, api: u32)
    requires
        size < 0x1_0000,
        revision < 0x100,
    ensures
        capture_struct_version(size, revision, api) & 0xffffu32 == size,
        (capture_struct_version(size, revision, api) >> 16u32) & 0xffu32 == revision,
        capture_struct_version(size, revision, api) >> 24u32 == api & 0xffu32,
{
    assert((size | (revision << 16u32) | (api << 24u32)) & 0xffffu32 == size) by (bit_vector)
        requires size < 0x1_0000u32, revision < 0x100u32;
    assert(((size | (revision << 16u32) | (api << 24u32)) >> 16u32) & 0xffu32 == revision)
        by (bit_vector)
        requires size < 0x1_0000u32, revision < 0x100u32;
    assert((size | (revision << 16u32) | (api << 24u32)) >> 24u32 == api & 0xffu32)
        by (bit_vector)
        requires size < 0x1_0000u32, revision < 0x100u32;
}

/// An encode-API structure tag keeps its fields apart: for an API version
/// whose major part fits in 16 bits and whose minor part fits in 4, and a
/// revision that fits in 4 bits, each is read back from its own bits and the
/// marker stands in the top four.
pub proof fn lemma_encode_struct_version_fields(major: u32, minor: u32, revision: u32)
    requires
        major < 0x1_0000,
        minor < 0x10,
        revision < 0x10,
    ensures
        encode_struct_version(revision, encode_api_version(major, minor)) & 0xffffu32 == major,
        (encode_struct_version(revision, encode_api_version(major, minor)) >> 16u32) & 0xfu32
            == revision,
        (encode_struct_version(revision, encode_api_version(major, minor)) >> 24u32) & 0xfu32
            == minor,
        encode_struct_version(revision, encode_api_version(major, minor)) >> 28u32
            == NVENC_STRUCT_MARKER,
{
    let t = encode_struct_version(revision, encode_api_version(major, minor));
    assert(t == (major | (minor << 24u32)) | (revision << 16u32) | (7u32 << 28u32));
    assert(((major | (minor << 24u32)) | (revision << 16u32) | (7u32 << 28u32)) & 0xffffu32
        == major) by (bit_vector)
        requires major < 0x1_0000u32, minor < 0x10u32, revision < 0x10u32;
    assert((((major | (minor << 24u32)) | (revision << 16u32) | (7u32 << 28u32)) >> 16u32)
        & 0xfu32 == revision) by (bit_vector)
        requires major < 0x1_0000u32, minor < 0x10u32, revision < 0x10u32;
    assert((((major | (minor << 24u32)) | (revision << 16u32) | (7u32 << 28u32)) >> 24u32)
        & 0xfu32 == minor) by (bit_vector)
        requires major < 0x1_0000u32, minor < 0x10u32, revision < 0x10u32;
    assert(((major | (minor << 24u32)) | (revision << 16u32) | (7u32 << 28u32)) >> 28u32
        == 7u32) by (bit_vector)
        requires major < 0x1_0000u32, minor < 0x10u32, revision < 0x10u32;
}

/// The capture-API version decomposes back into the pair it was built from:
/// the minor number is the low byte and the major number the rest.
pub proof fn lemma_capture_api_version_round_trip(major: u32, minor: u32)
    requires
        major < 0x100_0000,
        minor < 0x100,
    ensures
        capture_api_version(major, minor) & 0xffu32 == minor,
        capture_api_version(major, minor) >> 8u32 == major,
{
    assert((minor | (major << 8u32)) & 0xffu32 == minor) by (bit_vector)
        requires major < 0x100_0000u32, minor < 0x100u32;
    assert((minor | (major << 8u32)) >> 8u32 == major) by (bit_vector)
        requires major < 0x100_0000u32, minor < 0x100u32;
}

/// The encode-API version decomposes back into the pair it was built from:
/// the major number is the low 24 bits and the minor number the top byte.
pub proof fn lemma_encode_api_version_round_trip(major: u32, minor: u32)
    requires
        major < 0x100_0000,
        minor < 0x100,
    ensures
        encode_api_version(major, minor) & 0xff_ffffu32 == major,
        encode_api_version(major, minor) >> 24u32 == minor,
{
    assert((major | (minor << 24u32)) & 0xff_ffffu32 == major) by (bit_vector)
        requires major < 0x100_0000u32, minor < 0x100u32;
    assert((major | (minor << 24u32)) >> 24u32 == minor) by (bit_vector)
        requires major < 0x100_0000u32, minor < 0x100u32;
}

} // verus!
