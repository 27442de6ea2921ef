//! Calls into other crates, and into the standard library where it comes
//! without a specification. The contracts in this file are taken on trust
//! from the sources and the documentation of what they call; everything
//! else in the library is proved from them.

use vstd::prelude::*;

verus! {

/// `cgmath::num_traits::clamp` on `u32`: `min` when `input` is below it,
/// `max` when `input` is above it, `input` otherwise. The callee asserts
/// `min <= max` in debug builds, so callers must establish it.
#[verifier::external_body]
pub(crate) fn clamp_u32(input: u32, min: u32, max: u32) -> (r: u32)
    requires
        min <= max,
    ensures
        r == if input < min { min } else if input > max { max } else { input },
{
    cgmath::num_traits::clamp(input, min, max)
}

/// `ash::vk::QueueFlags::contains` on raw flag words: whether every bit of
/// `wanted` is set in `flags`.
#[verifier::external_body]
pub(crate) fn queue_flags_contain(flags: u32, wanted: u32) -> (r: bool)
    ensures
        r == (flags & wanted == wanted),
{
    ash::vk::QueueFlags::from_raw(flags).contains(ash::vk::QueueFlags::from_raw(wanted))
}

/// `ash::vk::make_version`: the three parts of a version packed into one
/// word, bits shifted out at the top being lost.
#[verifier::external_body]
pub(crate) fn make_version(major: u32, minor: u32, patch: u32) -> (r: u32)
    ensures
        r == (major << 22u32) | (minor << 12u32) | patch,
{
    ash::vk::make_version(major, minor, patch)
}

/// `ash::vk::version_major`: the top ten bits of a packed version.
#[verifier::external_body]
pub(crate) fn version_major(version: u32) -> (r: u32)
    ensures
        r == version >> 22u32,
{
    ash::vk::version_major(version)
}

/// `ash::vk::version_minor`: the ten bits above the lowest twelve.
#[verifier::external_body]
pub(crate) fn version_minor(version: u32) -> (r: u32)
    ensures
        r == (version >> 12u32) & 0x3ff,
{
    ash::vk::version_minor(version)
}

/// `ash::vk::version_patch`: the lowest twelve bits.
#[verifier::external_body]
pub(crate) fn version_patch(version: u32) -> (r: u32)
    ensures
        r == version & 0xfff,
{
    ash::vk::version_patch(version)
}

/// `String::from_utf8`, with the error dropped: the string that `bytes`
/// encode, where they are valid UTF-8.
#[verifier::external_body]
pub(crate) fn string_from_utf8(bytes: Vec<u8>) -> (r: Option<String>)
    ensures
        r is Some <==> vstd::utf8::valid_utf8(bytes@),
        r matches Some(text) ==> text@ == vstd::utf8::decode_utf8(bytes@),
{
    String::from_utf8(bytes).ok()
}

} // verus!
