//! Kernel versions and the daemon variant that fits each.
use procfs::sys::kernel::Version;
use vstd::prelude::*;

verus! {

/// A kernel version: major, minor and patch number.
#[verifier::external_type_specification]
pub struct ExVersion(Version);

/// `Version::new` keeps the three numbers as they are given.
pub assume_specification[ Version::new ](major: u8, minor: u8, patch: u16) -> (v: Version)
    ensures
        v.major == major,
        v.minor == minor,
        v.patch == patch,
;

/// Whether version `v` is `floor` or later: by major number first, then by
/// minor number, then by patch number.
pub open spec fn at_least(v: Version, floor: Version) -> bool {
    v.major > floor.major || (v.major == floor.major && (v.minor > floor.minor || (v.minor
        == floor.minor && v.patch >= floor.patch)))
}

/// The version made of three numbers.
pub open spec fn version(major: u8, minor: u8, patch: u16) -> Version {
    Version { major, minor, patch }
}

/// What `Version::from_str` reads from a release string: the three numbers,
/// or nothing where the string is no version.
pub uninterp spec fn release_version(release: Seq<char>) -> Option<(u8, u8, u16)>;

/// Compares two versions with `>=`, which the kernel version orders by major,
/// then minor, then patch number.
#[verifier::external_body]
pub(crate) fn version_at_least(v: &Version, floor: &Version) -> (res: bool)
    ensures
        res == at_least(*v, *floor),
{
    v >= floor
}

/// Calls `Version::from_str`, which reads `major.minor.patch` from the start
/// of a release string and ignores what follows. The contract only names the
/// result.
#[verifier::external_body]
pub(crate) fn parse_release(release: &str) -> (res: Option<Version>)
    ensures
        match res {
            Some(v) => release_version(release@) == Some((v.major, v.minor, v.patch)),
            None => release_version(release@).is_none(),
        },
{
    Version::from_str(release).ok()
}

/// The daemon variant for a kernel: the latest of 5.8, 5.2, 4.16 and 4.14
/// that the kernel has reached, or nothing for a kernel before 4.14.0.
pub open spec fn daemon_variant(v: Version) -> Option<Seq<char>> {
    if at_least(v, version(5, 8, 0)) {
        Some("5.8"@)
    } else if at_least(v, version(5, 2, 0)) {
        Some("5.2"@)
    } else if at_least(v, version(4, 16, 0)) {
        Some("4.16"@)
    } else if at_least(v, version(4, 14, 0)) {
        Some("4.14"@)
    } else {
        None
    }
}

/// A kernel has a daemon variant exactly from 4.14.0 on, and each variant
/// serves the kernels from its own version up to, and without, the version
/// of the next variant.
pub proof fn variant_brackets(v: Version)
    ensures
        daemon_variant(v).is_some() <==> at_least(v, version(4, 14, 0)),
        daemon_variant(v) == Some("5.8"@) <== at_least(v, version(5, 8, 0)),
        daemon_variant(v) == Some("5.2"@) <== at_least(v, version(5, 2, 0)) && !at_least(
            v,
            version(5, 8, 0),
        ),
        daemon_variant(v) == Some("4.16"@) <== at_least(v, version(4, 16, 0)) && !at_least(
            v,
            version(5, 2, 0),
        ),
        daemon_variant(v) == Some("4.14"@) <== at_least(v, version(4, 14, 0)) && !at_least(
            v,
            version(4, 16, 0),
        ),
        daemon_variant(version(5, 8, 0)) == Some("5.8"@),
        daemon_variant(version(5, 2, 0)) == Some("5.2"@),
        daemon_variant(version(4, 16, 0)) == Some("4.16"@),
        daemon_variant(version(4, 14, 0)) == Some("4.14"@),
        daemon_variant(version(4, 13, 65535)).is_none(),
{
}

} // verus!
