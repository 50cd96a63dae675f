//! The kernel release number, unpacked from its one-integer form.

use libc::c_int;
use vstd::prelude::*;

verus! {

/// A kernel release `major.minor.patch`.
///
/// Each component is one byte of the packed form, so a component above 255
/// does not survive packing.
#[derive(Debug, Clone, Copy, PartialEq, Eq)]
pub struct KernelVersion {
    pub major: c_int,
    pub minor: c_int,
    pub patch: c_int,
}

/// The byte of `packed` that starts at bit `shift`.
pub open spec fn byte_at(packed: u32, shift: u32) -> u32 {
    (packed >> shift) & 0xff
}

impl KernelVersion {
    /// The version that `packed` stands for: `major << 16 | minor << 8 | patch`,
    /// the top byte ignored.
    pub open spec fn unpacked(packed: u32) -> KernelVersion {
        KernelVersion {
            major: byte_at(packed, 16) as c_int,
            minor: byte_at(packed, 8) as c_int,
            patch: byte_at(packed, 0) as c_int,
        }
    }

    /// The packed form of this version.
    pub open spec fn packed(self) -> u32 {
        ((self.major as u32) << 16) | ((self.minor as u32) << 8) | (self.patch as u32)
    }

    /// Every component fits in one byte.
    pub open spec fn in_byte_range(self) -> bool {
        &&& 0 <= self.major <= 255
        &&& 0 <= self.minor <= 255
        &&& 0 <= self.patch <= 255
    }
}

/// Unpacks the integer that the kernel-version query returns.
pub fn get_kernel_version(packed: u32) -> (version: KernelVersion)
    ensures
        version == KernelVersion::unpacked(packed),
        version.in_byte_range(),
        version.packed() == packed & 0xff_ffff,
        version.major * 0x1_0000 + version.minor * 0x100 + version.patch == packed % 0x100_0000,
{
    let major: u32 = (packed >> 16) & 0xff;
    let minor: u32 = (packed >> 8) & 0xff;
    let patch: u32 = packed & 0xff;
    proof {
        assert(patch == byte_at(packed, 0)) by (bit_vector)
            requires
                patch == packed & 0xff,
        ;
        lemma_unpack_repack(packed);
        lemma_unpack_weighted(packed);
    }
    KernelVersion { major: major as c_int, minor: minor as c_int, patch: patch as c_int }
}

/// Unpacks the integer that the kernel-version query returns.
///
/// The result depends on `packed` alone: two calls on one integer give equal
/// versions.
pub fn get_kernel_info(packed: u32) -> (version: KernelVersion)
    ensures
        version == KernelVersion::unpacked(packed),
        version.in_byte_range(),
        version.packed() == packed & 0xff_ffff,
{
    get_kernel_version(packed)
}

/// Unpacking an integer and packing the result again gives back its low 24
/// bits: the top byte is the only thing lost.
pub proof fn lemma_unpack_repack(packed: u32)
    ensures
        KernelVersion::unpacked(packed).in_byte_range(),
        KernelVersion::unpacked(packed).packed() == packed & 0xff_ffff,
{
    let a = byte_at(packed, 16);
    let b = byte_at(packed, 8);
    let c = byte_at(packed, 0);
    assert(a <= 255 && b <= 255 && c <= 255 && (a << 16) | (b << 8) | c == packed & 0xff_ffff)
        by (bit_vector)
        requires
            a == (packed >> 16) & 0xff,
            b == (packed >> 8) & 0xff,
            c == (packed >> 0) & 0xff,
    ;
    assert(a as c_int as u32 == a);
    assert(b as c_int as u32 == b);
    assert(c as c_int as u32 == c);
}

/// The components are the base-256 digits of the low 24 bits.
pub proof fn lemma_unpack_weighted(packed: u32)
    ensures
        ({
            let v = KernelVersion::unpacked(packed);
            v.major * 0x1_0000 + v.minor * 0x100 + v.patch == packed % 0x100_0000
        }),
{
    let a = byte_at(packed, 16);
    let b = byte_at(packed, 8);
    let c = byte_at(packed, 0);
    assert(a <= 255 && b <= 255 && c <= 255 && a * 0x1_0000 + b * 0x100 + c == packed
        % 0x100_0000) by (bit_vector)
        requires
            a == (packed >> 16) & 0xff,
            b == (packed >> 8) & 0xff,
            c == (packed >> 0) & 0xff,
    ;
}

/// The low 24 bits decide the version, and all of them do: two integers unpack
/// to the same version exactly when they agree on those bits. One integer
/// unpacked twice gives one version.
pub proof fn lemma_version_decided_by_low_bits(a: u32, b: u32)
    ensures
        KernelVersion::unpacked(a) == KernelVersion::unpacked(b) <==> a & 0xff_ffff == b
            & 0xff_ffff,
        a == b ==> KernelVersion::unpacked(a) == KernelVersion::unpacked(b),
{
    lemma_unpack_repack(a);
    lemma_unpack_repack(b);
    if a & 0xff_ffff == b & 0xff_ffff {
        assert(byte_at(a, 16) == byte_at(b, 16) && byte_at(a, 8) == byte_at(b, 8) && byte_at(a, 0)
            == byte_at(b, 0)) by (bit_vector)
            requires
                a & 0xff_ffff == b & 0xff_ffff,
        ;
    }
}

/// Packing a version whose components fit in a byte and unpacking the result
/// gives the version back.
pub proof fn lemma_pack_unpack(version: KernelVersion)
    requires
        version.in_byte_range(),
    ensures
        KernelVersion::unpacked(version.packed()) == version,
        version.packed() <= 0xff_ffff,
{
    let a = version.major as u32;
    let b = version.minor as u32;
    let c = version.patch as u32;
    let p = (a << 16) | (b << 8) | c;
    assert(((p >> 16) & 0xff) == a && ((p >> 8) & 0xff) == b && ((p >> 0) & 0xff) == c && p
        <= 0xff_ffff) by (bit_vector)
        requires
            a <= 255,
            b <= 255,
            c <= 255,
            p == (a << 16) | (b << 8) | c,
    ;
}

} // verus!
