//! The numbers of the two force-feedback requests (`ioctl`) that are watched.
//!
//! A request number packs four fields into 32 bits: the direction in the upper two, the size of
//! the argument in the next fourteen, the group in eight, and the number within the group in the
//! lowest eight.

use vstd::prelude::*;

verus! {

/// The size of the kernel's `struct ff_effect` on x86_64 and aarch64. It is that of the kernel,
/// not of the captured effect: the union in it holds a pointer, which aligns it to eight bytes.
pub const KERNEL_FF_EFFECT_SIZE: u32 = 48;

/// The direction of a request whose argument goes to the kernel, in its place.
pub const IOC_DIR_WRITE: u32 = 1u32 << 30;

/// The fourteen bits of an argument's size.
pub const IOC_SIZE_MASK: u32 = 0x3fff;

/// The group of the requests to input devices, the letter `E`.
pub const IOC_TYPE_EVDEV: u32 = 0x45;

/// The number of the upload of an effect within its group.
pub const EVIOCSFF_NR_BYTE: u32 = 0x80;

/// The number of the erasure of an effect within its group.
pub const EVIOCRMFF_NR_BYTE: u32 = 0x81;

/// The size of the argument of an erasure: the effect id, as an `int`.
pub const EVIOCRMFF_ARG_SIZE: u32 = 4;

/// The request that uploads an effect.
pub const EVIOCSFF_NR: u32 = IOC_DIR_WRITE | ((KERNEL_FF_EFFECT_SIZE & IOC_SIZE_MASK) << 16) | (
IOC_TYPE_EVDEV << 8) | EVIOCSFF_NR_BYTE;

/// The request that erases an effect.
pub const EVIOCRMFF_NR: u32 = IOC_DIR_WRITE | ((EVIOCRMFF_ARG_SIZE & IOC_SIZE_MASK) << 16) | (
IOC_TYPE_EVDEV << 8) | EVIOCRMFF_NR_BYTE;

/// The request with this direction, size, group and number within the group.
pub open spec fn request(direction: nat, size: nat, group: nat, number: nat) -> nat {
    direction * 0x4000_0000 + size * 0x1_0000 + group * 0x100 + number
}

/// The two requests are those that the kernel knows: both write their argument and belong to the
/// input devices; they differ in size and number.
pub proof fn requests_are_packed()
    ensures
        EVIOCSFF_NR == request(
            1,
            KERNEL_FF_EFFECT_SIZE as nat,
            IOC_TYPE_EVDEV as nat,
            EVIOCSFF_NR_BYTE as nat,
        ),
        EVIOCRMFF_NR == request(
            1,
            EVIOCRMFF_ARG_SIZE as nat,
            IOC_TYPE_EVDEV as nat,
            EVIOCRMFF_NR_BYTE as nat,
        ),
        EVIOCSFF_NR == 0x4030_4580,
        EVIOCRMFF_NR == 0x4004_4581,
{
    assert(EVIOCSFF_NR == 0x4030_4580) by (bit_vector);
    assert(EVIOCRMFF_NR == 0x4004_4581) by (bit_vector);
}

/// The request that uploads an effect.
pub fn eviocsff_nr() -> (nr: u32)
    ensures
        nr == EVIOCSFF_NR,
        nr == 0x4030_4580,
{
    proof {
        requests_are_packed();
    }
    EVIOCSFF_NR
}

/// The request that erases an effect.
pub fn eviocrmff_nr() -> (nr: u32)
    ensures
        nr == EVIOCRMFF_NR,
        nr == 0x4004_4581,
{
    proof {
        requests_are_packed();
    }
    EVIOCRMFF_NR
}

/// The two requests that are watched are told apart from each other by their numbers.
pub proof fn requests_are_told_apart(upload: u32, erase: u32)
    requires
        call_ensures(eviocsff_nr, (), upload),
        call_ensures(eviocrmff_nr, (), erase),
    ensures
        upload == 0x4030_4580,
        erase == 0x4004_4581,
{
}

} // verus!
