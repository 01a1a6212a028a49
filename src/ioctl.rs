//! Request numbers of device-control calls, encoded as the kernel's
//! `asm-generic/ioctl.h` does: two direction bits, fourteen size bits,
//! eight type bits and eight command-number bits.
#![allow(non_snake_case)]

use vstd::prelude::*;

verus! {

pub const IOC_NRSHIFT: u32 = 0;

pub const IOC_TYPESHIFT: u32 = 8;

pub const IOC_SIZESHIFT: u32 = 16;

pub const IOC_DIRSHIFT: u32 = 30;

pub const IOC_NONE: u32 = 0;

pub const IOC_WRITE: u32 = 1;

pub const IOC_READ: u32 = 2;

/// Both directions: `IOC_READ | IOC_WRITE`.
pub const IOC_READ_WRITE: u32 = 3;

/// The request number as the kernel lays it out, when every field fits its width.
pub open spec fn ioc_value(dir: u32, ty: u32, nr: u32, size: u32) -> int {
    dir * 0x4000_0000 + size * 0x1_0000 + ty * 0x100 + nr
}

/// Whether each field fits the width the kernel gives it.
pub open spec fn ioc_fields_fit(dir: u32, ty: u32, nr: u32, size: usize) -> bool {
    dir < 4 && ty < 0x100 && nr < 0x100 && size < 0x4000
}

/// Packs a direction, a type character, a command number and a payload size
/// into one request number.
pub fn _IOC(dir: u32, type_: char, nr: u32, size: usize) -> (r: u32)
    ensures
        r == (dir << IOC_DIRSHIFT) | ((type_ as u32) << IOC_TYPESHIFT) | (nr << IOC_NRSHIFT) | ((
        size as u32) << IOC_SIZESHIFT),
        ioc_fields_fit(dir, type_ as u32, nr, size) ==> r == ioc_value(
            dir,
            type_ as u32,
            nr,
            size as u32,
        ),
{
    let t = type_ as u32;
    let s = size as u32;
    let r = (dir << IOC_DIRSHIFT) | (t << IOC_TYPESHIFT) | (nr << IOC_NRSHIFT) | (s
        << IOC_SIZESHIFT);
    if dir < 4 && t < 0x100 && nr < 0x100 && size < 0x4000 {
        assert(s == size as u32 && s < 0x4000);
        assert(r == dir * 0x4000_0000 + s * 0x1_0000 + t * 0x100 + nr) by (bit_vector)
            requires
                r == (dir << 30u32) | (t << 8u32) | (nr << 0u32) | (s << 16u32),
                dir < 4,
                t < 0x100,
                nr < 0x100,
                s < 0x4000,
        ;
    }
    r
}

/// A request number for a call that carries no payload.
pub fn _IO(type_: char, nr: u32) -> (r: u32)
    ensures
        (type_ as u32) < 0x100 && nr < 0x100 ==> r == ioc_value(IOC_NONE, type_ as u32, nr, 0),
{
    _IOC(IOC_NONE, type_, nr, 0)
}

/// A request number for a call whose payload the kernel writes.
pub fn _IOR(type_: char, nr: u32, size: usize) -> (r: u32)
    ensures
        ioc_fields_fit(IOC_READ, type_ as u32, nr, size) ==> r == ioc_value(
            IOC_READ,
            type_ as u32,
            nr,
            size as u32,
        ),
{
    _IOC(IOC_READ, type_, nr, size)
}

/// A request number for a call whose payload the kernel reads.
pub fn _IOW(type_: char, nr: u32, size: usize) -> (r: u32)
    ensures
        ioc_fields_fit(IOC_WRITE, type_ as u32, nr, size) ==> r == ioc_value(
            IOC_WRITE,
            type_ as u32,
            nr,
            size as u32,
        ),
{
    _IOC(IOC_WRITE, type_, nr, size)
}

/// A request number for a call whose payload goes both ways.
pub fn _IOWR(type_: char, nr: u32, size: usize) -> (r: u32)
    ensures
        ioc_fields_fit(IOC_READ_WRITE, type_ as u32, nr, size) ==> r == ioc_value(
            IOC_READ_WRITE,
            type_ as u32,
            nr,
            size as u32,
        ),
{
    assert(IOC_READ | IOC_WRITE == IOC_READ_WRITE) by (bit_vector);
    _IOC(IOC_READ | IOC_WRITE, type_, nr, size)
}

} // verus!
