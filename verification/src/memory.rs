//! The segmented virtual-address memory subsystem: a fixed table of inclusive
//! virtual ranges, each mapping to one named physical region at a computed
//! offset. Several ranges intentionally alias the same region (cached,
//! uncached and segment views of main memory; three views of the boot ROM).
//! Mirroring is purely a translation-layer concept: every region owns its
//! bytes exactly once.

#![allow(non_upper_case_globals)]

use vstd::prelude::*;

verus! {

pub const KiB: usize = 1024;

pub const MiB: usize = 1024 * KiB;

pub const MAIN_MEMORY_SIZE: usize = 32 * MiB;

/// Sized to back its whole mapped window (0x10000000..=0x10018FFF).
pub const IO_REGISTERS_SIZE: usize = 0x19000;

pub const VU0_CODE_SIZE: usize = 4 * KiB;

pub const VU0_DATA_SIZE: usize = 4 * KiB;

pub const VU1_CODE_SIZE: usize = 16 * KiB;

pub const VU1_DATA_SIZE: usize = 16 * KiB;

pub const GS_PRIVILEGED_SIZE: usize = 8 * KiB;

pub const IOP_MEMORY_SIZE: usize = 2 * MiB;

pub const BIOS_SIZE: usize = 4 * MiB;

pub const SCRATCHPAD_SIZE: usize = 16 * KiB;

/// A resolved virtual address: the physical region it falls in, together with
/// the byte offset inside that region.
#[derive(Clone, Copy, Debug, PartialEq, Eq, Structural)]
pub enum AddressLocation {
    MainEEMemory(u32),
    IORegisters(u32),
    VU0CodeMemory(u32),
    VU0DataMemory(u32),
    VU1CodeMemory(u32),
    VU1DataMemory(u32),
    GSPrivilegedRegisters(u32),
    IOPMemory(u32),
    BIOSMemory(u32),
    Scratchpad(u32),
}

/// A failed memory access: the address lies in no declared virtual range, or
/// the access would run past the end of the region backing its range.
#[derive(Clone, Copy, Debug, PartialEq, Eq, Structural)]
pub enum MemoryError {
    UnmappedAddress,
    RegionOverrun,
}

/// The byte contents of every physical region, as plain sequences.
#[verifier::ext_equal]
pub struct MemoryContents {
    pub main: Seq<u8>,
    pub io_registers: Seq<u8>,
    pub vu0_code: Seq<u8>,
    pub vu0_data: Seq<u8>,
    pub vu1_code: Seq<u8>,
    pub vu1_data: Seq<u8>,
    pub gs_privileged: Seq<u8>,
    pub iop: Seq<u8>,
    pub bios: Seq<u8>,
    pub scratchpad: Seq<u8>,
}

/// Owns the backing byte storage for every physical region.
pub struct Memory {
    ee_main_memory: Vec<u8>,
    io_registers: Vec<u8>,
    vu0_code_memory: Vec<u8>,
    vu0_data_memory: Vec<u8>,
    vu1_code_memory: Vec<u8>,
    vu1_data_memory: Vec<u8>,
    gs_privileged_registers: Vec<u8>,
    iop_memory: Vec<u8>,
    bios: Vec<u8>,
    scratchpad: Vec<u8>,
}

impl View for Memory {
    type V = MemoryContents;

    closed spec fn view(&self) -> MemoryContents {
        MemoryContents {
            main: self.ee_main_memory@,
            io_registers: self.io_registers@,
            vu0_code: self.vu0_code_memory@,
            vu0_data: self.vu0_data_memory@,
            vu1_code: self.vu1_code_memory@,
            vu1_data: self.vu1_data_memory@,
            gs_privileged: self.gs_privileged_registers@,
            iop: self.iop_memory@,
            bios: self.bios@,
            scratchpad: self.scratchpad@,
        }
    }
}

/// Every region holds exactly as many bytes as its declared size, so every
/// address inside a declared virtual range is backed by storage.
pub open spec fn contents_wf(m: MemoryContents) -> bool {
    &&& m.main.len() == MAIN_MEMORY_SIZE
    &&& m.io_registers.len() == IO_REGISTERS_SIZE
    &&& m.vu0_code.len() == VU0_CODE_SIZE
    &&& m.vu0_data.len() == VU0_DATA_SIZE
    &&& m.vu1_code.len() == VU1_CODE_SIZE
    &&& m.vu1_data.len() == VU1_DATA_SIZE
    &&& m.gs_privileged.len() == GS_PRIVILEGED_SIZE
    &&& m.iop.len() == IOP_MEMORY_SIZE
    &&& m.bios.len() == BIOS_SIZE
    &&& m.scratchpad.len() == SCRATCHPAD_SIZE
}

/// The fixed translation table, as a mathematical function. Each arm is one
/// declared inclusive virtual range; an address in none of them translates to
/// `None`.
pub open spec fn translate_spec(address: u32) -> Option<AddressLocation> {
    if address <= 0x01FFFFFF {
        Some(AddressLocation::MainEEMemory(address))
    } else if 0x20000000 <= address && address <= 0x21FFFFFF {
        Some(AddressLocation::MainEEMemory((address - 0x20000000) as u32))
    } else if 0x30100000 <= address && address <= 0x31FFFFFF {
        Some(AddressLocation::MainEEMemory((address - 0x30000000) as u32))
    } else if 0x10000000 <= address && address <= 0x10018FFF {
        Some(AddressLocation::IORegisters((address - 0x10000000) as u32))
    } else if 0x11000000 <= address && address <= 0x11000FFF {
        Some(AddressLocation::VU0CodeMemory((address - 0x11000000) as u32))
    } else if 0x11004000 <= address && address <= 0x11004FFF {
        Some(AddressLocation::VU0DataMemory((address - 0x11004000) as u32))
    } else if 0x11008000 <= address && address <= 0x1100BFFF {
        Some(AddressLocation::VU1CodeMemory((address - 0x11008000) as u32))
    } else if 0x1100C000 <= address && address <= 0x1100FFFF {
        Some(AddressLocation::VU1DataMemory((address - 0x1100C000) as u32))
    } else if 0x12000000 <= address && address <= 0x12001FFF {
        Some(AddressLocation::GSPrivilegedRegisters((address - 0x12000000) as u32))
    } else if 0x1C000000 <= address && address <= 0x1C1FFFFF {
        Some(AddressLocation::IOPMemory((address - 0x1C000000) as u32))
    } else if 0x1FC00000 <= address && address <= 0x1FFFFFFF {
        Some(AddressLocation::BIOSMemory((address - 0x1FC00000) as u32))
    } else if 0x9FC00000 <= address && address <= 0x9FFFFFFF {
        Some(AddressLocation::BIOSMemory((address - 0x9FC00000) as u32))
    } else if 0xBFC00000 <= address && address <= 0xBFFFFFFF {
        Some(AddressLocation::BIOSMemory((address - 0xBFC00000) as u32))
    } else if 0x70000000 <= address && address <= 0x70003FFF {
        Some(AddressLocation::Scratchpad((address - 0x70000000) as u32))
    } else {
        None
    }
}

/// The in-region byte offset a translation resolved to.
pub open spec fn location_offset(location: AddressLocation) -> u32 {
    match location {
        AddressLocation::MainEEMemory(offset) => offset,
        AddressLocation::IORegisters(offset) => offset,
        AddressLocation::VU0CodeMemory(offset) => offset,
        AddressLocation::VU0DataMemory(offset) => offset,
        AddressLocation::VU1CodeMemory(offset) => offset,
        AddressLocation::VU1DataMemory(offset) => offset,
        AddressLocation::GSPrivilegedRegisters(offset) => offset,
        AddressLocation::IOPMemory(offset) => offset,
        AddressLocation::BIOSMemory(offset) => offset,
        AddressLocation::Scratchpad(offset) => offset,
    }
}

/// The bytes of the region a translation resolved to.
pub open spec fn region_of(m: MemoryContents, location: AddressLocation) -> Seq<u8> {
    match location {
        AddressLocation::MainEEMemory(_) => m.main,
        AddressLocation::IORegisters(_) => m.io_registers,
        AddressLocation::VU0CodeMemory(_) => m.vu0_code,
        AddressLocation::VU0DataMemory(_) => m.vu0_data,
        AddressLocation::VU1CodeMemory(_) => m.vu1_code,
        AddressLocation::VU1DataMemory(_) => m.vu1_data,
        AddressLocation::GSPrivilegedRegisters(_) => m.gs_privileged,
        AddressLocation::IOPMemory(_) => m.iop,
        AddressLocation::BIOSMemory(_) => m.bios,
        AddressLocation::Scratchpad(_) => m.scratchpad,
    }
}

/// The contents after the region of `location` is replaced by `bytes`; every
/// other region keeps its bytes.
pub open spec fn with_region(
    m: MemoryContents,
    location: AddressLocation,
    bytes: Seq<u8>,
) -> MemoryContents {
    match location {
        AddressLocation::MainEEMemory(_) => MemoryContents { main: bytes, ..m },
        AddressLocation::IORegisters(_) => MemoryContents { io_registers: bytes, ..m },
        AddressLocation::VU0CodeMemory(_) => MemoryContents { vu0_code: bytes, ..m },
        AddressLocation::VU0DataMemory(_) => MemoryContents { vu0_data: bytes, ..m },
        AddressLocation::VU1CodeMemory(_) => MemoryContents { vu1_code: bytes, ..m },
        AddressLocation::VU1DataMemory(_) => MemoryContents { vu1_data: bytes, ..m },
        AddressLocation::GSPrivilegedRegisters(_) => MemoryContents {
            gs_privileged: bytes,
            ..m
        },
        AddressLocation::IOPMemory(_) => MemoryContents { iop: bytes, ..m },
        AddressLocation::BIOSMemory(_) => MemoryContents { bios: bytes, ..m },
        AddressLocation::Scratchpad(_) => MemoryContents { scratchpad: bytes, ..m },
    }
}

/// `bytes` spliced into `s` starting at `offset`; everything outside the
/// spliced window keeps its byte.
pub open spec fn overwrite(s: Seq<u8>, offset: int, bytes: Seq<u8>) -> Seq<u8> {
    Seq::new(
        s.len(),
        |i: int|
            if offset <= i < offset + bytes.len() {
                bytes[i - offset]
            } else {
                s[i]
            },
    )
}

/// An all-zero byte sequence of the given length.
pub open spec fn zero_bytes(n: nat) -> Seq<u8> {
    Seq::new(n, |i: int| 0u8)
}

/// What a read returns: the `length` bytes at the translated location, or the
/// error naming exactly why the access failed.
pub open spec fn read_spec(m: MemoryContents, address: u32, length: nat) -> Result<
    Seq<u8>,
    MemoryError,
> {
    match translate_spec(address) {
        None => Err(MemoryError::UnmappedAddress),
        Some(location) => {
            let region = region_of(m, location);
            let offset = location_offset(location);
            if offset + length <= region.len() {
                Ok(region.subrange(offset as int, offset + length))
            } else {
                Err(MemoryError::RegionOverrun)
            }
        },
    }
}

/// What a write produces: the contents with `bytes` spliced into the
/// translated region, or the error naming exactly why the access failed.
pub open spec fn write_spec(m: MemoryContents, address: u32, bytes: Seq<u8>) -> Result<
    MemoryContents,
    MemoryError,
> {
    match translate_spec(address) {
        None => Err(MemoryError::UnmappedAddress),
        Some(location) => {
            let region = region_of(m, location);
            let offset = location_offset(location);
            if offset + bytes.len() <= region.len() {
                Ok(with_region(m, location, overwrite(region, offset as int, bytes)))
            } else {
                Err(MemoryError::RegionOverrun)
            }
        },
    }
}

/// Resolves a virtual address against the fixed range table.
pub fn translate_virt_address(address: u32) -> (r: Option<AddressLocation>)
    ensures
        r == translate_spec(address),
{
    if address <= 0x01FFFFFF {
        Some(AddressLocation::MainEEMemory(address))
    } else if 0x20000000 <= address && address <= 0x21FFFFFF {
        Some(AddressLocation::MainEEMemory(address - 0x20000000))
    } else if 0x30100000 <= address && address <= 0x31FFFFFF {
        Some(AddressLocation::MainEEMemory(address - 0x30000000))
    } else if 0x10000000 <= address && address <= 0x10018FFF {
        Some(AddressLocation::IORegisters(address - 0x10000000))
    } else if 0x11000000 <= address && address <= 0x11000FFF {
        Some(AddressLocation::VU0CodeMemory(address - 0x11000000))
    } else if 0x11004000 <= address && address <= 0x11004FFF {
        Some(AddressLocation::VU0DataMemory(address - 0x11004000))
    } else if 0x11008000 <= address && address <= 0x1100BFFF {
        Some(AddressLocation::VU1CodeMemory(address - 0x11008000))
    } else if 0x1100C000 <= address && address <= 0x1100FFFF {
        Some(AddressLocation::VU1DataMemory(address - 0x1100C000))
    } else if 0x12000000 <= address && address <= 0x12001FFF {
        Some(AddressLocation::GSPrivilegedRegisters(address - 0x12000000))
    } else if 0x1C000000 <= address && address <= 0x1C1FFFFF {
        Some(AddressLocation::IOPMemory(address - 0x1C000000))
    } else if 0x1FC00000 <= address && address <= 0x1FFFFFFF {
        Some(AddressLocation::BIOSMemory(address - 0x1FC00000))
    } else if 0x9FC00000 <= address && address <= 0x9FFFFFFF {
        Some(AddressLocation::BIOSMemory(address - 0x9FC00000))
    } else if 0xBFC00000 <= address && address <= 0xBFFFFFFF {
        Some(AddressLocation::BIOSMemory(address - 0xBFC00000))
    } else if 0x70000000 <= address && address <= 0x70003FFF {
        Some(AddressLocation::Scratchpad(address - 0x70000000))
    } else {
        None
    }
}

/// A vector of `n` zero bytes.
fn zeroed_vec(n: usize) -> (r: Vec<u8>)
    ensures
        r@ == zero_bytes(n as nat),
{
    let mut v: Vec<u8> = Vec::new();
    let mut i: usize = 0;
    while i < n
        invariant
            i <= n,
            v@.len() == i,
            forall|j: int| 0 <= j < i ==> v@[j] == 0u8,
        decreases n - i,
    {
        v.push(0u8);
        i = i + 1;
    }
    proof {
        assert(v@ =~= zero_bytes(n as nat));
    }
    v
}

/// A vector holding the same bytes as the slice.
fn bytes_to_vec(s: &[u8]) -> (r: Vec<u8>)
    ensures
        r@ == s@,
{
    let mut v: Vec<u8> = Vec::new();
    let mut i: usize = 0;
    while i < s.len()
        invariant
            i <= s@.len(),
            v@ == s@.subrange(0, i as int),
        decreases s@.len() - i,
    {
        let b = s[i];
        v.push(b);
        proof {
            assert(v@ =~= s@.subrange(0, i + 1));
        }
        i = i + 1;
    }
    proof {
        assert(v@ =~= s@);
    }
    v
}

/// Copies `length` bytes out of `region` starting at `offset`.
fn read_region(region: &Vec<u8>, offset: usize, length: usize) -> (r: Vec<u8>)
    requires
        offset + length <= region@.len(),
    ensures
        r@ == region@.subrange(offset as int, offset + length),
{
    let mut v: Vec<u8> = Vec::new();
    let region_len = region.len();
    let mut i: usize = 0;
    while i < length
        invariant
            i <= length,
            region@.len() == region_len,
            offset + length <= region_len,
            v@ == region@.subrange(offset as int, offset + i),
        decreases length - i,
    {
        let b = region[offset + i];
        v.push(b);
        proof {
            assert(v@ =~= region@.subrange(offset as int, offset + i + 1));
        }
        i = i + 1;
    }
    v
}

/// Copies `bytes` into `region` starting at `offset`, byte for byte, length
/// for length; a write that would run past the end of the region fails whole
/// and changes nothing.
fn write_region(region: &mut Vec<u8>, offset: u32, bytes: &[u8]) -> (r: Result<(), MemoryError>)
    ensures
        offset + bytes@.len() <= old(region)@.len() ==> {
            &&& r == Ok::<(), MemoryError>(())
            &&& final(region)@ == overwrite(old(region)@, offset as int, bytes@)
        },
        offset + bytes@.len() > old(region)@.len() ==> {
            &&& r == Err::<(), MemoryError>(MemoryError::RegionOverrun)
            &&& final(region)@ == old(region)@
        },
{
    let offset_usize = offset as usize;
    if bytes.len() > region.len() || offset_usize > region.len() - bytes.len() {
        return Err(MemoryError::RegionOverrun);
    }
    let region_len = region.len();
    let mut i: usize = 0;
    while i < bytes.len()
        invariant
            i <= bytes@.len(),
            offset_usize == offset,
            offset + bytes@.len() <= region_len,
            region@.len() == region_len,
            region_len == old(region)@.len(),
            forall|j: int|
                0 <= j < region@.len() ==> region@[j] == (if offset <= j < offset + i {
                    bytes@[j - offset]
                } else {
                    old(region)@[j]
                }),
        decreases bytes@.len() - i,
    {
        let b = bytes[i];
        region[offset_usize + i] = b;
        i = i + 1;
    }
    proof {
        assert(region@ =~= overwrite(old(region)@, offset as int, bytes@));
    }
    Ok(())
}

impl Memory {
    /// Every region backs its declared size.
    pub open spec fn wf(&self) -> bool {
        contents_wf(self@)
    }

    /// Builds the memory map: the boot-ROM image is copied verbatim into the
    /// BIOS region, and every other region starts zeroed.
    pub fn new(bios: &[u8]) -> (r: Memory)
        requires
            bios@.len() == BIOS_SIZE,
        ensures
            r.wf(),
            r@.bios == bios@,
            r@.main == zero_bytes(MAIN_MEMORY_SIZE as nat),
            r@.io_registers == zero_bytes(IO_REGISTERS_SIZE as nat),
            r@.vu0_code == zero_bytes(VU0_CODE_SIZE as nat),
            r@.vu0_data == zero_bytes(VU0_DATA_SIZE as nat),
            r@.vu1_code == zero_bytes(VU1_CODE_SIZE as nat),
            r@.vu1_data == zero_bytes(VU1_DATA_SIZE as nat),
            r@.gs_privileged == zero_bytes(GS_PRIVILEGED_SIZE as nat),
            r@.iop == zero_bytes(IOP_MEMORY_SIZE as nat),
            r@.scratchpad == zero_bytes(SCRATCHPAD_SIZE as nat),
    {
        Memory {
            ee_main_memory: zeroed_vec(MAIN_MEMORY_SIZE),
            io_registers: zeroed_vec(IO_REGISTERS_SIZE),
            vu0_code_memory: zeroed_vec(VU0_CODE_SIZE),
            vu0_data_memory: zeroed_vec(VU0_DATA_SIZE),
            vu1_code_memory: zeroed_vec(VU1_CODE_SIZE),
            vu1_data_memory: zeroed_vec(VU1_DATA_SIZE),
            gs_privileged_registers: zeroed_vec(GS_PRIVILEGED_SIZE),
            iop_memory: zeroed_vec(IOP_MEMORY_SIZE),
            bios: bytes_to_vec(bios),
            scratchpad: zeroed_vec(SCRATCHPAD_SIZE),
        }
    }

    /// Reads `length` bytes at a virtual address. An address outside every
    /// declared range, or a read running past its region's end, is an error,
    /// never a wrap and never a clamp.
    pub fn read_address(&self, virt_address: u32, length: usize) -> (r: Result<
        Vec<u8>,
        MemoryError,
    >)
        ensures
            (match r {
                Ok(bytes) => read_spec(self@, virt_address, length as nat) == Ok::<
                    Seq<u8>,
                    MemoryError,
                >(bytes@),
                Err(e) => read_spec(self@, virt_address, length as nat) == Err::<
                    Seq<u8>,
                    MemoryError,
                >(e),
            }),
    {
        let location = match translate_virt_address(virt_address) {
            None => {
                return Err(MemoryError::UnmappedAddress);
            },
            Some(location) => location,
        };
        let (region, offset): (&Vec<u8>, u32) = match location {
            AddressLocation::MainEEMemory(offset) => (&self.ee_main_memory, offset),
            AddressLocation::IORegisters(offset) => (&self.io_registers, offset),
            AddressLocation::VU0CodeMemory(offset) => (&self.vu0_code_memory, offset),
            AddressLocation::VU0DataMemory(offset) => (&self.vu0_data_memory, offset),
            AddressLocation::VU1CodeMemory(offset) => (&self.vu1_code_memory, offset),
            AddressLocation::VU1DataMemory(offset) => (&self.vu1_data_memory, offset),
            AddressLocation::GSPrivilegedRegisters(offset) => (
                &self.gs_privileged_registers,
                offset,
            ),
            AddressLocation::IOPMemory(offset) => (&self.iop_memory, offset),
            AddressLocation::BIOSMemory(offset) => (&self.bios, offset),
            AddressLocation::Scratchpad(offset) => (&self.scratchpad, offset),
        };
        let offset_usize = offset as usize;
        if length > region.len() || offset_usize > region.len() - length {
            return Err(MemoryError::RegionOverrun);
        }
        Ok(read_region(region, offset_usize, length))
    }

    /// Writes all of `bytes` at a virtual address. An address outside every
    /// declared range, or a write that would run past its region's end, is an
    /// error and leaves every region unchanged; there is no partial write.
    pub fn write_address(&mut self, virt_address: u32, bytes: &[u8]) -> (r: Result<
        (),
        MemoryError,
    >)
        ensures
            (match write_spec(old(self)@, virt_address, bytes@) {
                Ok(m) => r == Ok::<(), MemoryError>(()) && final(self)@ == m,
                Err(e) => r == Err::<(), MemoryError>(e) && final(self)@ == old(self)@,
            }),
            old(self).wf() ==> final(self).wf(),
    {
        let location = match translate_virt_address(virt_address) {
            None => {
                return Err(MemoryError::UnmappedAddress);
            },
            Some(location) => location,
        };
        let r = match location {
            AddressLocation::MainEEMemory(offset) => write_region(
                &mut self.ee_main_memory,
                offset,
                bytes,
            ),
            AddressLocation::IORegisters(offset) => write_region(
                &mut self.io_registers,
                offset,
                bytes,
            ),
            AddressLocation::VU0CodeMemory(offset) => write_region(
                &mut self.vu0_code_memory,
                offset,
                bytes,
            ),
            AddressLocation::VU0DataMemory(offset) => write_region(
                &mut self.vu0_data_memory,
                offset,
                bytes,
            ),
            AddressLocation::VU1CodeMemory(offset) => write_region(
                &mut self.vu1_code_memory,
                offset,
                bytes,
            ),
            AddressLocation::VU1DataMemory(offset) => write_region(
                &mut self.vu1_data_memory,
                offset,
                bytes,
            ),
            AddressLocation::GSPrivilegedRegisters(offset) => write_region(
                &mut self.gs_privileged_registers,
                offset,
                bytes,
            ),
            AddressLocation::IOPMemory(offset) => write_region(&mut self.iop_memory, offset, bytes),
            AddressLocation::BIOSMemory(offset) => write_region(&mut self.bios, offset, bytes),
            AddressLocation::Scratchpad(offset) => write_region(&mut self.scratchpad, offset, bytes),
        };
        proof {
            if r is Ok {
                let location_spec = translate_spec(virt_address).unwrap();
                assert(self@ =~= with_region(
                    old(self)@,
                    location_spec,
                    overwrite(
                        region_of(old(self)@, location_spec),
                        location_offset(location_spec) as int,
                        bytes@,
                    ),
                ));
            } else {
                assert(self@ =~= old(self)@);
            }
        }
        r
    }
}

} // verus!
