//! The sections of a header and their byte layout.
//!
//! All integers are little-endian. Every optional section starts with a four
//! byte TLV prefix: a type tag and the length of the payload, the prefix and
//! any alignment padding not counted.

use vstd::prelude::*;
use crate::align::{alignment_gap, amount_alignment_needed, do_pad, lemma_alignment_gap, zeros};
use crate::wire::{put_u16, put_u32, u16_le, u32_le};

verus! {

/// Format version written into every header.
pub const TBF_VERSION: u16 = 2;

/// Flag bit that marks the application as enabled.
pub const FLAG_ENABLED: u32 = 0x0000_0001;

/// Value stored for a fixed address that was not requested.
pub const NO_FIXED_ADDRESS: u32 = 0xFFFF_FFFF;

/// Length in bytes of a TLV prefix.
pub const TLV_LEN: usize = 4;

/// Length in bytes of the base header.
pub const BASE_LEN: usize = 16;

/// Length in bytes of the main section, prefix included.
pub const MAIN_LEN: usize = 20;

/// Length in bytes of one writeable flash region section, prefix included.
pub const REGION_LEN: usize = 12;

/// Length in bytes of the fixed addresses section, prefix included.
pub const FIXED_ADDRESSES_LEN: usize = 12;

/// The kinds of TLV section.
#[derive(Clone, Copy, Debug)]
pub enum TbfHeaderTypes {
    Main,
    WriteableFlashRegions,
    PackageName,
    PicOption1,
    FixedAddresses,
}

impl TbfHeaderTypes {
    /// The tag that stands for this kind in the encoded header.
    pub open spec fn tag(self) -> u16 {
        match self {
            TbfHeaderTypes::Main => 1,
            TbfHeaderTypes::WriteableFlashRegions => 2,
            TbfHeaderTypes::PackageName => 3,
            TbfHeaderTypes::PicOption1 => 4,
            TbfHeaderTypes::FixedAddresses => 5,
        }
    }

    /// The tag that stands for this kind in the encoded header.
    pub fn code(self) -> (code: u16)
        ensures
            code == self.tag(),
    {
        match self {
            TbfHeaderTypes::Main => 1,
            TbfHeaderTypes::WriteableFlashRegions => 2,
            TbfHeaderTypes::PackageName => 3,
            TbfHeaderTypes::PicOption1 => 4,
            TbfHeaderTypes::FixedAddresses => 5,
        }
    }
}

/// The prefix of a TLV section.
#[derive(Clone, Copy, Debug)]
pub struct TbfHeaderTlv {
    pub tipe: TbfHeaderTypes,
    pub length: u16,
}

impl TbfHeaderTlv {
    /// Tag, then payload length.
    pub open spec fn bytes(self) -> Seq<u8> {
        u16_le(self.tipe.tag()) + u16_le(self.length)
    }

    /// Appends the prefix to `output`.
    pub fn write_to(&self, output: &mut Vec<u8>)
        ensures
            final(output)@ == old(output)@ + self.bytes(),
    {
        put_u16(output, self.tipe.code());
        put_u16(output, self.length);
        assert(output@ =~= old(output)@ + self.bytes());
    }
}

/// The fields of the base header that a caller decides. The version is fixed
/// and the checksum is computed when the header is encoded.
#[derive(Clone, Copy, Debug)]
pub struct TbfHeaderBase {
    pub header_size: u16,
    pub total_size: u32,
    pub flags: u32,
}

impl TbfHeaderBase {
    /// Version, header size, total size, flags and a zero checksum field.
    pub open spec fn bytes(self) -> Seq<u8> {
        u16_le(TBF_VERSION) + u16_le(self.header_size) + u32_le(self.total_size) + u32_le(
            self.flags,
        ) + u32_le(0)
    }

    /// Appends the base header, its checksum field zero, to `output`.
    pub fn write_to(&self, output: &mut Vec<u8>)
        ensures
            final(output)@ == old(output)@ + self.bytes(),
    {
        put_u16(output, TBF_VERSION);
        put_u16(output, self.header_size);
        put_u32(output, self.total_size);
        put_u32(output, self.flags);
        put_u32(output, 0);
        assert(output@ =~= old(output)@ + self.bytes());
    }
}

/// The payload of the main section.
#[derive(Clone, Copy, Debug)]
pub struct TbfHeaderMain {
    pub init_fn_offset: u32,
    pub protected_size: u32,
    pub minimum_ram_size: u32,
    pub app_id: u32,
}

impl TbfHeaderMain {
    /// The prefix of the main section.
    pub open spec fn tlv() -> TbfHeaderTlv {
        TbfHeaderTlv { tipe: TbfHeaderTypes::Main, length: 16 }
    }

    /// Prefix, entry offset, protected size, minimum RAM size, identifier.
    pub open spec fn bytes(self) -> Seq<u8> {
        Self::tlv().bytes() + u32_le(self.init_fn_offset) + u32_le(self.protected_size) + u32_le(
            self.minimum_ram_size,
        ) + u32_le(self.app_id)
    }

    /// Appends the main section to `output`.
    pub fn write_to(&self, output: &mut Vec<u8>)
        ensures
            final(output)@ == old(output)@ + self.bytes(),
    {
        let tlv = TbfHeaderTlv { tipe: TbfHeaderTypes::Main, length: 16 };
        tlv.write_to(output);
        put_u32(output, self.init_fn_offset);
        put_u32(output, self.protected_size);
        put_u32(output, self.minimum_ram_size);
        put_u32(output, self.app_id);
        assert(output@ =~= old(output)@ + self.bytes());
    }
}

/// The payload of one writeable flash region section. A region whose size is
/// zero is a slot that has not been filled.
#[derive(Clone, Copy, Debug)]
pub struct TbfHeaderWriteableFlashRegion {
    pub offset: u32,
    pub size: u32,
}

impl TbfHeaderWriteableFlashRegion {
    /// The prefix of a writeable flash region section.
    pub open spec fn tlv() -> TbfHeaderTlv {
        TbfHeaderTlv { tipe: TbfHeaderTypes::WriteableFlashRegions, length: 8 }
    }

    /// The slot that has not been filled.
    pub open spec fn unset() -> Self {
        TbfHeaderWriteableFlashRegion { offset: 0, size: 0 }
    }

    /// Prefix, offset, size.
    pub open spec fn bytes(self) -> Seq<u8> {
        Self::tlv().bytes() + u32_le(self.offset) + u32_le(self.size)
    }

    /// Appends the section to `output`.
    pub fn write_to(&self, output: &mut Vec<u8>)
        ensures
            final(output)@ == old(output)@ + self.bytes(),
    {
        let tlv = TbfHeaderTlv { tipe: TbfHeaderTypes::WriteableFlashRegions, length: 8 };
        tlv.write_to(output);
        put_u32(output, self.offset);
        put_u32(output, self.size);
        assert(output@ =~= old(output)@ + self.bytes());
    }
}

/// The payload of the fixed addresses section.
#[derive(Clone, Copy, Debug)]
pub struct TbfHeaderFixedAddresses {
    pub start_process_ram: u32,
    pub start_process_flash: u32,
}

impl TbfHeaderFixedAddresses {
    /// The prefix of the fixed addresses section.
    pub open spec fn tlv() -> TbfHeaderTlv {
        TbfHeaderTlv { tipe: TbfHeaderTypes::FixedAddresses, length: 8 }
    }

    /// Prefix, RAM address, flash address.
    pub open spec fn bytes(self) -> Seq<u8> {
        Self::tlv().bytes() + u32_le(self.start_process_ram) + u32_le(self.start_process_flash)
    }

    /// Appends the section to `output`.
    pub fn write_to(&self, output: &mut Vec<u8>)
        ensures
            final(output)@ == old(output)@ + self.bytes(),
    {
        let tlv = TbfHeaderTlv { tipe: TbfHeaderTypes::FixedAddresses, length: 8 };
        tlv.write_to(output);
        put_u32(output, self.start_process_ram);
        put_u32(output, self.start_process_flash);
        assert(output@ =~= old(output)@ + self.bytes());
    }
}

/// The fixed addresses section that a request for `ram` and `flash` calls
/// for: none when neither is given, else both, with `NO_FIXED_ADDRESS` for
/// the one that is missing.
pub open spec fn requested_fixed_addresses(ram: Option<u32>, flash: Option<u32>) -> Option<
    TbfHeaderFixedAddresses,
> {
    if ram is Some || flash is Some {
        Some(
            TbfHeaderFixedAddresses {
                start_process_ram: match ram {
                    Some(address) => address,
                    None => NO_FIXED_ADDRESS,
                },
                start_process_flash: match flash {
                    Some(address) => address,
                    None => NO_FIXED_ADDRESS,
                },
            },
        )
    } else {
        None
    }
}

/// Zero bytes that follow a package name of `name_len` bytes. The name starts
/// after the base header, the main section and its own prefix, at an offset
/// that is a multiple of four.
pub open spec fn package_name_gap(name_len: nat) -> nat {
    alignment_gap(BASE_LEN + MAIN_LEN + TLV_LEN + name_len, 4) as nat
}

/// The payload length stored in the prefix of a package name section: the
/// length of the name, reduced to sixteen bits.
pub open spec fn package_name_tlv_length(name_len: nat) -> u16 {
    (name_len % 0x1_0000) as u16
}

/// The package name section: nothing for an empty name, else the prefix, the
/// name and the zero bytes that restore four byte alignment.
pub open spec fn package_name_bytes(name: Seq<u8>) -> Seq<u8> {
    if name.len() == 0 {
        Seq::empty()
    } else {
        (TbfHeaderTlv {
            tipe: TbfHeaderTypes::PackageName,
            length: package_name_tlv_length(name.len()),
        }).bytes() + name + zeros(package_name_gap(name.len()))
    }
}

/// Length of the package name section.
pub open spec fn package_name_len(name_len: nat) -> nat {
    if name_len == 0 {
        0
    } else {
        TLV_LEN as nat + name_len + package_name_gap(name_len)
    }
}

/// The writeable flash region sections, in slot order.
pub open spec fn regions_bytes(regions: Seq<TbfHeaderWriteableFlashRegion>) -> Seq<u8>
    decreases regions.len(),
{
    if regions.len() == 0 {
        Seq::empty()
    } else {
        regions_bytes(regions.drop_last()) + regions.last().bytes()
    }
}

/// The fixed addresses section, if there is one.
pub open spec fn fixed_addresses_bytes(fixed: Option<TbfHeaderFixedAddresses>) -> Seq<u8> {
    match fixed {
        Some(addresses) => addresses.bytes(),
        None => Seq::empty(),
    }
}

/// The package name section is as long as `package_name_len` says, and a
/// multiple of four bytes.
pub proof fn lemma_package_name_bytes_len(name: Seq<u8>)
    ensures
        package_name_bytes(name).len() == package_name_len(name.len()),
        package_name_len(name.len()) % 4 == 0,
        package_name_gap(name.len()) < 4,
{
    lemma_alignment_gap(BASE_LEN + MAIN_LEN + TLV_LEN + name.len(), 4);
}

/// Each slot takes twelve bytes.
pub proof fn lemma_regions_bytes_len(regions: Seq<TbfHeaderWriteableFlashRegion>)
    ensures
        regions_bytes(regions).len() == REGION_LEN * regions.len(),
    decreases regions.len(),
{
    if regions.len() > 0 {
        lemma_regions_bytes_len(regions.drop_last());
    }
}

/// Appending a slot appends its section.
pub proof fn lemma_regions_bytes_push(
    regions: Seq<TbfHeaderWriteableFlashRegion>,
    region: TbfHeaderWriteableFlashRegion,
)
    ensures
        regions_bytes(regions.push(region)) == regions_bytes(regions) + region.bytes(),
{
    assert(regions.push(region).drop_last() =~= regions);
}

/// Appends the package name section for `name` to `output`; an empty name
/// adds nothing.
pub fn write_package_name(name: &[u8], output: &mut Vec<u8>)
    ensures
        final(output)@ == old(output)@ + package_name_bytes(name@),
{
    let name_len: usize = name.len();
    if name_len != 0 {
        let tlv = TbfHeaderTlv {
            tipe: TbfHeaderTypes::PackageName,
            length: (name_len % 0x1_0000) as u16,
        };
        tlv.write_to(output);
        let mut copied: usize = 0;
        while copied < name_len
            invariant
                name_len == name@.len(),
                copied <= name_len,
                output@ == old(output)@ + tlv.bytes() + name@.take(copied as int),
            decreases name_len - copied,
        {
            output.push(name[copied]);
            assert(name@.take(copied + 1) =~= name@.take(copied as int).push(name@[copied as int]));
            copied = copied + 1;
        }
        assert(name@.take(name_len as int) =~= name@);
        let gap: u32 = amount_alignment_needed((name_len % 4) as u32, 4);
        assert(gap == package_name_gap(name_len as nat));
        do_pad(output, gap as usize);
        assert(output@ =~= old(output)@ + package_name_bytes(name@));
    } else {
        assert(output@ =~= old(output)@ + package_name_bytes(name@));
    }
}

/// Appends one section per slot of `regions` to `output`, in slot order.
pub fn write_regions(regions: &[TbfHeaderWriteableFlashRegion], output: &mut Vec<u8>)
    ensures
        final(output)@ == old(output)@ + regions_bytes(regions@),
{
    let count: usize = regions.len();
    let mut index: usize = 0;
    assert(output@ =~= old(output)@ + regions_bytes(regions@.take(0)));
    while index < count
        invariant
            count == regions@.len(),
            index <= count,
            output@ == old(output)@ + regions_bytes(regions@.take(index as int)),
        decreases count - index,
    {
        regions[index].write_to(output);
        proof {
            lemma_regions_bytes_push(regions@.take(index as int), regions@[index as int]);
            assert(regions@.take(index + 1) =~= regions@.take(index as int).push(
                regions@[index as int],
            ));
        }
        index = index + 1;
    }
    assert(regions@.take(count as int) =~= regions@);
}

} // verus!
