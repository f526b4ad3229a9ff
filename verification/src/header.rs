//! The header under construction: planning, refinement and encoding.

use vstd::prelude::*;
use vstd::utf8::encode_utf8;
use crate::align::{alignment_gap, amount_alignment_needed, do_pad, lemma_alignment_gap, zeros};
use crate::checksum::{
    inject_checksum, lemma_sealed_folds_to_zero, lemma_sealed_frame, sealed, xor_fold,
};
use crate::digest::{default_app_id, derived_app_id};
use crate::sections::{
    fixed_addresses_bytes, lemma_package_name_bytes_len, lemma_regions_bytes_len,
    package_name_bytes, package_name_len, regions_bytes, requested_fixed_addresses,
    write_package_name, write_regions, TbfHeaderBase, TbfHeaderFixedAddresses, TbfHeaderMain,
    TbfHeaderWriteableFlashRegion, BASE_LEN, FIXED_ADDRESSES_LEN, FLAG_ENABLED, MAIN_LEN,
    NO_FIXED_ADDRESS, REGION_LEN, TLV_LEN,
};

verus! {

/// Length of the header that is planned for a package name of `name_len`
/// bytes, `regions` writeable flash regions and, if `fixed`, a fixed
/// addresses section.
pub open spec fn planned_len(name_len: nat, regions: nat, fixed: bool) -> nat {
    BASE_LEN as nat + MAIN_LEN as nat + package_name_len(name_len) + REGION_LEN as nat * regions
        + if fixed {
        FIXED_ADDRESSES_LEN as nat
    } else {
        0
    }
}

/// The header size field for a header of `len` bytes: `len` reduced to
/// sixteen bits.
pub open spec fn header_size_field(len: nat) -> u16 {
    (len % 0x1_0000) as u16
}

/// Index of the first slot of `regions` whose size is zero; the number of
/// slots when every slot is filled.
pub open spec fn first_unset_slot(regions: Seq<TbfHeaderWriteableFlashRegion>) -> nat
    decreases regions.len(),
{
    if regions.len() == 0 {
        0
    } else if regions.first().size == 0 {
        0
    } else {
        1 + first_unset_slot(regions.drop_first())
    }
}

/// `first_unset_slot` is the least index of a slot of size zero.
pub proof fn lemma_first_unset_slot(regions: Seq<TbfHeaderWriteableFlashRegion>)
    ensures
        first_unset_slot(regions) <= regions.len(),
        forall|i: int| 0 <= i < first_unset_slot(regions) ==> (#[trigger] regions[i]).size != 0,
        first_unset_slot(regions) < regions.len() ==> regions[first_unset_slot(
            regions,
        ) as int].size == 0,
    decreases regions.len(),
{
    if regions.len() > 0 && regions.first().size != 0 {
        let rest = regions.drop_first();
        lemma_first_unset_slot(rest);
        assert forall|i: int| 0 <= i < first_unset_slot(regions) implies (#[trigger] regions[i]).size
            != 0 by {
            if i > 0 {
                assert(regions[i] == rest[i - 1]);
            }
        }
    }
}

/// What a header holds: the value that its encoding is a function of.
pub struct HeaderView {
    pub base: TbfHeaderBase,
    pub main: TbfHeaderMain,
    pub package_name: Seq<u8>,
    pub regions: Seq<TbfHeaderWriteableFlashRegion>,
    pub fixed_addresses: Option<TbfHeaderFixedAddresses>,
}

impl HeaderView {
    /// The header before it is planned: every field zero, no optional
    /// section.
    pub open spec fn empty() -> HeaderView {
        HeaderView {
            base: TbfHeaderBase { header_size: 0, total_size: 0, flags: 0 },
            main: TbfHeaderMain {
                init_fn_offset: 0,
                protected_size: 0,
                minimum_ram_size: 0,
                app_id: 0,
            },
            package_name: Seq::empty(),
            regions: Seq::empty(),
            fixed_addresses: None,
        }
    }

    /// Whether no writeable flash region and no fixed addresses section has
    /// been allocated yet.
    pub open spec fn unplanned(self) -> bool {
        self.regions.len() == 0 && self.fixed_addresses is None
    }

    /// The header after planning with the given parameters.
    ///
    /// The size field is set to the planned length, the application is
    /// enabled, and the RAM size, package name and identifier are stored; the
    /// identifier is derived from the name unless one is given. `regions`
    /// unset slots are appended, and a fixed addresses section is stored if
    /// one is requested. Total size, entry offset and protected size stay.
    pub open spec fn planned(
        self,
        minimum_ram_size: u32,
        regions: nat,
        package_name: Seq<u8>,
        fixed_address_ram: Option<u32>,
        fixed_address_flash: Option<u32>,
        app_id: Option<u32>,
    ) -> HeaderView {
        let fixed = requested_fixed_addresses(fixed_address_ram, fixed_address_flash);
        HeaderView {
            base: TbfHeaderBase {
                header_size: header_size_field(
                    planned_len(package_name.len(), regions, fixed is Some),
                ),
                total_size: self.base.total_size,
                flags: FLAG_ENABLED,
            },
            main: TbfHeaderMain {
                init_fn_offset: self.main.init_fn_offset,
                protected_size: self.main.protected_size,
                minimum_ram_size,
                app_id: match app_id {
                    Some(id) => id,
                    None => derived_app_id(package_name),
                },
            },
            package_name,
            regions: self.regions + Seq::new(
                regions,
                |i: int| TbfHeaderWriteableFlashRegion::unset(),
            ),
            fixed_addresses: if fixed is Some {
                fixed
            } else {
                self.fixed_addresses
            },
        }
    }

    /// The header after one request to record a writeable flash region: the
    /// first unset slot takes `offset` and `size`; with no unset slot nothing
    /// changes.
    pub open spec fn with_region_values(self, offset: u32, size: u32) -> HeaderView {
        let slot = first_unset_slot(self.regions);
        if slot < self.regions.len() {
            HeaderView {
                regions: self.regions.update(
                    slot as int,
                    TbfHeaderWriteableFlashRegion { offset, size },
                ),
                ..self
            }
        } else {
            self
        }
    }

    /// The sections in their fixed order, before padding and checksum: base
    /// header, main section, package name, writeable flash regions, fixed
    /// addresses.
    pub open spec fn sections(self) -> Seq<u8> {
        self.base.bytes() + self.main.bytes() + package_name_bytes(self.package_name)
            + regions_bytes(self.regions) + fixed_addresses_bytes(self.fixed_addresses)
    }

    /// The sections followed by zero bytes up to a multiple of four.
    pub open spec fn padded(self) -> Seq<u8> {
        self.sections() + zeros(alignment_gap(self.sections().len() as int, 4) as nat)
    }

    /// The encoded header: the padded sections with the checksum stored.
    pub open spec fn encoded(self) -> Seq<u8> {
        sealed(self.padded())
    }

    /// Length of the encoded header.
    pub open spec fn encoded_len(self) -> nat {
        planned_len(self.package_name.len(), self.regions.len(), self.fixed_addresses is Some)
    }

    /// The encoded header is as long as its sections, which is a multiple of
    /// four: the padding at the end is empty.
    pub proof fn lemma_encoded_len(self)
        ensures
            self.sections().len() == self.encoded_len(),
            self.padded() == self.sections(),
            self.encoded().len() == self.encoded_len(),
            self.encoded_len() % 4 == 0,
            self.encoded_len() >= BASE_LEN + MAIN_LEN,
    {
        lemma_package_name_bytes_len(self.package_name);
        lemma_regions_bytes_len(self.regions);
        lemma_alignment_gap(self.sections().len() as int, 4);
        assert(self.padded() =~= self.sections());
        lemma_sealed_frame(self.padded());
    }

    /// XOR-folding the encoded header over its little-endian 32-bit words
    /// gives zero.
    pub proof fn lemma_encoded_folds_to_zero(self)
        ensures
            xor_fold(self.encoded()) == 0,
    {
        lemma_sealed_folds_to_zero(self.padded());
    }
}

/// Encoding depends on nothing but what the header holds: two buffers
/// encoded from one header, with no change in between, are byte-identical.
pub proof fn lemma_generate_repeatable(header: TbfHeader, first: Vec<u8>, second: Vec<u8>)
    requires
        first@ == header@.encoded(),
        second@ == header@.encoded(),
    ensures
        first@ == second@,
{
}

/// Planning a header that holds no optional section yet gives a header whose
/// encoding has the planned length, and whose size field holds that length
/// reduced to sixteen bits.
pub proof fn lemma_planned_len(
    before: HeaderView,
    minimum_ram_size: u32,
    regions: nat,
    package_name: Seq<u8>,
    fixed_address_ram: Option<u32>,
    fixed_address_flash: Option<u32>,
    app_id: Option<u32>,
)
    requires
        before.unplanned(),
    ensures
        ({
            let after = before.planned(
                minimum_ram_size,
                regions,
                package_name,
                fixed_address_ram,
                fixed_address_flash,
                app_id,
            );
            &&& after.encoded().len() == planned_len(
                package_name.len(),
                regions,
                fixed_address_ram is Some || fixed_address_flash is Some,
            )
            &&& after.encoded().len() % 4 == 0
            &&& after.base.header_size == header_size_field(after.encoded().len())
        }),
{
    let after = before.planned(
        minimum_ram_size,
        regions,
        package_name,
        fixed_address_ram,
        fixed_address_flash,
        app_id,
    );
    after.lemma_encoded_len();
}

/// The identifier that planning derives depends on the package name alone:
/// two headers planned without an explicit identifier and with the same name
/// hold the same identifier, whatever else differs.
pub proof fn lemma_derived_app_id_deterministic(
    first: HeaderView,
    second: HeaderView,
    package_name: Seq<u8>,
    first_ram_size: u32,
    second_ram_size: u32,
    first_regions: nat,
    second_regions: nat,
    first_ram: Option<u32>,
    second_ram: Option<u32>,
    first_flash: Option<u32>,
    second_flash: Option<u32>,
)
    ensures
        first.planned(
            first_ram_size,
            first_regions,
            package_name,
            first_ram,
            first_flash,
            None,
        ).main.app_id == second.planned(
            second_ram_size,
            second_regions,
            package_name,
            second_ram,
            second_flash,
            None,
        ).main.app_id,
        first.planned(
            first_ram_size,
            first_regions,
            package_name,
            first_ram,
            first_flash,
            None,
        ).main.app_id == derived_app_id(package_name),
{
}

/// A planned length is a multiple of four, and so is the size field that
/// holds it.
pub proof fn lemma_planned_len_aligned(name_len: nat, regions: nat, fixed: bool)
    ensures
        planned_len(name_len, regions, fixed) % 4 == 0,
        header_size_field(planned_len(name_len, regions, fixed)) % 4 == 0,
{
    lemma_alignment_gap(BASE_LEN + MAIN_LEN + TLV_LEN + name_len, 4);
    let len = planned_len(name_len, regions, fixed);
    assert(package_name_len(name_len) % 4 == 0);
    assert(len % 4 == 0);
    assert((len % 0x1_0000) % 4 == 0) by {
        assert(len == 0x1_0000 * (len / 0x1_0000) + len % 0x1_0000);
        assert(0x1_0000 * (len / 0x1_0000) == 4 * (0x4000 * (len / 0x1_0000)));
    }
}

/// The size field of a header planned for a package name of `name_len`
/// bytes, `regions` writeable flash regions and, if `fixed`, a fixed
/// addresses section.
pub fn planned_size_field(name_len: usize, regions: usize, fixed: bool) -> (field: u16)
    ensures
        field == header_size_field(planned_len(name_len as nat, regions as nat, fixed)),
        field % 4 == 0,
{
    // The length is summed in 128 bits, where it cannot overflow; the size
    // field keeps its low sixteen bits.
    let mut planned: u128 = (BASE_LEN + MAIN_LEN) as u128;
    if name_len != 0 {
        let pad: u32 = amount_alignment_needed((name_len % 4) as u32, 4);
        planned = planned + (TLV_LEN as u128) + (name_len as u128) + (pad as u128);
    }
    planned = planned + (REGION_LEN as u128) * (regions as u128);
    if fixed {
        planned = planned + (FIXED_ADDRESSES_LEN as u128);
    }
    proof {
        lemma_planned_len_aligned(name_len as nat, regions as nat, fixed);
    }
    (planned % 0x1_0000) as u16
}

/// A header in the making.
pub struct TbfHeader {
    hdr_base: TbfHeaderBase,
    hdr_main: TbfHeaderMain,
    hdr_wfr: Vec<TbfHeaderWriteableFlashRegion>,
    hdr_fixed_addresses: Option<TbfHeaderFixedAddresses>,
    package_name: String,
}

impl View for TbfHeader {
    type V = HeaderView;

    closed spec fn view(&self) -> HeaderView {
        HeaderView {
            base: self.hdr_base,
            main: self.hdr_main,
            package_name: encode_utf8(self.package_name@),
            regions: self.hdr_wfr@,
            fixed_addresses: self.hdr_fixed_addresses,
        }
    }
}

impl TbfHeader {
    /// The size field is always a multiple of four.
    #[verifier::type_invariant]
    spec fn size_field_aligned(&self) -> bool {
        self.hdr_base.header_size % 4 == 0
    }

    /// A header with every field zero and no optional section.
    pub fn new() -> (header: Self)
        ensures
            header@ == HeaderView::empty(),
    {
        let header = Self {
            hdr_base: TbfHeaderBase { header_size: 0, total_size: 0, flags: 0 },
            hdr_main: TbfHeaderMain {
                init_fn_offset: 0,
                protected_size: 0,
                minimum_ram_size: 0,
                app_id: 0,
            },
            hdr_wfr: Vec::new(),
            hdr_fixed_addresses: None,
            package_name: String::new(),
        };
        proof {
            assert(encode_utf8(Seq::<char>::empty()) =~= Seq::<u8>::empty());
        }
        header
    }

    /// Plans the header: decides which optional sections it has and how long
    /// it is, and stores what is known at this point. Meant to be called once,
    /// on a new header.
    ///
    /// Returns the length in bytes of the encoded header, a multiple of four.
    pub fn create(
        &mut self,
        minimum_ram_size: u32,
        writeable_flash_regions: usize,
        package_name: String,
        fixed_address_ram: Option<u32>,
        fixed_address_flash: Option<u32>,
        app_id: Option<u32>,
    ) -> (header_length: usize)
        ensures
            final(self)@ == old(self)@.planned(
                minimum_ram_size,
                writeable_flash_regions as nat,
                encode_utf8(package_name@),
                fixed_address_ram,
                fixed_address_flash,
                app_id,
            ),
            header_length == final(self)@.encoded().len(),
            header_length % 4 == 0,
            old(self)@.unplanned() ==> header_length == planned_len(
                encode_utf8(package_name@).len(),
                writeable_flash_regions as nat,
                fixed_address_ram is Some || fixed_address_flash is Some,
            ),
            old(self)@.unplanned() ==> final(self)@.base.header_size == header_size_field(
                header_length as nat,
            ),
    {
        let has_fixed_addresses: bool = fixed_address_ram.is_some() || fixed_address_flash.is_some();
        let name_len: usize = package_name.as_str().as_bytes().len();
        self.hdr_base = TbfHeaderBase {
            header_size: planned_size_field(name_len, writeable_flash_regions, has_fixed_addresses),
            total_size: self.hdr_base.total_size,
            flags: FLAG_ENABLED,
        };
        self.hdr_main.minimum_ram_size = minimum_ram_size;
        self.hdr_main.app_id = match app_id {
            Some(id) => id,
            None => default_app_id(package_name.as_str().as_bytes()),
        };
        self.package_name = package_name;

        // The slots are taken out of the header while new ones are appended.
        let mut regions: Vec<TbfHeaderWriteableFlashRegion> = Vec::new();
        core::mem::swap(&mut self.hdr_wfr, &mut regions);
        let mut added: usize = 0;
        while added < writeable_flash_regions
            invariant
                added <= writeable_flash_regions,
                regions@ == old(self).hdr_wfr@ + Seq::new(
                    added as nat,
                    |i: int| TbfHeaderWriteableFlashRegion::unset(),
                ),
            decreases writeable_flash_regions - added,
        {
            regions.push(TbfHeaderWriteableFlashRegion { offset: 0, size: 0 });
            added = added + 1;
        }
        self.hdr_wfr = regions;

        if has_fixed_addresses {
            self.hdr_fixed_addresses = Some(
                TbfHeaderFixedAddresses {
                    start_process_ram: match fixed_address_ram {
                        Some(address) => address,
                        None => NO_FIXED_ADDRESS,
                    },
                    start_process_flash: match fixed_address_flash {
                        Some(address) => address,
                        None => NO_FIXED_ADDRESS,
                    },
                },
            );
        }

        assert(self@.regions =~= old(self)@.regions + Seq::new(
            writeable_flash_regions as nat,
            |i: int| TbfHeaderWriteableFlashRegion::unset(),
        ));
        let encoded: Vec<u8> = self.generate();
        encoded.len()
    }

    /// Stores the protected size: the bytes reserved between the header and
    /// the loadable part of the binary, the header itself not counted.
    pub fn set_protected_size(&mut self, protected_size: u32)
        ensures
            final(self)@ == (HeaderView {
                main: TbfHeaderMain { protected_size, ..old(self)@.main },
                ..old(self)@
            }),
            final(self)@.encoded_len() == old(self)@.encoded_len(),
    {
        proof {
            use_type_invariant(&*self);
        }
        self.hdr_main.protected_size = protected_size;
    }

    /// Stores the size of the whole binary, header included.
    pub fn set_total_size(&mut self, total_size: u32)
        ensures
            final(self)@ == (HeaderView {
                base: TbfHeaderBase { total_size, ..old(self)@.base },
                ..old(self)@
            }),
            final(self)@.encoded_len() == old(self)@.encoded_len(),
    {
        proof {
            use_type_invariant(&*self);
        }
        self.hdr_base.total_size = total_size;
    }

    /// Stores the offset of the entry function from the start of the binary.
    pub fn set_init_fn_offset(&mut self, init_fn_offset: u32)
        ensures
            final(self)@ == (HeaderView {
                main: TbfHeaderMain { init_fn_offset, ..old(self)@.main },
                ..old(self)@
            }),
            final(self)@.encoded_len() == old(self)@.encoded_len(),
    {
        proof {
            use_type_invariant(&*self);
        }
        self.hdr_main.init_fn_offset = init_fn_offset;
    }

    /// Records a writeable flash region in the first slot that is still
    /// unset. When every slot is filled the call changes nothing.
    pub fn set_writeable_flash_region_values(&mut self, offset: u32, size: u32)
        ensures
            final(self)@ == old(self)@.with_region_values(offset, size),
            final(self)@.encoded_len() == old(self)@.encoded_len(),
    {
        proof {
            use_type_invariant(&*self);
        }
        let count: usize = self.hdr_wfr.len();
        let mut index: usize = 0;
        while index < count && self.hdr_wfr[index].size != 0
            invariant
                *self == *old(self),
                count == self.hdr_wfr@.len(),
                index <= first_unset_slot(self.hdr_wfr@),
                index <= count,
            decreases count - index,
        {
            proof {
                lemma_first_unset_slot(self.hdr_wfr@);
            }
            index = index + 1;
        }
        proof {
            lemma_first_unset_slot(self.hdr_wfr@);
        }
        if index < count {
            // The slots are taken out of the header while one of them is set.
            let mut regions: Vec<TbfHeaderWriteableFlashRegion> = Vec::new();
            core::mem::swap(&mut self.hdr_wfr, &mut regions);
            regions.set(index, TbfHeaderWriteableFlashRegion { offset, size });
            self.hdr_wfr = regions;
        }
    }

    /// Encodes the header: the sections in their fixed order, zero bytes up
    /// to a multiple of four, and the checksum stored in its field.
    pub fn generate(&self) -> (bytes: Vec<u8>)
        ensures
            bytes@ == self@.encoded(),
            bytes@.len() == self@.encoded_len(),
            bytes@.len() % 4 == 0,
            xor_fold(bytes@) == 0,
    {
        let mut header_buf: Vec<u8> = Vec::new();
        self.hdr_base.write_to(&mut header_buf);
        self.hdr_main.write_to(&mut header_buf);
        write_package_name(self.package_name.as_str().as_bytes(), &mut header_buf);
        write_regions(self.hdr_wfr.as_slice(), &mut header_buf);
        match self.hdr_fixed_addresses {
            Some(addresses) => {
                addresses.write_to(&mut header_buf);
            },
            None => {},
        }
        assert(header_buf@ =~= self@.sections());

        let current_length: usize = header_buf.len();
        let gap: u32 = amount_alignment_needed((current_length % 4) as u32, 4);
        do_pad(&mut header_buf, gap as usize);
        assert(header_buf@ =~= self@.padded());

        inject_checksum(&mut header_buf);
        proof {
            self@.lemma_encoded_len();
        }
        header_buf
    }

    /// The base header fields.
    pub fn base(&self) -> (base: TbfHeaderBase)
        ensures
            base == self@.base,
            base.header_size % 4 == 0,
    {
        proof {
            use_type_invariant(self);
        }
        self.hdr_base
    }

    /// The payload of the main section.
    pub fn main(&self) -> (main: TbfHeaderMain)
        ensures
            main == self@.main,
    {
        self.hdr_main
    }

    /// The writeable flash region slots, in slot order.
    pub fn writeable_flash_regions(&self) -> (regions: &[TbfHeaderWriteableFlashRegion])
        ensures
            regions@ == self@.regions,
    {
        self.hdr_wfr.as_slice()
    }

    /// The fixed addresses section, if the header has one.
    pub fn fixed_addresses(&self) -> (fixed: Option<TbfHeaderFixedAddresses>)
        ensures
            fixed == self@.fixed_addresses,
    {
        self.hdr_fixed_addresses
    }
}

} // verus!
