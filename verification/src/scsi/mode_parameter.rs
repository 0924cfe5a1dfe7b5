//! SCSI mode-parameter headers, the caching mode page and the formatting
//! capacities list, as the mass-storage interface reports them.

use vstd::prelude::*;

verus! {

/// Medium type of a direct-access block device.
#[derive(Copy, Clone, Debug, PartialEq, Eq, Structural)]
pub enum MediumType {
    Sbc,
}

impl MediumType {
    pub open spec fn spec_code(self) -> u8 {
        match self {
            MediumType::Sbc => 0x00,
        }
    }

    /// The byte that encodes the medium type.
    pub fn code(self) -> (r: u8)
        ensures
            r == self.spec_code(),
    {
        match self {
            MediumType::Sbc => 0x00,
        }
    }
}

impl Default for MediumType {
    fn default() -> (r: Self)
        ensures
            r == MediumType::Sbc,
    {
        MediumType::Sbc
    }
}

/// Mode page codes that the device reports.
#[derive(Copy, Clone, Debug, PartialEq, Eq, Structural)]
pub enum PageCode {
    CachingModePage,
}

impl PageCode {
    pub open spec fn spec_code(self) -> u8 {
        match self {
            PageCode::CachingModePage => 0x08,
        }
    }

    /// The page code as it stands in the page's first byte.
    pub fn code(self) -> (r: u8)
        ensures
            r == self.spec_code(),
    {
        match self {
            PageCode::CachingModePage => 0x08,
        }
    }

    /// The length in bytes of the page with this code.
    pub open spec fn spec_page_bytes(self) -> nat {
        match self {
            PageCode::CachingModePage => CACHING_MODE_PAGE_BYTES as nat,
        }
    }
}

/// Packed length of the six-byte command's mode parameter header.
pub const MODE_PARAMETER_HEADER6_BYTES: usize = 4;

/// Packed length of the ten-byte command's mode parameter header.
pub const MODE_PARAMETER_HEADER10_BYTES: usize = 8;

/// Packed length of the caching mode page.
pub const CACHING_MODE_PAGE_BYTES: usize = 20;

/// Packed length of the current capacity descriptor.
pub const CURRENT_CAPACITY_DESCRIPTOR_BYTES: usize = 9;

/// The device-specific parameter byte of a block device.
#[derive(Copy, Clone, Debug, PartialEq, Eq, Structural)]
pub struct SbcDeviceSpecificParameter {
    pub write_protect: bool,
    pub disable_page_out_and_force_unit_access_available: bool,
}

impl Default for SbcDeviceSpecificParameter {
    fn default() -> (r: Self)
        ensures
            !r.write_protect,
            !r.disable_page_out_and_force_unit_access_available,
    {
        SbcDeviceSpecificParameter {
            write_protect: false,
            disable_page_out_and_force_unit_access_available: false,
        }
    }
}

pub open spec fn bit(b: bool, pos: nat) -> nat {
    if b {
        vstd::arithmetic::power2::pow2(pos)
    } else {
        0
    }
}

impl SbcDeviceSpecificParameter {
    /// Bit 7: write protect; bit 4: DPO and FUA supported.
    pub open spec fn spec_byte(self) -> nat {
        bit(self.write_protect, 7) + bit(self.disable_page_out_and_force_unit_access_available, 4)
    }

    pub fn to_byte(&self) -> (r: u8)
        ensures
            r == self.spec_byte(),
    {
        proof {
            vstd::arithmetic::power2::lemma2_to64();
        }
        let mut b: u8 = 0;
        if self.write_protect {
            b = b + 0x80;
        }
        if self.disable_page_out_and_force_unit_access_available {
            b = b + 0x10;
        }
        b
    }
}

/// Header of the data that MODE SENSE (6) returns.
#[derive(Copy, Clone, Debug, PartialEq, Eq, Structural)]
pub struct ModeParameterHeader6 {
    pub mode_data_length: u8,
    pub medium_type: MediumType,
    pub device_specific_parameter: SbcDeviceSpecificParameter,
    pub block_descriptor_length: u8,
}

impl Default for ModeParameterHeader6 {
    /// The header alone: the length counts the bytes that follow its own byte.
    fn default() -> (r: Self)
        ensures
            r.mode_data_length == MODE_PARAMETER_HEADER6_BYTES - 1,
            r.medium_type == MediumType::Sbc,
            !r.device_specific_parameter.write_protect,
            !r.device_specific_parameter.disable_page_out_and_force_unit_access_available,
            r.block_descriptor_length == 0,
    {
        ModeParameterHeader6 {
            mode_data_length: (MODE_PARAMETER_HEADER6_BYTES - 1) as u8,
            medium_type: MediumType::default(),
            device_specific_parameter: SbcDeviceSpecificParameter::default(),
            block_descriptor_length: 0,
        }
    }
}

impl ModeParameterHeader6 {
    /// Counts the page with `page_code` in the length, for a page that follows
    /// the header. The length is one byte, so it must not pass 255.
    pub fn increase_length_for_page(&mut self, page_code: PageCode)
        requires
            old(self).mode_data_length + page_code.spec_page_bytes() <= u8::MAX,
        ensures
            final(self).mode_data_length == old(self).mode_data_length
                + page_code.spec_page_bytes(),
            final(self).medium_type == old(self).medium_type,
            final(self).device_specific_parameter == old(self).device_specific_parameter,
            final(self).block_descriptor_length == old(self).block_descriptor_length,
    {
        let add: u8 = match page_code {
            PageCode::CachingModePage => CACHING_MODE_PAGE_BYTES as u8,
        };
        self.mode_data_length = self.mode_data_length + add;
    }

    /// The packed header.
    pub open spec fn spec_pack(self) -> Seq<u8> {
        seq![
            self.mode_data_length,
            self.medium_type.spec_code(),
            self.device_specific_parameter.spec_byte() as u8,
            self.block_descriptor_length,
        ]
    }

    pub fn pack(&self) -> (r: Vec<u8>)
        ensures
            r@ == self.spec_pack(),
            r@.len() == MODE_PARAMETER_HEADER6_BYTES,
    {
        let mut v: Vec<u8> = Vec::new();
        v.push(self.mode_data_length);
        v.push(self.medium_type.code());
        v.push(self.device_specific_parameter.to_byte());
        v.push(self.block_descriptor_length);
        v
    }
}

/// Header of the data that MODE SENSE (10) returns.
#[derive(Copy, Clone, Debug, PartialEq, Eq, Structural)]
pub struct ModeParameterHeader10 {
    pub mode_data_length: u16,
    pub medium_type: MediumType,
    pub device_specific_parameter: SbcDeviceSpecificParameter,
    pub long_lba: bool,
    pub block_descriptor_length: u16,
}

impl Default for ModeParameterHeader10 {
    /// The header alone: the length counts the bytes that follow its own two.
    fn default() -> (r: Self)
        ensures
            r.mode_data_length == MODE_PARAMETER_HEADER10_BYTES - 2,
            r.medium_type == MediumType::Sbc,
            !r.device_specific_parameter.write_protect,
            !r.device_specific_parameter.disable_page_out_and_force_unit_access_available,
            !r.long_lba,
            r.block_descriptor_length == 0,
    {
        ModeParameterHeader10 {
            mode_data_length: (MODE_PARAMETER_HEADER10_BYTES - 2) as u16,
            medium_type: MediumType::default(),
            device_specific_parameter: SbcDeviceSpecificParameter::default(),
            long_lba: false,
            block_descriptor_length: 0,
        }
    }
}

impl ModeParameterHeader10 {
    /// Counts the page with `page_code` in the length, for a page that follows
    /// the header.
    pub fn increase_length_for_page(&mut self, page_code: PageCode)
        requires
            old(self).mode_data_length + page_code.spec_page_bytes() <= u16::MAX,
        ensures
            final(self).mode_data_length == old(self).mode_data_length
                + page_code.spec_page_bytes(),
            final(self).medium_type == old(self).medium_type,
            final(self).device_specific_parameter == old(self).device_specific_parameter,
            final(self).long_lba == old(self).long_lba,
            final(self).block_descriptor_length == old(self).block_descriptor_length,
    {
        let add: u16 = match page_code {
            PageCode::CachingModePage => CACHING_MODE_PAGE_BYTES as u16,
        };
        self.mode_data_length = self.mode_data_length + add;
    }

    /// The packed header: lengths big-endian, the long-LBA flag in bit 0 of
    /// byte 4, byte 5 reserved.
    pub open spec fn spec_pack(self) -> Seq<u8> {
        seq![
            (self.mode_data_length / 256) as u8,
            (self.mode_data_length % 256) as u8,
            self.medium_type.spec_code(),
            self.device_specific_parameter.spec_byte() as u8,
            if self.long_lba { 1u8 } else { 0u8 },
            0u8,
            (self.block_descriptor_length / 256) as u8,
            (self.block_descriptor_length % 256) as u8,
        ]
    }

    pub fn pack(&self) -> (r: Vec<u8>)
        ensures
            r@ == self.spec_pack(),
            r@.len() == MODE_PARAMETER_HEADER10_BYTES,
    {
        let mut v: Vec<u8> = Vec::new();
        v.push((self.mode_data_length / 256) as u8);
        v.push((self.mode_data_length % 256) as u8);
        v.push(self.medium_type.code());
        v.push(self.device_specific_parameter.to_byte());
        v.push(if self.long_lba { 1u8 } else { 0u8 });
        v.push(0u8);
        v.push((self.block_descriptor_length / 256) as u8);
        v.push((self.block_descriptor_length % 256) as u8);
        v
    }
}

/// The caching mode page.
#[derive(Copy, Clone, Debug, PartialEq, Eq, Structural)]
pub struct CachingModePage {
    pub ps: bool,
    pub spf: bool,
    pub page_ode: PageCode,
    pub page_length: u8,
    pub ic: bool,
    pub abpf: bool,
    pub cap: bool,
    pub disc: bool,
    pub size: bool,
    pub wce: bool,
    pub mf: bool,
    pub rcd: bool,
    pub demand_read_retention_priority: u8,
    pub write_retention_priority: u8,
    pub disable_prefetch_transfer_length: u16,
    pub minimum_prefetch: u16,
    pub maximum_prefetch: u16,
    pub maximum_prefetch_ceiling: u16,
    pub fsw: bool,
    pub lbcss: bool,
    pub dra: bool,
    pub vendor_specific: u8,
    pub sync_prog: u8,
    pub nv_dis: bool,
    pub number_of_cache_segments: u8,
    pub cache_segment_size: u16,
    pub reserved: u8,
    pub obsolete: u32,
}

impl Default for CachingModePage {
    /// The page with every feature off and the page length that the page's
    /// table gives.
    fn default() -> (r: Self)
        ensures
            r == (CachingModePage {
                ps: false,
                spf: false,
                page_ode: PageCode::CachingModePage,
                page_length: 0x12,
                ic: false,
                abpf: false,
                cap: false,
                disc: false,
                size: false,
                wce: false,
                mf: false,
                rcd: false,
                demand_read_retention_priority: 0,
                write_retention_priority: 0,
                disable_prefetch_transfer_length: 0,
                minimum_prefetch: 0,
                maximum_prefetch: 0,
                maximum_prefetch_ceiling: 0,
                fsw: false,
                lbcss: false,
                dra: false,
                vendor_specific: 0,
                sync_prog: 0,
                nv_dis: false,
                number_of_cache_segments: 0,
                cache_segment_size: 0,
                reserved: 0,
                obsolete: 0,
            }),
    {
        CachingModePage {
            ps: false,
            spf: false,
            page_ode: PageCode::CachingModePage,
            page_length: 0x12,
            ic: false,
            abpf: false,
            cap: false,
            disc: false,
            size: false,
            wce: false,
            mf: false,
            rcd: false,
            demand_read_retention_priority: 0,
            write_retention_priority: 0,
            disable_prefetch_transfer_length: 0,
            minimum_prefetch: 0,
            maximum_prefetch: 0,
            maximum_prefetch_ceiling: 0,
            fsw: false,
            lbcss: false,
            dra: false,
            vendor_specific: 0,
            sync_prog: 0,
            nv_dis: false,
            number_of_cache_segments: 0,
            cache_segment_size: 0,
            reserved: 0,
            obsolete: 0,
        }
    }
}

/// The descriptor of the capacity of the medium in the drive.
#[derive(Copy, Clone, Debug, PartialEq, Eq, Structural)]
pub struct CurrentCapacityDescriptor {
    pub number_of_blocks: u32,
    pub reserved: u8,
    pub descriptor_type: u8,
    pub block_length: u32,
}

/// Descriptor type of formatted media: the current capacity.
pub const FORMATTED_MEDIA: u8 = 0b10;

/// The formatting capacities list: one descriptor, the current capacity.
#[derive(Copy, Clone, Debug, PartialEq, Eq, Structural)]
pub struct FormatingCapacities {
    pub reserved: u32,
    pub list_length: u8,
    pub descriptor: CurrentCapacityDescriptor,
}

impl FormatingCapacities {
    /// The list for a medium of `block_count` blocks of `block_length` bytes;
    /// the block length is kept to its low 32 bits.
    pub fn new(block_count: u32, block_length: usize) -> (r: Self)
        ensures
            r.reserved == 0,
            r.list_length == CURRENT_CAPACITY_DESCRIPTOR_BYTES,
            r.descriptor.number_of_blocks == block_count,
            r.descriptor.reserved == 0,
            r.descriptor.descriptor_type == FORMATTED_MEDIA,
            r.descriptor.block_length == block_length as u32,
    {
        FormatingCapacities {
            reserved: 0,
            list_length: CURRENT_CAPACITY_DESCRIPTOR_BYTES as u8,
            descriptor: CurrentCapacityDescriptor {
                number_of_blocks: block_count,
                reserved: 0,
                descriptor_type: FORMATTED_MEDIA,
                block_length: block_length as u32,
            },
        }
    }
}

} // verus!
