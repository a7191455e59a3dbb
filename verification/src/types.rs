//! The decoded data structures.
//!
//! Every byte-array field is a copied-out `Vec<u8>`, so the decoded tree has
//! no reference into the caller's buffer and outlives it. Each type's view
//! is the corresponding model structure.

use std::collections::HashMap;
use vstd::prelude::*;

use crate::model::{
    BinHeadV, CfgBinV, ConstInfoV, IcConfigV, PackageV, RegInfoV, RegisterV,
};

verus! {

/// The fixed file header.
pub struct BinHead {
    /// Declared total byte length of the file.
    pub bin_len: u32,
    /// Declared checksum over the tail of the buffer.
    pub checksum: u8,
    /// Raw version bytes.
    pub bin_version: Vec<u8>,
    /// Number of packages.
    pub pkg_num: u8,
}

impl View for BinHead {
    type V = BinHeadV;

    open spec fn view(&self) -> BinHeadV {
        BinHeadV {
            bin_len: self.bin_len as int,
            checksum: self.checksum as int,
            bin_version: self.bin_version@,
            pkg_num: self.pkg_num as int,
        }
    }
}

/// One packed register record: a 16-bit address plus two reserved bytes.
/// Its semantics are opaque to the decoder; it is passed through.
pub struct Register {
    pub addr: u16,
    pub reserved1: u8,
    pub reserved2: u8,
}

impl View for Register {
    type V = RegisterV;

    open spec fn view(&self) -> RegisterV {
        RegisterV {
            addr: self.addr as int,
            reserved1: self.reserved1,
            reserved2: self.reserved2,
        }
    }
}

/// The packed constant-info record of a package.
pub struct ConstInfo {
    pub pkg_len: u32,
    /// Chip identifier string bytes.
    pub ic_type: Vec<u8>,
    /// Configuration-variant identifier; the registry key.
    pub cfg_type: u8,
    pub sensor_id: u8,
    pub hw_pid: Vec<u8>,
    pub hw_vid: Vec<u8>,
    pub fw_mask: Vec<u8>,
    pub fw_patch: Vec<u8>,
    pub x_res_offset: u16,
    pub y_res_offset: u16,
    pub trigger_offset: u16,
}

impl View for ConstInfo {
    type V = ConstInfoV;

    open spec fn view(&self) -> ConstInfoV {
        ConstInfoV {
            pkg_len: self.pkg_len as int,
            ic_type: self.ic_type@,
            cfg_type: self.cfg_type,
            sensor_id: self.sensor_id,
            hw_pid: self.hw_pid@,
            hw_vid: self.hw_vid@,
            fw_mask: self.fw_mask@,
            fw_patch: self.fw_patch@,
            x_res_offset: self.x_res_offset as int,
            y_res_offset: self.y_res_offset as int,
            trigger_offset: self.trigger_offset as int,
        }
    }
}

/// The packed register-info record of a package: fourteen named registers
/// and a reserved tail.
pub struct RegInfo {
    pub cfg_send_flag: Register,
    pub version_base: Register,
    pub pid: Register,
    pub vid: Register,
    pub sensor_id: Register,
    pub fw_mask: Register,
    pub fw_status: Register,
    pub cfg_addr: Register,
    pub esd: Register,
    pub command: Register,
    pub coor: Register,
    pub gesture: Register,
    pub fw_request: Register,
    pub proximity: Register,
    pub reserved: Vec<u8>,
}

impl View for RegInfo {
    type V = RegInfoV;

    open spec fn view(&self) -> RegInfoV {
        RegInfoV {
            cfg_send_flag: self.cfg_send_flag@,
            version_base: self.version_base@,
            pid: self.pid@,
            vid: self.vid@,
            sensor_id: self.sensor_id@,
            fw_mask: self.fw_mask@,
            fw_status: self.fw_status@,
            cfg_addr: self.cfg_addr@,
            esd: self.esd@,
            command: self.command@,
            coor: self.coor@,
            gesture: self.gesture@,
            fw_request: self.fw_request@,
            proximity: self.proximity@,
            reserved: self.reserved@,
        }
    }
}

/// One decoded package: fixed metadata plus the copied-out raw payload.
pub struct Package {
    pub const_info: ConstInfo,
    pub reg_info: RegInfo,
    /// Total byte span of the package in the source buffer.
    pub pkg_len: u32,
    /// The raw config payload.
    pub cfg: Vec<u8>,
}

impl View for Package {
    type V = PackageV;

    open spec fn view(&self) -> PackageV {
        PackageV {
            const_info: self.const_info@,
            reg_info: self.reg_info@,
            pkg_len: self.pkg_len as int,
            cfg: self.cfg@,
        }
    }
}

/// One registry entry: a raw config payload copied out of its package, with
/// its length.
pub struct IcConfig {
    /// Payload length; never exceeds the payload capacity bound.
    pub len: i32,
    pub data: Vec<u8>,
}

impl View for IcConfig {
    type V = IcConfigV;

    open spec fn view(&self) -> IcConfigV {
        IcConfigV { len: self.len as int, data: self.data@ }
    }
}

/// The views of a package sequence, element by element.
pub open spec fn pkg_views(pkgs: Seq<Package>) -> Seq<PackageV> {
    pkgs.map_values(|p: Package| p@)
}

/// The views of a registry's entries, value by value.
pub open spec fn config_views(m: Map<u8, IcConfig>) -> Map<u8, IcConfigV> {
    m.map_values(|c: IcConfig| c@)
}

/// The whole decoded configuration binary: the header, the package sequence
/// in file order, and the registry keyed by configuration variant.
pub struct GoodixCfgBin {
    pub head: BinHead,
    pub cfg_pkgs: Vec<Package>,
    pub ic_configs: HashMap<u8, IcConfig>,
}

impl View for GoodixCfgBin {
    type V = CfgBinV;

    open spec fn view(&self) -> CfgBinV {
        CfgBinV {
            head: self.head@,
            cfg_pkgs: pkg_views(self.cfg_pkgs@),
            ic_configs: config_views(self.ic_configs@),
        }
    }
}

} // verus!
