use vstd::prelude::*;

verus! {

/// The logical format of a point-cloud file, used for conversion dispatch.
#[derive(Debug, Clone, Copy, PartialEq, Eq, Hash, Structural)]
pub enum FileFormat {
    /// A generic tabular point-cloud file (`pcd.libpcl`).
    LibpclPcd,
    /// The spherical-coordinate variant (`pcd.newslab`).
    NewslabPcd,
    /// A LiDAR sensor capture stream (`pcap.velodyne`).
    VelodynePcap,
    /// A minimal raw binary point dump (`raw.bin`).
    RawBin,
}

/// One point of a raw binary dump. Each field holds the bit pattern of the
/// 32-bit IEEE float stored in the file; the library moves the patterns
/// unchanged, and the front end gives them numeric meaning.
#[derive(Debug, Clone, Copy, PartialEq, Eq, Structural)]
pub struct BinPoint {
    pub x_bits: u32,
    pub y_bits: u32,
    pub z_bits: u32,
    pub intensity_bits: u32,
}

/// How a sensor reports multiple echoes per firing.
#[derive(Debug, Clone, Copy, PartialEq, Eq, Hash, Structural)]
pub enum ReturnModeKind {
    Strongest,
    Last,
    Dual,
}

/// The sensor model named on the command line. The variants mirror the
/// product line of the capture decoder.
#[derive(Debug, Clone, Copy, PartialEq, Eq, Hash, Structural)]
pub enum VelodyneModel {
    Hdl32E,
    Vlp16,
    PuckLite,
    PuckHiRes,
    Vlp32C,
    Velarray,
    Vls128,
}

/// A validated decoder configuration: a supported model paired with the
/// configured return mode.
#[derive(Debug, Clone, Copy, PartialEq, Eq, Structural)]
pub struct VelodyneConfig {
    pub model: VelodyneModel,
    pub return_mode: ReturnModeKind,
}

} // verus!
