//! One mounted volume, as plain data.

use vstd::prelude::*;

verus! {

/// A mounted disk partition as the operating system reported it at one
/// enumeration. A volume has no identity beyond its position in that
/// enumeration.
#[derive(Debug, Clone, PartialEq, Eq)]
pub struct Volume {
    /// Display name.
    pub name: String,
    /// Free space in bytes.
    pub available: u64,
    /// Capacity in bytes.
    pub total: u64,
    /// Mount point, as the bytes of the path.
    pub mount_path: Vec<u8>,
    /// Whether the medium can be ejected.
    pub removable: bool,
}

/// The mathematical content of a [`Volume`].
pub struct VolumeView {
    pub name: Seq<char>,
    pub available: u64,
    pub total: u64,
    pub mount_path: Seq<u8>,
    pub removable: bool,
}

impl View for Volume {
    type V = VolumeView;

    open spec fn view(&self) -> VolumeView {
        VolumeView {
            name: self.name@,
            available: self.available,
            total: self.total,
            mount_path: self.mount_path@,
            removable: self.removable,
        }
    }
}

/// The contents of an enumeration, position by position.
pub open spec fn volume_views(volumes: Seq<Volume>) -> Seq<VolumeView> {
    Seq::new(volumes.len(), |i: int| volumes[i]@)
}

impl Volume {
    /// A volume with the given attributes.
    pub fn new(
        name: String,
        available: u64,
        total: u64,
        mount_path: Vec<u8>,
        removable: bool,
    ) -> (volume: Volume)
        ensures
            volume@ == (VolumeView {
                name: name@,
                available,
                total,
                mount_path: mount_path@,
                removable,
            }),
    {
        Volume { name, available, total, mount_path, removable }
    }
}

} // verus!
