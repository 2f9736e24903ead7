//! Removable-media storage adapter: handles to host-side byte regions and
//! the validation run when one is opened.
//!
//! Opening is split across the boundary: the host resolves a name to a raw
//! handle id and reports the region's size; this module owns every decision
//! about those values — the sentinel and size checks of a plain open, the
//! embedded-null check on names bound for the null-terminated wire, and the
//! exact block-multiple rule for fixed-disk images. Reads and writes within
//! the region are relayed by the boundary adapter; the host is responsible
//! for rejecting or clamping out-of-range access.

use vstd::prelude::*;

verus! {

/// Block size every fixed-disk image must be an exact multiple of.
pub const DISK_BLOCKSIZE: usize = 512;

/// Why opening a storage region or disk image failed. Each variant carries
/// the offending name, so the caller can log a descriptive error.
#[derive(Clone, Debug, PartialEq, Eq)]
pub enum DiskError {
    /// The name holds an embedded null byte and cannot cross the
    /// null-terminated foreign boundary.
    NameNotRepresentable { name: String },
    /// The host could not resolve the name.
    NotFound { name: String },
    /// The host reported a non-finite or negative size.
    InvalidSize { name: String },
    /// The region's length is not an exact multiple of the block size.
    NotBlockMultiple { name: String, size_bytes: usize },
}

/// One open host-side byte-addressable region: its raw handle id, its
/// length fixed at open time, and its display name.
#[derive(Debug)]
pub struct DiskHandle {
    pub disk_id: i32,
    pub size_bytes: usize,
    pub name: String,
}

/// Whether a name, given as its raw bytes, holds an embedded null byte;
/// such a name is rejected before the host is ever asked to resolve it.
pub fn name_has_nul(name_bytes: &Vec<u8>) -> (found: bool)
    ensures
        found == exists|i: int| 0 <= i < name_bytes@.len() && name_bytes@[i] == 0u8,
{
    let mut idx: usize = 0;
    while idx < name_bytes.len()
        invariant
            idx <= name_bytes@.len(),
            forall|i: int| 0 <= i < idx ==> name_bytes@[i] != 0u8,
        decreases name_bytes@.len() - idx,
    {
        if name_bytes[idx] == 0 {
            return true;
        }
        idx += 1;
    }
    false
}

impl DiskHandle {
    /// Completes an open begun at the host: `disk_id` is the host's raw
    /// result (negative meaning the name was not resolved) and `size_bytes`
    /// the region's reported length, already `None` when the host reported
    /// it as non-finite or negative. Fails with a descriptive error on
    /// either sentinel; never panics.
    pub fn open(name: String, disk_id: i32, size_bytes: Option<usize>) -> (r: Result<
        DiskHandle,
        DiskError,
    >)
        ensures
            disk_id < 0 ==> r == Err::<DiskHandle, DiskError>(DiskError::NotFound { name }),
            disk_id >= 0 && size_bytes is None ==> r == Err::<DiskHandle, DiskError>(
                DiskError::InvalidSize { name },
            ),
            disk_id >= 0 && (size_bytes matches Some(sz)) ==> r == Ok::<DiskHandle, DiskError>(
                DiskHandle { disk_id, size_bytes: size_bytes.unwrap(), name },
            ),
            r is Ok <==> disk_id >= 0 && size_bytes is Some,
    {
        if disk_id < 0 {
            return Err(DiskError::NotFound { name });
        }
        match size_bytes {
            Some(sz) => Ok(DiskHandle { disk_id, size_bytes: sz, name }),
            None => Err(DiskError::InvalidSize { name }),
        }
    }

    /// Length of the backing region, fixed at open time.
    pub fn size_bytes(&self) -> (len: usize)
        ensures
            len == self.size_bytes,
    {
        self.size_bytes
    }

    /// Display name the region was opened under.
    pub fn name(&self) -> (name: &String)
        ensures
            name@ == self.name@,
    {
        &self.name
    }
}

/// A fixed-disk image: a storage handle whose byte length has been checked
/// to be an exact multiple of [`DISK_BLOCKSIZE`].
#[derive(Debug)]
pub struct JsDiskImage {
    pub handle: DiskHandle,
}

impl JsDiskImage {
    /// Validates an open storage handle as a fixed-disk image: the length
    /// must be an exact multiple of the block size, or the open fails with
    /// a descriptive error — never a silent truncation.
    pub fn open(handle: DiskHandle) -> (r: Result<JsDiskImage, DiskError>)
        ensures
            handle.size_bytes % DISK_BLOCKSIZE == 0 ==> r == Ok::<JsDiskImage, DiskError>(
                JsDiskImage { handle },
            ),
            handle.size_bytes % DISK_BLOCKSIZE != 0 ==> r == Err::<JsDiskImage, DiskError>(
                DiskError::NotBlockMultiple { name: handle.name, size_bytes: handle.size_bytes },
            ),
            r is Ok <==> handle.size_bytes % DISK_BLOCKSIZE == 0,
    {
        if handle.size_bytes % DISK_BLOCKSIZE != 0 {
            return Err(
                DiskError::NotBlockMultiple { name: handle.name, size_bytes: handle.size_bytes },
            );
        }
        Ok(JsDiskImage { handle })
    }

    /// Length of the image in bytes; an exact multiple of the block size.
    pub fn byte_len(&self) -> (len: usize)
        ensures
            len == self.handle.size_bytes,
    {
        self.handle.size_bytes
    }

    /// The image keeps no in-memory copy of its media; reads go through the
    /// backing region.
    pub fn media_bytes(&self) -> (r: Option<&[u8]>)
        ensures
            r is None,
    {
        None
    }

    /// Display name of the backing region.
    pub fn image_name(&self) -> (name: &String)
        ensures
            name@ == self.handle.name@,
    {
        &self.handle.name
    }
}

} // verus!
