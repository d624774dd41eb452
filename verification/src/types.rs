//! Core types for archive items and update operations.

use vstd::prelude::*;
use crate::error::Error;

verus! {

/// An instant given as a distance from the Unix epoch.
///
/// `before_epoch` tells the direction: `true` means the instant lies before
/// 1970-01-01. The epoch itself is represented with `before_epoch == false`
/// and a zero distance.
#[derive(Debug, Clone, Copy, PartialEq, Eq, Structural)]
pub struct UnixTime {
    /// True when the instant lies strictly before the Unix epoch.
    pub before_epoch: bool,
    /// Whole seconds of distance from the epoch.
    pub secs: u64,
    /// Nanoseconds beyond the whole seconds, below one billion.
    pub nanos: u32,
}

impl UnixTime {
    /// A well-formed time keeps `nanos` below one billion and represents
    /// the epoch itself as not lying before the epoch.
    pub open spec fn wf(self) -> bool {
        self.nanos < 1_000_000_000 && (self.before_epoch ==> self.secs > 0 || self.nanos > 0)
    }

    /// The instant `secs` seconds after the epoch.
    pub fn from_secs(secs: u64) -> (t: Self)
        ensures
            t == (UnixTime { before_epoch: false, secs, nanos: 0 }),
    {
        UnixTime { before_epoch: false, secs, nanos: 0 }
    }
}

/// Information about a single item (file or directory) in an archive.
#[derive(Debug, Clone)]
pub struct ArchiveItem {
    /// File or directory name (path within the archive).
    pub name: String,
    /// Uncompressed size in bytes.
    pub size: u64,
    /// Compressed size in bytes, if applicable.
    pub compressed_size: Option<u64>,
    /// Last modification time.
    pub modified: Option<UnixTime>,
    /// Creation time.
    pub created: Option<UnixTime>,
    /// Last access time.
    pub accessed: Option<UnixTime>,
    /// Whether this item is a directory.
    pub is_dir: bool,
    /// File attributes, if any.
    pub attributes: Option<u32>,
    /// CRC32 checksum, if any.
    pub crc: Option<u32>,
    /// Whether this item is encrypted.
    pub encrypted: bool,
}

impl ArchiveItem {
    /// Create a new file item with just a name and a size.
    pub fn file(name: String, size: u64) -> (r: Self)
        ensures
            r == (ArchiveItem {
                name,
                size,
                compressed_size: None,
                modified: None,
                created: None,
                accessed: None,
                is_dir: false,
                attributes: None,
                crc: None,
                encrypted: false,
            }),
    {
        ArchiveItem {
            name,
            size,
            compressed_size: None,
            modified: None,
            created: None,
            accessed: None,
            is_dir: false,
            attributes: None,
            crc: None,
            encrypted: false,
        }
    }

    /// Create a new directory item.
    pub fn directory(name: String) -> (r: Self)
        ensures
            r == (ArchiveItem {
                name,
                size: 0,
                compressed_size: None,
                modified: None,
                created: None,
                accessed: None,
                is_dir: true,
                attributes: None,
                crc: None,
                encrypted: false,
            }),
    {
        ArchiveItem {
            name,
            size: 0,
            compressed_size: None,
            modified: None,
            created: None,
            accessed: None,
            is_dir: true,
            attributes: None,
            crc: None,
            encrypted: false,
        }
    }

    /// Set the compressed size.
    pub fn with_compressed_size(self, size: u64) -> (r: Self)
        ensures
            r == (ArchiveItem { compressed_size: Some(size), ..self }),
    {
        ArchiveItem { compressed_size: Some(size), ..self }
    }

    /// Set the modification time.
    pub fn with_modified(self, time: UnixTime) -> (r: Self)
        ensures
            r == (ArchiveItem { modified: Some(time), ..self }),
    {
        ArchiveItem { modified: Some(time), ..self }
    }

    /// Set the creation time.
    pub fn with_created(self, time: UnixTime) -> (r: Self)
        ensures
            r == (ArchiveItem { created: Some(time), ..self }),
    {
        ArchiveItem { created: Some(time), ..self }
    }

    /// Set the last access time.
    pub fn with_accessed(self, time: UnixTime) -> (r: Self)
        ensures
            r == (ArchiveItem { accessed: Some(time), ..self }),
    {
        ArchiveItem { accessed: Some(time), ..self }
    }

    /// Set the file attributes.
    pub fn with_attributes(self, attrs: u32) -> (r: Self)
        ensures
            r == (ArchiveItem { attributes: Some(attrs), ..self }),
    {
        ArchiveItem { attributes: Some(attrs), ..self }
    }

    /// Set the CRC32 checksum.
    pub fn with_crc(self, crc: u32) -> (r: Self)
        ensures
            r == (ArchiveItem { crc: Some(crc), ..self }),
    {
        ArchiveItem { crc: Some(crc), ..self }
    }

    /// Mark this item as encrypted.
    pub fn with_encrypted(self, encrypted: bool) -> (r: Self)
        ensures
            r == (ArchiveItem { encrypted, ..self }),
    {
        ArchiveItem { encrypted, ..self }
    }
}

/// A callback for requesting a password when reading an encrypted archive.
///
/// `Ok(Some(password))` carries a password from the user, `Ok(None)` means no
/// password is available (cancelled or unsupported), and `Err` reports a
/// failure while asking.
pub trait PasswordRequester {
    /// Request a password from the user.
    fn get_password(&self) -> Result<Option<String>, Error>;
}

/// A callback for obtaining the password when creating an encrypted archive.
///
/// `Ok(Some(password))` asks for encryption with that password, `Ok(None)`
/// means no encryption was requested, and `Err` reports a failure.
pub trait PasswordProvider {
    /// Get the password for encrypting the new archive.
    fn get_password(&self) -> Result<Option<String>, Error>;
}

/// Describes one update operation for archive editing.
#[derive(Debug, Clone)]
pub enum UpdateItem {
    /// Copy an existing item from the source archive by index.
    CopyExisting {
        /// Index of the item in the original archive.
        index: usize,
        /// New name when renaming, or `None` to keep the original name.
        new_name: Option<String>,
    },
    /// Add new data to the archive.
    AddNew {
        /// Name (path) for the new item.
        name: String,
        /// The data to add.
        data: Vec<u8>,
    },
}

} // verus!
