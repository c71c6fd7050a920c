//! Entries of cached images.

use crate::outside::buffers::{as_slice, content, no_bytes};
use crate::outside::sodium::{sha256_digest, sha256_of};
use crate::text::{hex, to_hex};
use crate::utils::{now_as_millis, shown_by_clock};
use bytes::Bytes;
use vstd::prelude::*;

verus! {

/// An image in the cache.
///
/// In the database the bytes stand apart from the rest; `bytes_len` keeps their number where they
/// are left out.
pub struct ImageEntry {
    pub bytes: Bytes,
    pub bytes_len: u64,
    pub mime_type: String,
    pub save_time: u64,
    pub checksum: Vec<u8>,
}

impl ImageEntry {
    /// The entry speaks of the bytes that it holds.
    pub open spec fn complete(self) -> bool {
        &&& self.bytes_len == content(self.bytes).len()
        &&& self.checksum@ == sha256_digest(content(self.bytes))
    }

    /// The entry for an image that was saved at the time `save_time`.
    pub fn saved_at(bytes: Bytes, mime_type: String, save_time: u64) -> (entry: Self)
        ensures
            entry.bytes == bytes,
            entry.mime_type == mime_type,
            entry.save_time == save_time,
            entry.complete(),
    {
        let bytes_len: u64 = as_slice(&bytes).len() as u64;
        let checksum: Vec<u8> = sha256_of(as_slice(&bytes));
        ImageEntry { bytes, bytes_len, mime_type, save_time, checksum }
    }

    /// The entry for an image that is saved now.
    pub fn new_assume(bytes: Bytes, mime_type: String) -> (entry: Self)
        ensures
            entry.bytes == bytes,
            entry.mime_type == mime_type,
            shown_by_clock(entry.save_time),
            entry.complete(),
    {
        Self::saved_at(bytes, mime_type, now_as_millis())
    }

    /// The number of bytes in the image, also where the bytes are left out.
    pub fn get_bytes_len(&self) -> (len: u64)
        ensures
            len == self.bytes_len,
    {
        self.bytes_len
    }

    /// The media type of the image.
    pub fn get_mime(&self) -> (mime: &str)
        ensures
            mime@ == self.mime_type@,
    {
        self.mime_type.as_str()
    }

    /// The checksum in hexadecimal. It identifies the content of the image.
    pub fn get_checksum_hex(&self) -> (text: String)
        ensures
            text@ == hex(self.checksum@),
    {
        to_hex(self.checksum.as_slice())
    }
}

/// The entry without its bytes, as it stands in the metadata.
pub open spec fn is_metadata_of(meta: ImageEntry, entry: ImageEntry) -> bool {
    &&& content(meta.bytes) == Seq::<u8>::empty()
    &&& meta == ImageEntry { bytes: meta.bytes, ..entry }
}

/// Parts an entry into its bytes and its metadata, which are stored apart.
pub fn split_entry(entry: ImageEntry) -> (parts: (Bytes, ImageEntry))
    ensures
        parts.0 == entry.bytes,
        is_metadata_of(parts.1, entry),
{
    let meta = ImageEntry {
        bytes: no_bytes(),
        bytes_len: entry.bytes_len,
        mime_type: entry.mime_type,
        save_time: entry.save_time,
        checksum: entry.checksum,
    };
    (entry.bytes, meta)
}

/// What a lookup found of the metadata of an image.
pub enum FoundMeta {
    /// There is no metadata.
    Missing,
    /// There is metadata, but it cannot be read.
    Unreadable,
    /// The metadata.
    Found(ImageEntry),
}

/// The result of a lookup, from the two parts that were found: an entry only if both were, and an
/// error only if there are bytes but the metadata cannot be read.
pub open spec fn joined(data: Option<Bytes>, meta: FoundMeta) -> Result<Option<ImageEntry>, ()> {
    match (data, meta) {
        (Some(bytes), FoundMeta::Found(entry)) => Ok(Some(ImageEntry { bytes, ..entry })),
        (Some(_), FoundMeta::Unreadable) => Err(()),
        _ => Ok(None),
    }
}

/// Joins what a lookup found.
pub fn join_entry(data: Option<Bytes>, meta: FoundMeta) -> (r: Result<Option<ImageEntry>, ()>)
    ensures
        r == joined(data, meta),
{
    match (data, meta) {
        (Some(bytes), FoundMeta::Found(entry)) => Ok(
            Some(
                ImageEntry {
                    bytes,
                    bytes_len: entry.bytes_len,
                    mime_type: entry.mime_type,
                    save_time: entry.save_time,
                    checksum: entry.checksum,
                },
            ),
        ),
        (Some(_), FoundMeta::Unreadable) => Err(()),
        _ => Ok(None),
    }
}

/// A lookup that finds both parts of a saved entry gives the entry back.
pub proof fn lookup_gives_back_the_saved_entry(entry: ImageEntry, data: Bytes, meta: ImageEntry)
    requires
        data == entry.bytes,
        is_metadata_of(meta, entry),
    ensures
        joined(Some(data), FoundMeta::Found(meta)) == Ok::<Option<ImageEntry>, ()>(Some(entry)),
{
}

/// Entries for the same content have the same checksum text.
pub proof fn same_content_same_checksum(a: ImageEntry, b: ImageEntry)
    requires
        a.complete(),
        b.complete(),
        content(a.bytes) == content(b.bytes),
    ensures
        hex(a.checksum@) == hex(b.checksum@),
{
}

} // verus!
