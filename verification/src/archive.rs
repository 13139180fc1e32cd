//! Reading entries of an OOXML package (a ZIP archive held in memory).
use vstd::prelude::*;

use std::io::{Cursor, Read};
use zip::ZipArchive;

verus! {

/// The outcome of reading one entry of a ZIP archive.
#[derive(Debug, Clone, PartialEq, Eq)]
pub enum ZipEntry {
    /// The bytes are not a ZIP archive; the message says why.
    NoArchive(String),
    /// The archive has no readable entry of that name; the message says why.
    Missing(String),
    /// The entry exists but its bytes could not be read; the message says why.
    Unreadable(String),
    /// The entry's bytes.
    Bytes(Vec<u8>),
}

/// The mathematical value of a [`ZipEntry`].
pub enum ZipEntryV {
    NoArchive(Seq<char>),
    Missing(Seq<char>),
    Unreadable(Seq<char>),
    Bytes(Seq<u8>),
}

impl DeepView for ZipEntry {
    type V = ZipEntryV;

    open spec fn deep_view(&self) -> ZipEntryV {
        match self {
            ZipEntry::NoArchive(m) => ZipEntryV::NoArchive(m@),
            ZipEntry::Missing(m) => ZipEntryV::Missing(m@),
            ZipEntry::Unreadable(m) => ZipEntryV::Unreadable(m@),
            ZipEntry::Bytes(b) => ZipEntryV::Bytes(b@),
        }
    }
}

/// What the `zip` crate reads for the entry `name` of the archive `archive`.
pub uninterp spec fn zip_entry_of(archive: Seq<u8>, name: Seq<char>) -> ZipEntryV;

/// The entry names of the archive `archive`, in the archive's order (empty
/// when the bytes are not a ZIP archive).
pub uninterp spec fn zip_names_of(archive: Seq<u8>) -> Seq<Seq<char>>;

/// Read the entry `name` of the in-memory ZIP archive `archive`.
///
/// Trusted: calls `ZipArchive::new`, `ZipArchive::by_name` and
/// `Read::read_to_end` of the `zip` crate and reports which of them failed,
/// with the error's message; the outcome is claimed to be a function of the
/// archive bytes and the name only.
#[verifier::external_body]
pub(crate) fn zip_entry(archive: &[u8], name: &str) -> (r: ZipEntry)
    ensures
        r.deep_view() == zip_entry_of(archive@, name@),
{
    let mut z = match ZipArchive::new(Cursor::new(archive)) {
        Ok(z) => z,
        Err(e) => return ZipEntry::NoArchive(e.to_string()),
    };
    let mut f = match z.by_name(name) {
        Ok(f) => f,
        Err(e) => return ZipEntry::Missing(e.to_string()),
    };
    let mut buf = Vec::new();
    match f.read_to_end(&mut buf) {
        Ok(_) => ZipEntry::Bytes(buf),
        Err(e) => ZipEntry::Unreadable(e.to_string()),
    }
}

/// The entry names of the in-memory ZIP archive `archive`.
///
/// Trusted: calls `ZipArchive::new` and `ZipArchive::file_names` of the `zip`
/// crate; an archive that does not open has no names. The names are claimed
/// to be a function of the archive bytes only.
#[verifier::external_body]
pub(crate) fn zip_file_names(archive: &[u8]) -> (names: Vec<String>)
    ensures
        names.deep_view() == zip_names_of(archive@),
{
    match ZipArchive::new(Cursor::new(archive)) {
        Ok(z) => z.file_names().map(str::to_owned).collect(),
        Err(_) => Vec::new(),
    }
}

} // verus!
