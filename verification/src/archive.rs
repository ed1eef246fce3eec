//! Reading the packed multi-entry archive a batched synthesis call returns.
//! The archive format is handled by the zip crate behind trusted items; the
//! unpacking order and the slot assignment around them are verified.
//!
//! The archive lives wholly in memory, so what its bytes parse to — the
//! entry table, what each member holds, and whether a member can be read at
//! all — is a function of the bytes alone, and the model below speaks of
//! that function.

use vstd::prelude::*;

verus! {

#[verifier::external_type_specification]
#[verifier::external_body]
#[verifier::reject_recursive_types(R)]
pub struct ExZipArchive<R>(zip::read::ZipArchive<R>);

#[verifier::external_type_specification]
#[verifier::external_body]
#[verifier::reject_recursive_types(T)]
pub struct ExCursor<T>(std::io::Cursor<T>);

#[verifier::external_type_specification]
#[verifier::external_body]
pub struct ExZipError(zip::result::ZipError);

/// What one archive member holds: the decompressed bytes of a plain file, a
/// member that is no file (a directory or link), or a member the reader
/// cannot decode.
pub enum ArchiveEntry {
    File(Seq<u8>),
    NotFile,
    Unreadable,
}

/// What a byte string parses to as an archive: nothing when the bytes are
/// not a readable archive, else one entry per archive member in member
/// order.
pub uninterp spec fn zip_entries_of(bytes: Seq<u8>) -> Option<Seq<ArchiveEntry>>;

/// The entry table held by a parsed archive value.
pub uninterp spec fn archive_entries(a: zip::read::ZipArchive<std::io::Cursor<Vec<u8>>>) -> Seq<
    ArchiveEntry,
>;

/// An unpacked entry agrees with its spec-level counterpart.
pub open spec fn entry_matches(e: Option<Vec<u8>>, s: ArchiveEntry) -> bool {
    match (e, s) {
        (Some(v), ArchiveEntry::File(b)) => v@ == b,
        (None, ArchiveEntry::NotFile) => true,
        _ => false,
    }
}

/// Relies on zip::read::ZipArchive::new over an in-memory reader: it parses
/// the archive's central directory, succeeding or failing on the bytes
/// alone, and the parsed value holds those bytes' entry table.
#[verifier::external_body]
pub(crate) fn open_archive(data: Vec<u8>) -> (r: Result<
    zip::read::ZipArchive<std::io::Cursor<Vec<u8>>>,
    zip::result::ZipError,
>)
    ensures
        r is Ok <==> zip_entries_of(data@) is Some,
        r is Ok ==> archive_entries(r.unwrap()) == zip_entries_of(data@).unwrap(),
{
    zip::read::ZipArchive::new(std::io::Cursor::new(data))
}

/// Relies on zip::read::ZipArchive::len: the number of entries in the
/// archive's entry table.
#[verifier::external_body]
pub(crate) fn archive_len(a: &zip::read::ZipArchive<std::io::Cursor<Vec<u8>>>) -> (r: usize)
    ensures
        r == archive_entries(*a).len(),
{
    a.len()
}

/// Relies on zip::read::ZipArchive::by_index, zip::read::ZipFile::is_file
/// and std::io::Read::read_to_end: over an in-memory archive, whether an
/// entry can be read, and what it yields — its decompressed bytes for a
/// plain file, nothing for a directory or link — depend on the archive
/// bytes and the index alone, and reading leaves the entry table as it was.
#[verifier::external_body]
pub(crate) fn read_entry(a: &mut zip::read::ZipArchive<std::io::Cursor<Vec<u8>>>, i: usize) -> (r:
    Result<Option<Vec<u8>>, zip::result::ZipError>)
    requires
        i < archive_entries(*old(a)).len(),
    ensures
        archive_entries(*final(a)) == archive_entries(*old(a)),
        r is Ok <==> !(archive_entries(*old(a))[i as int] is Unreadable),
        r matches Ok(e) ==> entry_matches(e, archive_entries(*old(a))[i as int]),
{
    let mut f = match a.by_index(i) {
        Ok(f) => f,
        Err(e) => {
            return Err(e);
        },
    };
    if !f.is_file() {
        return Ok(None);
    }
    let mut buf: Vec<u8> = Vec::new();
    match std::io::Read::read_to_end(&mut f, &mut buf) {
        Ok(_) => Ok(Some(buf)),
        Err(e) => Err(zip::result::ZipError::Io(e)),
    }
}

} // verus!
