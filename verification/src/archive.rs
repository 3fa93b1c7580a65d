use vstd::prelude::*;

use std::io::Read;

verus! {

/// The model of one archive member's metadata, as the ZIP backend
/// exposes it: the decoded member name, the exact name bytes the
/// archive stores (lookups by name compare these), and the declared
/// uncompressed size. The backend keys members by their stored name
/// bytes, so distinct entries carry distinct `raw` fields.
pub ghost struct ArchiveEntry {
    /// The member name as the backend decodes it for display.
    pub name: Seq<char>,
    /// The exact stored name bytes.
    pub raw: Seq<u8>,
    /// The declared uncompressed size in bytes.
    pub size: u64,
}

/// What the ZIP backend makes of a byte buffer: `Some` of the member
/// metadata, in archive physical order, exactly when the buffer's
/// central directory parses and every member can be opened for reading;
/// `None` otherwise. The member list is a function of the bytes alone.
pub uninterp spec fn zip_parse(data: Seq<u8>) -> Option<Seq<ArchiveEntry>>;

/// The fully decompressed contents of member `i` of the buffer: `Some`
/// of the bytes exactly when opening and reading that member succeeds,
/// `None` otherwise. A function of the bytes and the index alone.
pub uninterp spec fn zip_entry_content(data: Seq<u8>, i: int) -> Option<Seq<u8>>;

/// No two entries store the same name bytes.
pub open spec fn distinct_raw_names(es: Seq<ArchiveEntry>) -> bool {
    forall|i: int, j: int| 0 <= i < j < es.len() ==> es[i].raw != es[j].raw
}

/// Entry `i` exists and stores exactly the name bytes `raw`.
pub open spec fn raw_name_at(es: Seq<ArchiveEntry>, i: int, raw: Seq<u8>) -> bool {
    0 <= i < es.len() && es[i].raw == raw
}

/// A byte buffer whose members can all be read in full, each yielding
/// exactly as many bytes as its declared size.
pub open spec fn archive_fully_readable(data: Seq<u8>) -> bool {
    zip_parse(data) matches Some(es) && forall|i: int|
        0 <= i < es.len() ==> (#[trigger] zip_entry_content(data, i) matches Some(c) && c.len()
            == es[i].size)
}

/// How an archive operation of the ZIP backend fails.
pub enum ArchiveFault {
    /// The bytes do not form a readable archive, or a member cannot be
    /// opened.
    Invalid { message: String },
    /// Reading a member's contents failed partway.
    ReadFailed { message: String },
    /// No member bears the requested name.
    NotFound,
}

/// Relies on `zip::ZipArchive::new` over an in-memory cursor: it parses
/// the buffer's central directory and reports how many members the
/// archive lists. A parse failure means no member is reachable at all.
#[verifier::external_body]
pub fn zip_member_count(data: &[u8]) -> (r: Result<usize, ArchiveFault>)
    ensures
        (match r {
            Ok(n) => zip_parse(data@) matches Some(es) ==> es.len() == n as nat,
            Err(f) => zip_parse(data@) is None && f is Invalid,
        }),
        zip_parse(data@) is Some ==> r is Ok,
{
    match zip::ZipArchive::new(std::io::Cursor::new(data)) {
        Ok(a) => Ok(a.len()),
        Err(e) => Err(ArchiveFault::Invalid { message: e.to_string() }),
    }
}

/// Relies on `zip::ZipArchive::new` and `ZipArchive::by_index`: the
/// member's decoded name, platform-mangled relative path and declared
/// uncompressed size, read from the archive's metadata. The mangled
/// path is rendered with the platform's separator, so nothing is stated
/// of its text.
#[verifier::external_body]
pub fn zip_entry_meta(data: &[u8], i: usize) -> (r: Result<(String, String, u64), ArchiveFault>)
    ensures
        (match r {
            Ok(m) => zip_parse(data@) matches Some(es) ==> (i < es.len() ==> m.0@ == es[
                i as int
            ].name && m.2 == es[i as int].size),
            Err(f) => !(zip_parse(data@) matches Some(es) && i < es.len()) && f is Invalid,
        }),
        (zip_parse(data@) matches Some(es) && i < es.len()) ==> r is Ok,
{
    let mut a = zip::ZipArchive::new(std::io::Cursor::new(data))
        .map_err(|e| ArchiveFault::Invalid { message: e.to_string() })?;
    let f = a.by_index(i).map_err(|e| ArchiveFault::Invalid { message: e.to_string() })?;
    let name = f.name().to_string();
    let path = f.mangled_name().display().to_string();
    let size = f.size();
    Ok((name, path, size))
}

/// Relies on `zip::ZipArchive::new`, `ZipArchive::by_index` and
/// `Read::read_to_end`: member `i`, decompressed in full into memory.
#[verifier::external_body]
pub fn zip_read_by_index(data: &[u8], i: usize) -> (r: Result<Vec<u8>, ArchiveFault>)
    ensures
        (match r {
            Ok(b) => zip_entry_content(data@, i as int) == Some(b@),
            Err(f) => zip_entry_content(data@, i as int) is None && !(f is NotFound),
        }),
{
    let mut a = zip::ZipArchive::new(std::io::Cursor::new(data))
        .map_err(|e| ArchiveFault::Invalid { message: e.to_string() })?;
    let mut f = a.by_index(i).map_err(|e| ArchiveFault::Invalid { message: e.to_string() })?;
    let mut buffer = Vec::new();
    match f.read_to_end(&mut buffer) {
        Ok(_) => Ok(buffer),
        Err(e) => Err(ArchiveFault::ReadFailed { message: e.to_string() }),
    }
}

/// Relies on `zip::ZipArchive::new`, `ZipArchive::by_name` and
/// `Read::read_to_end`: the member whose stored name bytes equal
/// `name`'s bytes, decompressed in full; `NotFound` exactly when the
/// archive parses and no member's stored name bytes match.
#[verifier::external_body]
pub fn zip_read_by_name(data: &[u8], name: &str) -> (r: Result<Vec<u8>, ArchiveFault>)
    ensures
        (match r {
            Ok(b) => zip_parse(data@) matches Some(es) ==> distinct_raw_names(es) && (exists|i: int|
                raw_name_at(es, i, vstd::utf8::encode_utf8(name@)) && zip_entry_content(data@, i)
                    == Some(b@)),
            Err(f) => zip_parse(data@) matches Some(es) ==> distinct_raw_names(es) && !(exists|
                i: int|
                raw_name_at(es, i, vstd::utf8::encode_utf8(name@)) && zip_entry_content(data@, i)
                    is Some) && (f is NotFound <==> (forall|i: int|
                0 <= i < es.len() ==> es[i].raw != vstd::utf8::encode_utf8(name@))),
        }),
{
    let mut a = zip::ZipArchive::new(std::io::Cursor::new(data))
        .map_err(|e| ArchiveFault::Invalid { message: e.to_string() })?;
    let mut f = match a.by_name(name) {
        Ok(f) => f,
        Err(zip::result::ZipError::FileNotFound) => return Err(ArchiveFault::NotFound),
        Err(e) => return Err(ArchiveFault::Invalid { message: e.to_string() }),
    };
    let mut buffer = Vec::new();
    match f.read_to_end(&mut buffer) {
        Ok(_) => Ok(buffer),
        Err(e) => Err(ArchiveFault::ReadFailed { message: e.to_string() }),
    }
}

} // verus!
