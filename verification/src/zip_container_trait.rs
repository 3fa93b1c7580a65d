use vstd::prelude::*;

use crate::BufFile;
use crate::ZipContainer;
use crate::ZipContainerResult;
use crate::archive::ArchiveEntry;
use crate::archive::ArchiveFault;
use crate::archive::archive_fully_readable;
use crate::archive::distinct_raw_names;
use crate::archive::raw_name_at;
use crate::archive::zip_entry_content;
use crate::archive::zip_entry_meta;
use crate::archive::zip_member_count;
use crate::archive::zip_parse;
use crate::archive::zip_read_by_index;
use crate::archive::zip_read_by_name;
use crate::container_error::ZipContainerError;
use crate::container_error::invalid_data;
use crate::container_error::io_error;
use crate::container_error::missing_value;
use crate::container_error::text_decode_error;
use crate::container_error::unsupported_operation;
use crate::text::spec_decimal;
use crate::text::string_from_utf8;
use crate::text::u64_to_decimal;
use vstd::string::StringExecFns;
use vstd::utf8::decode_utf8;
use vstd::utf8::encode_utf8;
use vstd::utf8::valid_utf8;

verus! {

/// The capability of obtaining a byte buffer from a location string
/// (a filesystem path or a URL), blocking until it is available.
///
/// The core algorithms are written against this interface; an execution
/// environment injects whichever strategy it can support. Nothing is
/// assumed about the bytes a loader hands back: every caller in this
/// crate states what holds of its own result whatever the loader did.
pub trait FileLoader {
    /// Obtains the full contents at `path_or_url`, or reports why it
    /// cannot.
    fn load(&self, path_or_url: &str) -> ZipContainerResult<Vec<u8>>;
}

/// The loader available where the host environment grants no ambient
/// filesystem or socket capability: every load is refused as
/// `UnsupportedOperation` rather than attempted.
///
/// Environments that can perform blocking reads and HTTP fetches inject
/// their own `FileLoader` instead (see the accompanying application
/// crate); archive-member resolution does not go through a loader and
/// works with this one.
pub struct UnifiedFileLoader;

impl FileLoader for UnifiedFileLoader {
    fn load(&self, path_or_url: &str) -> (r: ZipContainerResult<Vec<u8>>)
        ensures
            r matches Err(e) && e is UnsupportedOperation,
    {
        Err(
            unsupported_operation(
                "load",
                "blocking file loading is not supported in this environment",
            ),
        )
    }
}

/// A record at the listed stage for entry `e` at index `i`: name, size,
/// path and ordinal id known, content absent.
pub open spec fn is_listed_record(f: BufFile, e: ArchiveEntry, i: int) -> bool {
    &&& f.name matches Some(n) && n@ == e.name
    &&& f.content is None
    &&& f.file_id matches Some(d) && d@ == spec_decimal(i as nat)
    &&& f.content_type is None
    &&& f.path is Some
    &&& f.size == Some(e.size)
}

/// A record at the materialized stage for entry `e` at index `i` of the
/// buffer `data`: as listed, but with the member's contents populated
/// and as long as the declared size.
pub open spec fn is_materialized_record(f: BufFile, data: Seq<u8>, e: ArchiveEntry, i: int) -> bool {
    &&& f.name matches Some(n) && n@ == e.name
    &&& f.content matches Some(c) && zip_entry_content(data, i) == Some(c@) && c@.len() == e.size
    &&& f.file_id matches Some(d) && d@ == spec_decimal(i as nat)
    &&& f.content_type is None
    &&& f.path is Some
    &&& f.size == Some(e.size)
}

/// Maps an archive fault to the container's error taxonomy: a
/// structural fault or a missing member is invalid data (the missing
/// member's name is preserved in the message), a failed read is an I/O
/// fault.
fn fault_error(op: &str, name: &str, f: ArchiveFault) -> (e: ZipContainerError)
    ensures
        f is Invalid ==> e is InvalidData,
        f is ReadFailed ==> e is IOError,
        f is NotFound ==> e is InvalidData,
{
    match f {
        ArchiveFault::Invalid { message } => invalid_data(op, message),
        ArchiveFault::ReadFailed { message } => io_error(op, message),
        ArchiveFault::NotFound => {
            let mut m = String::from_str("no archive member is named ");
            m.append(name);
            invalid_data(op, m)
        },
    }
}

/// One archive, two stages: a listed enumeration (`get_zip_files`) and
/// a materialized enumeration (`extract_all`) of the same archive
/// describe the same members — equal count and, member for member, the
/// same name, ordinal id and declared size; contents are absent
/// throughout the first and present throughout the second, each exactly
/// as long as the declared size.
pub proof fn lemma_listed_matches_materialized(
    listed: Seq<BufFile>,
    materialized: Seq<BufFile>,
    data: Seq<u8>,
    es: Seq<ArchiveEntry>,
)
    requires
        zip_parse(data) == Some(es),
        listed.len() == es.len(),
        forall|i: int| 0 <= i < es.len() ==> is_listed_record(#[trigger] listed[i], es[i], i),
        materialized.len() == es.len(),
        forall|i: int|
            0 <= i < es.len() ==> is_materialized_record(#[trigger] materialized[i], data, es[i], i),
    ensures
        listed.len() == materialized.len(),
        forall|i: int|
            0 <= i < listed.len() ==> {
                &&& (#[trigger] listed[i]).name matches Some(a) && materialized[i].name
                    matches Some(b) && a@ == b@
                &&& listed[i].file_id matches Some(a) && materialized[i].file_id matches Some(b)
                    && a@ == b@
                &&& listed[i].size == materialized[i].size
                &&& listed[i].content is None
                &&& materialized[i].content matches Some(c) && listed[i].size == Some(
                    c@.len() as u64,
                )
            },
{
}

/// The required capabilities of a container, and atop them the archive
/// enumeration, extraction and resolution algorithms as provided
/// methods.
///
/// The three required methods expose the container's state; the three
/// spec functions are its model: the archive bytes (if loaded), the
/// definition location (if set), and the member records (if
/// materialized).
pub trait ZipContainerTrait: Sized {
    /// The archive bytes this container holds, if loaded.
    spec fn zip_data_model(&self) -> Option<Seq<u8>>;

    /// The definition location, if set.
    spec fn definition_path_model(&self) -> Option<Seq<char>>;

    /// The member records, if materialized.
    spec fn files_model(&self) -> Option<Seq<BufFile>>;

    /// Borrows the archive bytes; `MissingValue` when none are loaded.
    fn zip_data(&self) -> (r: ZipContainerResult<&[u8]>)
        ensures
            (match r {
                Ok(d) => self.zip_data_model() == Some(d@),
                Err(e) => self.zip_data_model() is None && e is MissingValue && e.spec_message()
                    == "zip_data is not set"@,
            }),
    ;

    /// Borrows the definition location; `MissingValue` when none is
    /// set.
    fn definition_path(&self) -> (r: ZipContainerResult<&str>)
        ensures
            (match r {
                Ok(p) => self.definition_path_model() == Some(p@),
                Err(e) => self.definition_path_model() is None && e is MissingValue
                    && e.spec_message() == "definition_path is not set"@,
            }),
    ;

    /// Replaces the member records wholesale with a list computed
    /// elsewhere; the rest of the container is kept.
    fn set_files(&mut self, files: Vec<BufFile>)
        ensures
            final(self).files_model() == Some(files@),
            final(self).zip_data_model() == old(self).zip_data_model(),
            final(self).definition_path_model() == old(self).definition_path_model(),
    ;

    /// Lists the member names: one per member, in archive physical
    /// order, duplicates as the backend exposes them.
    fn get_file_names(&self) -> (r: ZipContainerResult<Vec<String>>)
        ensures
            (match r {
                Ok(names) => self.zip_data_model() matches Some(data) && (zip_parse(data)
                    matches Some(es) ==> names@.len() == es.len() && (forall|i: int|
                    0 <= i < es.len() ==> #[trigger] names@[i]@ == es[i].name)),
                Err(e) => match self.zip_data_model() {
                    None => e is MissingValue && e.spec_message() == "zip_data is not set"@,
                    Some(data) => zip_parse(data) is None && e is InvalidData,
                },
            }),
            (self.zip_data_model() matches Some(data) && zip_parse(data) is Some) ==> r is Ok,
    {
        let data = match self.zip_data() {
            Ok(d) => d,
            Err(e) => return Err(e),
        };
        let n = match zip_member_count(data) {
            Ok(n) => n,
            Err(f) => return Err(fault_error("get_file_names", "", f)),
        };
        let mut names: Vec<String> = Vec::new();
        let mut i: usize = 0;
        while i < n
            invariant
                i <= n,
                self.zip_data_model() == Some(data@),
                zip_parse(data@) matches Some(es) ==> es.len() == n as nat,
                names@.len() == i as nat,
                zip_parse(data@) matches Some(es) ==> (forall|k: int|
                    0 <= k < i ==> #[trigger] names@[k]@ == es[k].name),
            decreases n - i,
        {
            let m = match zip_entry_meta(data, i) {
                Ok(m) => m,
                Err(f) => return Err(fault_error("get_file_names", "", f)),
            };
            names.push(m.0);
            i = i + 1;
        }
        Ok(names)
    }

    /// Lists the members at the listed stage: one record per member in
    /// archive physical order, each with its name, declared size,
    /// mangled path and ordinal id, and with content absent.
    fn get_zip_files(&self) -> (r: ZipContainerResult<Vec<BufFile>>)
        ensures
            (match r {
                Ok(files) => self.zip_data_model() matches Some(data) && (zip_parse(data)
                    matches Some(es) ==> files@.len() == es.len() && (forall|i: int|
                    0 <= i < es.len() ==> is_listed_record(#[trigger] files@[i], es[i], i))),
                Err(e) => match self.zip_data_model() {
                    None => e is MissingValue && e.spec_message() == "zip_data is not set"@,
                    Some(data) => zip_parse(data) is None && e is InvalidData,
                },
            }),
            (self.zip_data_model() matches Some(data) && zip_parse(data) is Some) ==> r is Ok,
    {
        let data = match self.zip_data() {
            Ok(d) => d,
            Err(e) => return Err(e),
        };
        let n = match zip_member_count(data) {
            Ok(n) => n,
            Err(f) => return Err(fault_error("get_zip_files", "", f)),
        };
        let mut files: Vec<BufFile> = Vec::new();
        let mut i: usize = 0;
        while i < n
            invariant
                i <= n,
                self.zip_data_model() == Some(data@),
                zip_parse(data@) matches Some(es) ==> es.len() == n as nat,
                files@.len() == i as nat,
                zip_parse(data@) matches Some(es) ==> (forall|k: int|
                    0 <= k < i ==> is_listed_record(#[trigger] files@[k], es[k], k)),
            decreases n - i,
        {
            let m = match zip_entry_meta(data, i) {
                Ok(m) => m,
                Err(f) => return Err(fault_error("get_zip_files", "", f)),
            };
            let (name, path, size) = m;
            let file_id = u64_to_decimal(i as u64);
            files.push(
                BufFile {
                    name: Some(name),
                    content: None,
                    file_id: Some(file_id),
                    content_type: None,
                    path: Some(path),
                    size: Some(size),
                },
            );
            i = i + 1;
        }
        Ok(files)
    }

    /// Materializes every member: one record per member in archive
    /// physical order, each with its contents read fully into memory. A
    /// member that cannot be read, or whose contents are not exactly as
    /// long as its declared size, surfaces an error instead.
    fn extract_all(&self) -> (r: ZipContainerResult<Vec<BufFile>>)
        ensures
            (match r {
                Ok(files) => self.zip_data_model() matches Some(data) && (zip_parse(data)
                    matches Some(es) ==> files@.len() == es.len() && (forall|i: int|
                    0 <= i < es.len() ==> is_materialized_record(
                        #[trigger] files@[i],
                        data,
                        es[i],
                        i,
                    ))),
                Err(e) => match self.zip_data_model() {
                    None => e is MissingValue && e.spec_message() == "zip_data is not set"@,
                    Some(data) => !archive_fully_readable(data) && (e is InvalidData
                        || e is IOError),
                },
            }),
            (self.zip_data_model() matches Some(data) && archive_fully_readable(data)) ==> r is Ok,
    {
        let data = match self.zip_data() {
            Ok(d) => d,
            Err(e) => return Err(e),
        };
        let n = match zip_member_count(data) {
            Ok(n) => n,
            Err(f) => return Err(fault_error("extract_all", "", f)),
        };
        let mut files: Vec<BufFile> = Vec::new();
        let mut i: usize = 0;
        while i < n
            invariant
                i <= n,
                self.zip_data_model() == Some(data@),
                zip_parse(data@) matches Some(es) ==> es.len() == n as nat,
                files@.len() == i as nat,
                zip_parse(data@) matches Some(es) ==> (forall|k: int|
                    0 <= k < i ==> is_materialized_record(#[trigger] files@[k], data@, es[k], k)),
            decreases n - i,
        {
            let m = match zip_entry_meta(data, i) {
                Ok(m) => m,
                Err(f) => return Err(fault_error("extract_all", "", f)),
            };
            let (name, path, size) = m;
            let content = match zip_read_by_index(data, i) {
                Ok(b) => b,
                Err(f) => return Err(fault_error("extract_all", "", f)),
            };
            if content.len() as u64 != size {
                return Err(
                    invalid_data(
                        "extract_all",
                        String::from_str("a member's contents do not match its declared size"),
                    ),
                );
            }
            let file_id = u64_to_decimal(i as u64);
            files.push(
                BufFile {
                    name: Some(name),
                    content: Some(content),
                    file_id: Some(file_id),
                    content_type: None,
                    path: Some(path),
                    size: Some(size),
                },
            );
            i = i + 1;
        }
        Ok(files)
    }

    /// Loads one member's bytes from the archive by exact name
    /// (comparing the stored name bytes).
    fn load_file_from_zip(&self, file_path: &str) -> (r: ZipContainerResult<Vec<u8>>)
        ensures
            (match r {
                Ok(b) => self.zip_data_model() matches Some(data) && (zip_parse(data)
                    matches Some(es) ==> distinct_raw_names(es) && (exists|i: int|
                    raw_name_at(es, i, encode_utf8(file_path@)) && zip_entry_content(data, i)
                        == Some(b@))),
                Err(e) => match self.zip_data_model() {
                    None => e is MissingValue && e.spec_message() == "zip_data is not set"@,
                    Some(data) => (zip_parse(data) matches Some(es) ==> distinct_raw_names(es)
                        && !(exists|i: int|
                        raw_name_at(es, i, encode_utf8(file_path@)) && zip_entry_content(data, i)
                            is Some)) && (e is InvalidData || e is IOError),
                },
            }),
            (self.zip_data_model() matches Some(data) && zip_parse(data) matches Some(es) && (exists|
                i: int|
                raw_name_at(es, i, encode_utf8(file_path@)) && zip_entry_content(data, i) is Some))
                ==> r is Ok,
    {
        let data = match self.zip_data() {
            Ok(d) => d,
            Err(e) => return Err(e),
        };
        match zip_read_by_name(data, file_path) {
            Ok(b) => Ok(b),
            Err(f) => Err(fault_error("load_file_from_zip", file_path, f)),
        }
    }

    /// Resolves a name to bytes: a member of the archive with that
    /// exact name takes precedence, even over a syntactically valid
    /// URL; otherwise the injected loader fetches the name as an
    /// external location. When neither resolves it, the failure is
    /// `MissingValue` whose message is the unresolved identifier
    /// itself.
    fn load_file<L: FileLoader>(&self, loader: &L, file_path_or_url: &str) -> (r:
        ZipContainerResult<Vec<u8>>)
        ensures
            self.zip_data_model() matches Some(data) ==> (zip_parse(data) matches Some(es) ==> ((
            exists|i: int|
                raw_name_at(es, i, encode_utf8(file_path_or_url@)) && zip_entry_content(data, i)
                    is Some) ==> (r matches Ok(b) && distinct_raw_names(es) && (exists|i: int|
                raw_name_at(es, i, encode_utf8(file_path_or_url@)) && zip_entry_content(data, i)
                    == Some(b@))))),
            r matches Err(e) ==> e is MissingValue && e.spec_message() == file_path_or_url@,
    {
        match self.load_file_from_zip(file_path_or_url) {
            Ok(b) => Ok(b),
            Err(_) => match loader.load(file_path_or_url) {
                Ok(b) => Ok(b),
                Err(_) => Err(missing_value("load_file", file_path_or_url)),
            },
        }
    }

    /// Locates the definition file via `load_file` (so an archive
    /// member of that name takes precedence over an external resource)
    /// and decodes it as UTF-8 text; bytes that are not valid UTF-8
    /// surface `TextDecodeError`, never a lossy decoding.
    fn load_definition_file_str<L: FileLoader>(&self, loader: &L) -> (r: ZipContainerResult<
        String,
    >)
        ensures
            self.definition_path_model() is None ==> (r matches Err(e) && e is MissingValue
                && e.spec_message() == "definition_path is not set"@),
            self.definition_path_model() matches Some(dp) ==> (self.zip_data_model()
                matches Some(data) ==> (zip_parse(data) matches Some(es) ==> (forall|i: int|
                raw_name_at(es, i, encode_utf8(dp)) ==> (#[trigger] zip_entry_content(data, i)
                    matches Some(c) ==> (if valid_utf8(c) {
                    r matches Ok(s) && s@ == decode_utf8(c)
                } else {
                    r matches Err(e) && e is TextDecodeError
                }))))),
    {
        let dp = match self.definition_path() {
            Ok(p) => p,
            Err(e) => return Err(e),
        };
        let bytes = match self.load_file(loader, dp) {
            Ok(b) => b,
            Err(e) => return Err(e),
        };
        match string_from_utf8(bytes) {
            Ok(s) => Ok(s),
            Err(m) => Err(text_decode_error("load_definition_file_str", m)),
        }
    }

    /// Enumerates and materializes every member and attaches the
    /// records to the container, replacing any previous list wholesale;
    /// calling it again is safe. On failure the container is unchanged.
    fn process_files(&mut self) -> (r: ZipContainerResult<()>)
        ensures
            final(self).zip_data_model() == old(self).zip_data_model(),
            final(self).definition_path_model() == old(self).definition_path_model(),
            (match r {
                Ok(_) => old(self).zip_data_model() matches Some(data) && final(self).files_model()
                    matches Some(files) && (zip_parse(data) matches Some(es) ==> files.len()
                    == es.len() && (forall|i: int|
                    0 <= i < es.len() ==> is_materialized_record(
                        #[trigger] files[i],
                        data,
                        es[i],
                        i,
                    ))),
                Err(e) => final(self).files_model() == old(self).files_model() && (match old(self).zip_data_model() {
                    None => e is MissingValue && e.spec_message() == "zip_data is not set"@,
                    Some(data) => !archive_fully_readable(data) && (e is InvalidData
                        || e is IOError),
                }),
            }),
            (old(self).zip_data_model() matches Some(data) && archive_fully_readable(data))
                ==> r is Ok,
    {
        let files = match self.extract_all() {
            Ok(fs) => fs,
            Err(e) => return Err(e),
        };
        self.set_files(files);
        Ok(())
    }
}

impl ZipContainerTrait for ZipContainer {
    open spec fn zip_data_model(&self) -> Option<Seq<u8>> {
        match self.zip_data {
            Some(d) => Some(d@),
            None => None,
        }
    }

    open spec fn definition_path_model(&self) -> Option<Seq<char>> {
        match self.definition_path {
            Some(p) => Some(p@),
            None => None,
        }
    }

    open spec fn files_model(&self) -> Option<Seq<BufFile>> {
        match self.files {
            Some(fs) => Some(fs@),
            None => None,
        }
    }

    fn zip_data(&self) -> (r: ZipContainerResult<&[u8]>) {
        match &self.zip_data {
            Some(d) => Ok(d.as_slice()),
            None => Err(missing_value("zip_data", "zip_data is not set")),
        }
    }

    fn definition_path(&self) -> (r: ZipContainerResult<&str>) {
        match &self.definition_path {
            Some(p) => Ok(p.as_str()),
            None => Err(missing_value("definition_path", "definition_path is not set")),
        }
    }

    fn set_files(&mut self, files: Vec<BufFile>) {
        self.files = Some(files);
    }
}

} // verus!
