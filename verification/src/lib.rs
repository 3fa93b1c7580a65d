//! Unified access to the members of an in-memory ZIP archive whose bytes
//! may come from a file, a URL or a host-supplied buffer.
//!
//! A [`ZipContainer`] owns the archive bytes and the location of an
//! optional definition file whose format tag ([`Definition`]) is
//! inferred from its extension. The [`ZipContainerTrait`] capability
//! interface provides, over any such container, member enumeration at a
//! listed stage ([`BufFile`] records without contents) and a
//! materialized stage (contents populated), and a two-phase resolution
//! pipeline: a name is resolved first against the archive's members and
//! only then, through an injected [`FileLoader`], as an external
//! location. Byte loading itself is injected, so the same algorithms
//! serve blocking, non-blocking and sandboxed call sites; this crate
//! performs no input or output of its own.

pub mod archive;
pub mod container_error;
pub mod externalize;
pub mod text;
pub mod zip_container_trait;

use vstd::prelude::*;

pub use container_error::ZipContainerError;
pub use zip_container_trait::FileLoader;
pub use zip_container_trait::UnifiedFileLoader;
pub use zip_container_trait::ZipContainerTrait;

use crate::text::spec_has_suffix_ci;
use crate::text::has_suffix_ci;

verus! {

/// The result type of every fallible container operation.
pub type ZipContainerResult<T> = Result<T, ZipContainerError>;

/// The capability of reporting a diagnostic message.
///
/// The core never logs on its own; callers that want diagnostics inject
/// an implementation of this trait around the operations they run.
pub trait Logger {
    /// Reports one message.
    fn log(&self, message: &str);
}

/// A definition file's text payload, tagged with the format inferred
/// from the file extension of its location.
///
/// The payload is carried as opaque text: this crate never parses it;
/// a definition-aware collaborator consumes it.
#[derive(Clone, Debug)]
pub enum Definition {
    XML(String),
    JSON(String),
    YAML(String),
    TOML(String),
}

/// Relates a definition location to the tag inferred for it: a location
/// ending in `.xml`, `.json`, `.yaml`/`.yml` or `.toml` (in any case)
/// yields the matching tag with an empty payload; any other location
/// yields no tag at all, which is a valid, non-error state.
pub open spec fn spec_inferred_definition(path: Seq<char>, r: Option<Definition>) -> bool {
    if spec_has_suffix_ci(path, ".xml"@) {
        r matches Some(d) && d matches Definition::XML(t) && t@ == Seq::<char>::empty()
    } else if spec_has_suffix_ci(path, ".json"@) {
        r matches Some(d) && d matches Definition::JSON(t) && t@ == Seq::<char>::empty()
    } else if spec_has_suffix_ci(path, ".yaml"@) || spec_has_suffix_ci(path, ".yml"@) {
        r matches Some(d) && d matches Definition::YAML(t) && t@ == Seq::<char>::empty()
    } else if spec_has_suffix_ci(path, ".toml"@) {
        r matches Some(d) && d matches Definition::TOML(t) && t@ == Seq::<char>::empty()
    } else {
        r is None
    }
}

impl Definition {
    /// The text payload, whatever the tag.
    pub open spec fn spec_payload(&self) -> Seq<char> {
        match self {
            Definition::XML(t) => t@,
            Definition::JSON(t) => t@,
            Definition::YAML(t) => t@,
            Definition::TOML(t) => t@,
        }
    }

    /// Borrows the text payload, whatever the tag.
    pub fn as_ref(&self) -> (r: &str)
        ensures
            r@ == self.spec_payload(),
    {
        match self {
            Definition::XML(t) => t.as_str(),
            Definition::JSON(t) => t.as_str(),
            Definition::YAML(t) => t.as_str(),
            Definition::TOML(t) => t.as_str(),
        }
    }

    /// The archive-relative or external paths that this definition's
    /// payload references and that a resolution pass should fetch.
    ///
    /// Reference extraction is format-specific and belongs to a
    /// definition-aware collaborator; this seam deliberately reports no
    /// references yet. Its contract for any future implementation: a
    /// pure, deterministic function of the payload, no input/output.
    pub fn extract_file_paths(&self) -> (r: Vec<String>)
        ensures
            r@ == Seq::<String>::empty(),
    {
        Vec::new()
    }

    /// Infers the definition tag from the lower-cased file extension of
    /// a definition location; unrecognized extensions yield no tag.
    pub fn infer(path: &str) -> (r: Option<Definition>)
        ensures
            spec_inferred_definition(path@, r),
    {
        if has_suffix_ci(path, ".xml") {
            Some(Definition::XML(String::new()))
        } else if has_suffix_ci(path, ".json") {
            Some(Definition::JSON(String::new()))
        } else if has_suffix_ci(path, ".yaml") || has_suffix_ci(path, ".yml") {
            Some(Definition::YAML(String::new()))
        } else if has_suffix_ci(path, ".toml") {
            Some(Definition::TOML(String::new()))
        } else {
            None
        }
    }
}

impl Default for Definition {
    /// The default definition: an XML tag with an empty payload.
    fn default() -> (d: Self)
        ensures
            d matches Definition::XML(t) && t@ == Seq::<char>::empty(),
    {
        Definition::XML(String::new())
    }
}

/// One archive member, at either of two lifecycle stages: "listed"
/// (name, size, path and ordinal id known, content absent) or
/// "materialized" (content populated). Every field is optional because
/// records exist in both stages, and because externalized records may
/// omit any key.
#[derive(Clone, Debug, PartialEq)]
pub struct BufFile {
    /// The member name, exactly as the archive records it.
    pub name: Option<String>,
    /// The member's bytes; absent at the listed stage.
    pub content: Option<Vec<u8>>,
    /// The ordinal id: the decimal rendering of the zero-based
    /// enumeration index. It is meaningful only for the enumeration that
    /// produced it, and is not an archive-native identifier.
    pub file_id: Option<String>,
    /// A declared content type, if a collaborator supplied one.
    pub content_type: Option<String>,
    /// The platform-mangled relative path derived from the name.
    pub path: Option<String>,
    /// The member's declared uncompressed size in bytes.
    pub size: Option<u64>,
}

impl Default for BufFile {
    /// A record with every field absent.
    fn default() -> (f: Self)
        ensures
            f.name is None,
            f.content is None,
            f.file_id is None,
            f.content_type is None,
            f.path is None,
            f.size is None,
    {
        BufFile {
            name: None,
            content: None,
            file_id: None,
            content_type: None,
            path: None,
            size: None,
        }
    }
}

/// The aggregate: an optional archive byte buffer, the locations it was
/// built from, the inferred definition tag, and the materialized member
/// list (absent until an enumeration step populates it).
#[derive(Clone, Debug)]
pub struct ZipContainer {
    /// The archive bytes; absent until loaded.
    pub zip_data: Option<Vec<u8>>,
    /// The location of the definition file, if one was given.
    pub definition_path: Option<String>,
    /// The definition tag inferred from `definition_path`.
    pub definition_content: Option<Definition>,
    /// The member records, once an enumeration step has produced them.
    pub files: Option<Vec<BufFile>>,
    /// The location the archive bytes come from.
    pub zip_path: Option<String>,
}

impl Default for ZipContainer {
    /// A container with every field absent.
    fn default() -> (c: Self)
        ensures
            c.zip_data is None,
            c.definition_path is None,
            c.definition_content is None,
            c.files is None,
            c.zip_path is None,
    {
        ZipContainer {
            zip_data: None,
            definition_path: None,
            definition_content: None,
            files: None,
            zip_path: None,
        }
    }
}

impl ZipContainer {
    /// Builds a container from an archive location and an optional
    /// definition location, inferring the definition tag from the
    /// latter's extension.
    ///
    /// No bytes are fetched here: the container starts in its unloaded
    /// state, and archive bytes are attached by `load_data_with` (or by
    /// `set_zip_data` with a host-supplied buffer). A caller that wants
    /// the eager-fetching construction composes `new` with
    /// `load_data_with` and its own loader.
    pub fn new(zip_path: String, definition_path: Option<String>) -> (c: ZipContainer)
        ensures
            c.zip_data is None,
            c.definition_path == definition_path,
            (match definition_path {
                Some(p) => spec_inferred_definition(p@, c.definition_content),
                None => c.definition_content is None,
            }),
            c.files is None,
            c.zip_path == Some(zip_path),
    {
        let definition_content = match &definition_path {
            Some(p) => Definition::infer(p.as_str()),
            None => None,
        };
        ZipContainer {
            zip_data: None,
            definition_path,
            definition_content,
            files: None,
            zip_path: Some(zip_path),
        }
    }

    /// Replaces the archive byte buffer; every other field is kept.
    pub fn set_zip_data(&mut self, data: Option<Vec<u8>>)
        ensures
            final(self).zip_data == data,
            final(self).definition_path == old(self).definition_path,
            final(self).definition_content == old(self).definition_content,
            final(self).files == old(self).files,
            final(self).zip_path == old(self).zip_path,
    {
        self.zip_data = data;
    }

    /// Replaces the definition location; every other field is kept, so
    /// the inferred tag is not recomputed here.
    pub fn set_definition_path(&mut self, path: Option<String>)
        ensures
            final(self).definition_path == path,
            final(self).zip_data == old(self).zip_data,
            final(self).definition_content == old(self).definition_content,
            final(self).files == old(self).files,
            final(self).zip_path == old(self).zip_path,
    {
        self.definition_path = path;
    }

    /// Fetches the archive bytes from a location with the given loader,
    /// swallowing the loader's failure into an absent buffer. The
    /// degraded result is deliberate: a container built from an
    /// unreachable location is still usable for definition-tag
    /// inspection, and every byte-dependent operation on it reports
    /// `MissingValue`.
    pub fn load_zip_data<L: FileLoader>(loader: &L, zip_path: &str) -> (r: Option<Vec<u8>>) {
        match loader.load(zip_path) {
            Ok(data) => Some(data),
            Err(_) => None,
        }
    }

    /// Fetches this container's archive bytes from its archive location
    /// with the given loader. On success the buffer is attached; on a
    /// loader failure, or with no archive location at all, the buffer
    /// becomes absent. Every other field is kept.
    pub fn load_data_with<L: FileLoader>(&mut self, loader: &L)
        ensures
            final(self).definition_path == old(self).definition_path,
            final(self).definition_content == old(self).definition_content,
            final(self).files == old(self).files,
            final(self).zip_path == old(self).zip_path,
            old(self).zip_path is None ==> final(self).zip_data is None,
    {
        let data = match &self.zip_path {
            Some(p) => Self::load_zip_data(loader, p.as_str()),
            None => None,
        };
        self.zip_data = data;
    }
}

} // verus!
