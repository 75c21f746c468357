//! Decoding of a package declaration handed over by the build script.
//!
//! Every field is checked against the shape it must have; a declaration that
//! fails any check is rejected before an archive writer exists for it, so a
//! rejected declaration can never persist an archive.
use vstd::prelude::*;
use crate::archive::{ArchiveWriter, EntryModel};
use crate::registry::{Package, PackageModel};
use crate::source::{declared_digest, is_digest_hex, Source, SourceModel};

verus! {

/// A script value, as far as a declaration cares about it.
pub enum ScriptValue {
    Nil,
    Text(String),
    Table,
    Function,
    Other,
}

/// One element of a declaration's `src` list.
pub enum SourceEntry {
    /// A table, with its `uri` and `hash` fields.
    Table { uri: ScriptValue, hash: ScriptValue },
    /// Anything that is not a table.
    Other,
}

/// The fields of a `package { name = ..., src = ..., build = ... }` call.
/// `sources` lists the elements of `src` in declaration order; it is only
/// read when `src` is a table.
pub struct PackageFields {
    pub name: ScriptValue,
    pub src: ScriptValue,
    pub sources: Vec<SourceEntry>,
    pub build: ScriptValue,
}

/// A field of a declaration; source fields carry the source's position.
#[derive(Debug, Clone, Copy, PartialEq, Eq, Structural)]
pub enum Field {
    Name,
    Src,
    Build,
    Source(usize),
    Uri(usize),
    Hash(usize),
}

/// Why a declaration was rejected.
#[derive(Debug, Clone, Copy, PartialEq, Eq, Structural)]
pub enum ManifestError {
    /// A required field is absent.
    Missing(Field),
    /// A field holds a value of the wrong type.
    WrongType(Field),
    /// The `hash` of the source at this position is not a well-formed digest.
    MalformedHash(usize),
}

/// An accepted declaration: the package to register once the build routine
/// has run, and a fresh writer for that routine.
pub struct Declaration {
    pub package: Package,
    pub writer: ArchiveWriter,
}

/// The text of a value, if it is text.
pub open spec fn text_of(v: ScriptValue) -> Option<Seq<char>> {
    match v {
        ScriptValue::Text(s) => Some(s@),
        _ => None,
    }
}

/// The error of a required text field.
pub open spec fn text_field_error(v: ScriptValue, f: Field) -> Option<ManifestError> {
    match v {
        ScriptValue::Nil => Some(ManifestError::Missing(f)),
        ScriptValue::Text(_) => None,
        _ => Some(ManifestError::WrongType(f)),
    }
}

/// The error of the source entry at position `i`.
pub open spec fn entry_error(e: SourceEntry, i: usize) -> Option<ManifestError> {
    match e {
        SourceEntry::Other => Some(ManifestError::WrongType(Field::Source(i))),
        SourceEntry::Table { uri, hash } => match text_field_error(uri, Field::Uri(i)) {
            Some(err) => Some(err),
            None => match hash {
                ScriptValue::Nil => None,
                ScriptValue::Text(h) => if is_digest_hex(h@) {
                    None
                } else {
                    Some(ManifestError::MalformedHash(i))
                },
                _ => Some(ManifestError::WrongType(Field::Hash(i))),
            },
        },
    }
}

/// The error of the first bad entry at or after `from`.
pub open spec fn first_entry_error(es: Seq<SourceEntry>, from: int) -> Option<ManifestError>
    decreases es.len() - from,
{
    if from < 0 || from >= es.len() {
        None
    } else if entry_error(es[from], from as usize) is Some {
        entry_error(es[from], from as usize)
    } else {
        first_entry_error(es, from + 1)
    }
}

/// Why a declaration is rejected, checking `name`, `src`, `build` and then
/// each source in order; `None` when it is accepted.
pub open spec fn declaration_error(f: PackageFields) -> Option<ManifestError> {
    if text_field_error(f.name, Field::Name) is Some {
        text_field_error(f.name, Field::Name)
    } else if f.src is Nil {
        Some(ManifestError::Missing(Field::Src))
    } else if !(f.src is Table) {
        Some(ManifestError::WrongType(Field::Src))
    } else if f.build is Nil {
        Some(ManifestError::Missing(Field::Build))
    } else if !(f.build is Function) {
        Some(ManifestError::WrongType(Field::Build))
    } else {
        first_entry_error(f.sources@, 0)
    }
}

/// The source an accepted entry declares.
pub open spec fn entry_source(e: SourceEntry) -> SourceModel {
    match e {
        SourceEntry::Table { uri, hash } => SourceModel {
            uri: text_of(uri).unwrap(),
            hash: declared_digest(text_of(hash)).unwrap(),
        },
        SourceEntry::Other => SourceModel { uri: Seq::empty(), hash: None },
    }
}

/// The package an accepted declaration describes.
pub open spec fn declared_package(f: PackageFields) -> PackageModel {
    PackageModel {
        name: text_of(f.name).unwrap(),
        src: Seq::new(f.sources@.len(), |i: int| entry_source(f.sources@[i])),
    }
}

proof fn lemma_first_entry_error_skip(es: Seq<SourceEntry>, from: int, i: int)
    requires
        0 <= from <= i <= es.len(),
        forall|j: int| from <= j < i ==> (#[trigger] entry_error(es[j], j as usize)) is None,
    ensures
        first_entry_error(es, from) == first_entry_error(es, i),
    decreases i - from,
{
    if from < i {
        lemma_first_entry_error_skip(es, from + 1, i);
    }
}

/// A source whose `hash` is text but not a well-formed digest makes the
/// whole declaration fail, so no writer, and no archive, comes of it.
pub proof fn lemma_malformed_hash_rejected(f: PackageFields, i: int)
    requires
        0 <= i < f.sources@.len(),
        f.sources@[i] matches SourceEntry::Table { hash: ScriptValue::Text(h), .. } && !is_digest_hex(h@),
    ensures
        declaration_error(f) is Some,
{
    assert(entry_error(f.sources@[i], i as usize) is Some);
    lemma_first_bad_entry(f.sources@, 0, i);
}

proof fn lemma_first_bad_entry(es: Seq<SourceEntry>, from: int, i: int)
    requires
        0 <= from <= i < es.len(),
        entry_error(es[i], i as usize) is Some,
    ensures
        first_entry_error(es, from) is Some,
    decreases i - from,
{
    if from < i && entry_error(es[from], from as usize) is None {
        lemma_first_bad_entry(es, from + 1, i);
    }
}

/// Checks the fields of a declaration and resolves its sources. On success
/// the package is named and sourced as declared and the writer is empty and
/// bound to the package's name.
pub fn declare_package(f: &PackageFields) -> (r: Result<Declaration, ManifestError>)
    ensures
        match r {
            Ok(d) => declaration_error(*f) is None && d.package@ == declared_package(*f)
                && d.writer.name@ == declared_package(*f).name
                && d.writer.entries() == Seq::<EntryModel>::empty(),
            Err(e) => declaration_error(*f) == Some(e),
        },
{
    let name = match &f.name {
        ScriptValue::Text(s) => s.clone(),
        ScriptValue::Nil => return Err(ManifestError::Missing(Field::Name)),
        _ => return Err(ManifestError::WrongType(Field::Name)),
    };
    match &f.src {
        ScriptValue::Table => {},
        ScriptValue::Nil => return Err(ManifestError::Missing(Field::Src)),
        _ => return Err(ManifestError::WrongType(Field::Src)),
    }
    match &f.build {
        ScriptValue::Function => {},
        ScriptValue::Nil => return Err(ManifestError::Missing(Field::Build)),
        _ => return Err(ManifestError::WrongType(Field::Build)),
    }
    let ghost es = f.sources@;
    let mut src: Vec<Source> = Vec::new();
    let mut i: usize = 0;
    while i < f.sources.len()
        invariant
            es == f.sources@,
            i <= es.len(),
            declaration_error(*f) == first_entry_error(es, 0),
            text_of(f.name) == Some(name@),
            forall|j: int| 0 <= j < i ==> (#[trigger] entry_error(es[j], j as usize)) is None,
            src@.len() == i,
            forall|j: int| 0 <= j < i ==> #[trigger] src@[j]@ == entry_source(es[j]),
        decreases es.len() - i,
    {
        let (uri, hash) = match &f.sources[i] {
            SourceEntry::Other => {
                proof { lemma_first_entry_error_skip(es, 0, i as int); }
                return Err(ManifestError::WrongType(Field::Source(i)));
            },
            SourceEntry::Table { uri, hash } => (uri, hash),
        };
        let uri = match uri {
            ScriptValue::Text(s) => s.clone(),
            ScriptValue::Nil => {
                proof { lemma_first_entry_error_skip(es, 0, i as int); }
                return Err(ManifestError::Missing(Field::Uri(i)));
            },
            _ => {
                proof { lemma_first_entry_error_skip(es, 0, i as int); }
                return Err(ManifestError::WrongType(Field::Uri(i)));
            },
        };
        let resolved = match hash {
            ScriptValue::Nil => Source::resolve(uri, None),
            ScriptValue::Text(h) => Source::resolve(uri, Some(h.as_str())),
            _ => {
                proof { lemma_first_entry_error_skip(es, 0, i as int); }
                return Err(ManifestError::WrongType(Field::Hash(i)));
            },
        };
        match resolved {
            Some(s) => src.push(s),
            None => {
                proof { lemma_first_entry_error_skip(es, 0, i as int); }
                return Err(ManifestError::MalformedHash(i));
            },
        }
        i = i + 1;
    }
    proof {
        lemma_first_entry_error_skip(es, 0, es.len() as int);
    }
    let package = Package { name: name.clone(), src };
    assert(package@.src =~= declared_package(*f).src);
    Ok(Declaration { package, writer: ArchiveWriter::new(name) })
}

} // verus!
