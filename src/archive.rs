//! Archive writer: buffers file entries for one package and turns them into a
//! compressed newc cpio stream.
use vstd::prelude::*;
use vstd::string::StrSliceExecFns;
use vstd::string::StringExecFns;

verus! {

/// Owner id of every archived file.
pub const OWNER_ID: u32 = 1000;

/// Group id of every archived file.
pub const GROUP_ID: u32 = 1000;

/// Regular file, readable by all, writable by the owner.
pub const FILE_MODE: u32 = 0o100644;

/// The zstd level the archives are compressed with: the maximum.
pub const COMPRESSION_LEVEL: i32 = 22;

/// Directory that holds one archive per package name.
pub const STORE_ROOT: &'static str = "/tix/store/";

/// Suffix of the file an archive is written to before it is renamed into place.
pub const STAGING_SUFFIX: &'static str = ".partial";

/// An entry as plain values: path, owner id, group id, mode and content.
pub type EntryModel = (Seq<char>, u32, u32, u32, Seq<u8>);

/// The bytes of a newc cpio archive holding `entries` in order, each with an
/// inode number equal to its position, followed by the trailer.
pub uninterp spec fn newc_archive_of(entries: Seq<EntryModel>) -> Seq<u8>;

/// The zstd frame that compressing `data` at `level` gives.
pub uninterp spec fn zstd_frame_of(data: Seq<u8>, level: int) -> Seq<u8>;

#[verifier::external_type_specification]
#[verifier::external_body]
pub struct ExIoError(std::io::Error);

/// One file of an archive.
pub struct ArchiveEntry {
    pub path: String,
    pub uid: u32,
    pub gid: u32,
    pub mode: u32,
    pub content: Vec<u8>,
}

impl View for ArchiveEntry {
    type V = EntryModel;

    open spec fn view(&self) -> EntryModel {
        (self.path@, self.uid, self.gid, self.mode, self.content@)
    }
}

/// Why an archive could not be produced or stored.
#[derive(Debug, Clone, Copy, PartialEq, Eq, Structural)]
pub enum StoreError {
    /// The entries could not be serialized.
    Serialize,
    /// The destination could not be created or written.
    Write,
}

/// Whether every entry's content has a length that the newc header's
/// 32-bit size field can hold.
pub open spec fn contents_fit(entries: Seq<EntryModel>) -> bool {
    forall|i: int| 0 <= i < entries.len() ==> (#[trigger] entries[i]).4.len() <= u32::MAX
}

/// Relies on `cpio::write_cpio` writing into a `Vec`: on success the vector
/// holds the newc archive of the entries, in order, with their metadata.
/// Seeking a `Cursor` and writing to a `Vec` cannot fail, and an entry's
/// writer only refuses content longer than its 32-bit size field, so it
/// succeeds whenever every content fits.
#[verifier::external_body]
fn write_newc(entries: &Vec<ArchiveEntry>) -> (r: Result<Vec<u8>, std::io::Error>)
    ensures
        r matches Ok(b) ==> b@ == newc_archive_of(entries@.map_values(|e: ArchiveEntry| e@)),
        contents_fit(entries@.map_values(|e: ArchiveEntry| e@)) ==> r is Ok,
{
    let inputs = entries.iter().map(|e| {
        let b = cpio::NewcBuilder::new(&e.path).uid(e.uid).gid(e.gid).mode(e.mode);
        (b, std::io::Cursor::new(e.content.as_slice()))
    });
    cpio::write_cpio(inputs, Vec::new())
}

/// Relies on `zstd::stream::encode_all`: on success, the zstd frame of `data`
/// at `level`. Reading a slice and writing a `Vec` cannot fail, and level 22
/// is one the compressor accepts, so at that level it succeeds.
#[verifier::external_body]
fn zstd_compress(data: &Vec<u8>, level: i32) -> (r: Result<Vec<u8>, std::io::Error>)
    ensures
        r matches Ok(c) ==> c@ == zstd_frame_of(data@, level as int),
        level == 22 ==> r is Ok,
{
    zstd::stream::encode_all(data.as_slice(), level)
}

/// The entry `add_text_file` appends.
pub open spec fn text_entry(path: Seq<char>, content: Seq<char>) -> EntryModel {
    (path, OWNER_ID, GROUP_ID, FILE_MODE, vstd::utf8::encode_utf8(content))
}

/// The compressed archive of a sequence of entries.
pub open spec fn artifact_of(entries: Seq<EntryModel>) -> Seq<u8> {
    zstd_frame_of(newc_archive_of(entries), COMPRESSION_LEVEL as int)
}

/// Where the archive of package `name` is stored.
pub open spec fn store_path_of(name: Seq<char>) -> Seq<char> {
    STORE_ROOT@ + name
}

/// Where the archive of package `name` is written before it is moved into place.
pub open spec fn staging_path_of(name: Seq<char>) -> Seq<char> {
    STORE_ROOT@ + name + STAGING_SUFFIX@
}

/// Path of the stored archive of package `name`.
pub fn store_path(name: &str) -> (r: String)
    ensures
        r@ == store_path_of(name@),
{
    String::from_str(STORE_ROOT).concat(name)
}

/// Path the archive of package `name` is staged at.
pub fn staging_path(name: &str) -> (r: String)
    ensures
        r@ == staging_path_of(name@),
{
    String::from_str(STORE_ROOT).concat(name).concat(STAGING_SUFFIX)
}

/// Collects the files of one package.
pub struct ArchiveWriter {
    pub name: String,
    pub files: Vec<ArchiveEntry>,
}

impl ArchiveWriter {
    /// The entries buffered so far, in the order they were added.
    pub open spec fn entries(&self) -> Seq<EntryModel> {
        self.files@.map_values(|e: ArchiveEntry| e@)
    }

    /// An empty writer for package `name`.
    pub fn new(name: String) -> (r: ArchiveWriter)
        ensures
            r.name@ == name@,
            r.entries() == Seq::<EntryModel>::empty(),
    {
        ArchiveWriter { name, files: Vec::new() }
    }

    /// Appends a regular file with fixed ownership and permissions whose
    /// content is the UTF-8 encoding of `content`.
    pub fn add_text_file(&mut self, path: String, content: String)
        ensures
            final(self).name == old(self).name,
            final(self).entries() == old(self).entries().push(text_entry(path@, content@)),
    {
        let bytes = content.as_str().as_bytes_vec();
        let entry = ArchiveEntry { path, uid: OWNER_ID, gid: GROUP_ID, mode: FILE_MODE, content: bytes };
        self.files.push(entry);
        assert(self.entries() =~= old(self).entries().push(text_entry(path@, content@)));
    }

    /// The uncompressed newc archive of the buffered entries; it is produced
    /// whenever every content fits the archive's 32-bit size field.
    pub fn archive(&self) -> (r: Result<Vec<u8>, StoreError>)
        ensures
            r matches Ok(b) ==> b@ == newc_archive_of(self.entries()),
            r matches Err(e) ==> e == StoreError::Serialize && !contents_fit(self.entries()),
            contents_fit(self.entries()) ==> r is Ok,
    {
        match write_newc(&self.files) {
            Ok(b) => Ok(b),
            Err(_) => Err(StoreError::Serialize),
        }
    }

    /// The stored form of the archive: the newc archive of the buffered
    /// entries, compressed at the maximum level. It is produced whenever
    /// every content fits the archive's 32-bit size field, and fails with
    /// `Serialize` otherwise.
    pub fn finish(&self) -> (r: Result<Vec<u8>, StoreError>)
        ensures
            r matches Ok(b) ==> b@ == artifact_of(self.entries()),
            r matches Err(e) ==> e == StoreError::Serialize && !contents_fit(self.entries()),
            contents_fit(self.entries()) ==> r is Ok,
    {
        let raw = self.archive()?;
        let compressed = zstd_compress(&raw, COMPRESSION_LEVEL);
        Ok(compressed.unwrap())
    }
}

/// The entries of a writer after `add_text_file(path, content)` was called
/// with each of `calls`, in order, starting from an empty writer.
pub open spec fn entries_after(calls: Seq<(Seq<char>, Seq<char>)>) -> Seq<EntryModel>
    decreases calls.len(),
{
    if calls.len() == 0 {
        Seq::empty()
    } else {
        entries_after(calls.drop_last()).push(text_entry(calls.last().0, calls.last().1))
    }
}

/// After N calls of `add_text_file` the writer holds exactly N entries in
/// call order: the i-th has the i-th path, owner and group 1000, mode
/// `0o100644`, and the UTF-8 bytes of the i-th content.
pub proof fn lemma_entries_follow_calls(calls: Seq<(Seq<char>, Seq<char>)>)
    ensures
        entries_after(calls).len() == calls.len(),
        forall|i: int|
            0 <= i < calls.len() ==> #[trigger] entries_after(calls)[i] == (
                calls[i].0,
                OWNER_ID,
                GROUP_ID,
                FILE_MODE,
                vstd::utf8::encode_utf8(calls[i].1),
            ),
    decreases calls.len(),
{
    if calls.len() > 0 {
        lemma_entries_follow_calls(calls.drop_last());
        assert forall|i: int| 0 <= i < calls.len() - 1 implies calls.drop_last()[i] == #[trigger] calls[i] by {}
    }
}

/// Writers that buffered the same entries produce the same artifact.
pub proof fn lemma_artifact_deterministic(a: ArchiveWriter, b: ArchiveWriter)
    requires
        a.entries() == b.entries(),
    ensures
        artifact_of(a.entries()) == artifact_of(b.entries()),
{
}

/// Archives are keyed by package name: two names share a store path exactly
/// when they are equal, so a later archive of a name replaces the earlier one
/// and never touches another package's.
pub proof fn lemma_store_path_keyed_by_name(a: Seq<char>, b: Seq<char>)
    ensures
        store_path_of(a) == store_path_of(b) <==> a == b,
{
    let r = STORE_ROOT@;
    if store_path_of(a) == store_path_of(b) {
        assert(a =~= (r + a).subrange(r.len() as int, (r + a).len() as int));
        assert(b =~= (r + b).subrange(r.len() as int, (r + b).len() as int));
    }
}

} // verus!
