use vstd::prelude::*;
use rc_zip_sync::{ArchiveHandle, ReadZip};

verus! {

/// A folder on disk that assets are read from.
#[derive(Clone, Debug)]
pub struct LocalAssetFolder {
    /// The folder's path, in the platform's encoding of file-system strings.
    pub base_path: Vec<u8>,
}

impl LocalAssetFolder {
    /// An asset source reading from the folder whose path is encoded by `path`.
    pub fn new(path: &[u8]) -> (f: Self)
        ensures
            f.base_path@ == path@,
    {
        LocalAssetFolder { base_path: vstd::slice::slice_to_vec(path) }
    }
}

/// A zip archive read from bytes in memory: the handle of rc-zip-sync,
/// which borrows those bytes and holds the archive's central directory.
#[verifier::external_body]
pub struct ZipArchive<'a> {
    handle: ArchiveHandle<'a, &'a [u8]>,
}

#[verifier::external_type_specification]
#[verifier::external_body]
pub struct ExZipError(rc_zip_sync::rc_zip::Error);

#[verifier::external_type_specification]
#[verifier::external_body]
pub struct ExIoError(std::io::Error);

/// The names of the entries of an archive, in the order of its central directory.
pub uninterp spec fn archive_entry_names(a: ZipArchive) -> Seq<Seq<char>>;

/// For each entry name of an archive, the offset of the local header of the
/// first entry with that name, from the start of the archive's bytes.
pub uninterp spec fn archive_entry_offsets(a: ZipArchive) -> Map<Seq<char>, u64>;

/// For each entry name of an archive whose first entry with that name reads
/// without error, that entry's decompressed content; names whose entry fails
/// to read (a bad local header, data or checksum) are not in the map.
pub uninterp spec fn archive_entry_contents(a: ZipArchive) -> Map<Seq<char>, Seq<u8>>;

/// The number of bytes an archive was read from.
pub uninterp spec fn archive_data_len(a: ZipArchive) -> nat;

/// The entry names of the zip archive held in `data`, or nothing when
/// `data` does not hold a zip archive that can be read.
pub uninterp spec fn zip_directory(data: Seq<u8>) -> Option<Seq<Seq<char>>>;

/// For the zip archive held in `data`, by entry name, the local-header
/// offset of the first entry with that name.
pub uninterp spec fn zip_entry_offsets(data: Seq<u8>) -> Map<Seq<char>, u64>;

/// For the zip archive held in `data`, by entry name, the decompressed
/// content of the first entry with that name, where that entry reads
/// without error.
pub uninterp spec fn zip_contents(data: Seq<u8>) -> Map<Seq<char>, Seq<u8>>;

/// `ReadZip::read_zip` on bytes in memory: reads the archive's central
/// directory. Claimed: it succeeds exactly when the bytes hold a readable
/// archive; the archive then lists the entries of that directory and reads
/// its entries from `data`, so that their offsets and contents are those of
/// the archive held in `data`.
#[verifier::external_body]
fn read_zip_bytes<'a>(data: &'a &'a [u8]) -> (r: Result<ZipArchive<'a>, rc_zip_sync::rc_zip::Error>)
    ensures
        r is Ok <==> zip_directory(data@) is Some,
        r matches Ok(a) ==> archive_entry_names(a) == zip_directory(data@)->0,
        r matches Ok(a) ==> archive_data_len(a) == data@.len(),
        r matches Ok(a) ==> archive_entry_offsets(a) == zip_entry_offsets(data@),
        r matches Ok(a) ==> archive_entry_contents(a) == zip_contents(data@),
{
    match data.read_zip() {
        Ok(handle) => Ok(ZipArchive { handle }),
        Err(e) => Err(e),
    }
}

/// `ArchiveHandle::by_name`, keeping the found entry's `header_offset`: the
/// offset of the local header of the first entry named `name`. Claimed: there
/// is one exactly when some entry has that name, and it is the offset that
/// `archive_entry_offsets` gives for the name.
#[verifier::external_body]
fn archive_entry_offset(archive: &ZipArchive, name: &str) -> (r: Option<u64>)
    ensures
        r is Some <==> archive_entry_names(*archive).contains(name@),
        r is Some <==> archive_entry_offsets(*archive).contains_key(name@),
        r matches Some(o) ==> archive_entry_offsets(*archive)[name@] == o,
{
    match archive.handle.by_name(name) {
        Some(entry) => Some(entry.header_offset),
        None => None,
    }
}

/// `EntryHandle::bytes` on the first entry named `name`, found by
/// `ArchiveHandle::by_name`: the entry's decompressed content. Claimed: there
/// is an entry exactly when some entry has that name; reading it succeeds
/// exactly when `archive_entry_contents` has the name, and gives the content
/// it holds. The entry's local-header offset must lie
/// within the archive's bytes: `bytes` slices the data at that offset and
/// panics past its end.
#[verifier::external_body]
fn archive_entry_bytes(archive: &ZipArchive, name: &str) -> (r: Option<Result<Vec<u8>, std::io::Error>>)
    requires
        archive_entry_offsets(*archive).contains_key(name@) ==> archive_entry_offsets(*archive)[name@] <= archive_data_len(*archive),
    ensures
        r is Some <==> archive_entry_names(*archive).contains(name@),
        r matches Some(res) ==> (res is Ok <==> archive_entry_contents(*archive).contains_key(name@)),
        r matches Some(Ok(b)) ==> b@ == archive_entry_contents(*archive)[name@],
{
    match archive.handle.by_name(name) {
        Some(entry) => Some(entry.bytes()),
        None => None,
    }
}

/// Why an asset could not be read.
#[derive(Debug)]
pub enum AssetError {
    /// No asset has that name.
    NotFound,
    /// The bytes do not hold a readable zip archive.
    Zip(rc_zip_sync::rc_zip::Error),
    /// The asset's content could not be read.
    Io(std::io::Error),
}

/// A zip archive of assets, read from bytes in memory.
pub struct LoadedZipBundle<'a> {
    archive: ZipArchive<'a>,
    data_len: usize,
}

impl<'a> LoadedZipBundle<'a> {
    #[verifier::type_invariant]
    closed spec fn inv(&self) -> bool {
        self.data_len == archive_data_len(self.archive)
    }

    /// The names of the assets in the bundle, in directory order.
    pub closed spec fn names(&self) -> Seq<Seq<char>> {
        archive_entry_names(self.archive)
    }

    /// The content of each asset that reads without error, by name.
    pub closed spec fn contents(&self) -> Map<Seq<char>, Seq<u8>> {
        archive_entry_contents(self.archive)
    }

    /// Whether the asset named `name` is absent or its local header starts
    /// within the bundle's bytes, so that it can be looked up.
    pub closed spec fn in_bounds(&self, name: Seq<char>) -> bool {
        archive_entry_offsets(self.archive).contains_key(name) ==> archive_entry_offsets(self.archive)[name] <= archive_data_len(self.archive)
    }

    /// Reads the bundle held in `data`; fails exactly when `data` holds no readable zip archive.
    pub fn new(data: &'a &'a [u8]) -> (r: Result<Self, AssetError>)
        ensures
            r is Ok <==> zip_directory(data@) is Some,
            r matches Ok(b) ==> b.names() == zip_directory(data@)->0,
            r matches Ok(b) ==> b.contents() == zip_contents(data@),
            r matches Ok(b) ==> forall|n: Seq<char>| #[trigger] b.in_bounds(n) <==> (zip_entry_offsets(data@).contains_key(n) ==> zip_entry_offsets(data@)[n] <= data@.len()),
            r matches Err(e) ==> e is Zip,
    {
        let data_len = data.len();
        match read_zip_bytes(data) {
            Ok(archive) => Ok(LoadedZipBundle { archive, data_len }),
            Err(e) => Err(AssetError::Zip(e)),
        }
    }

    /// The content of the asset named `path`. Fails with `NotFound` exactly
    /// when the bundle has no asset of that name, and with `Io` exactly when
    /// the asset's entry does not read; otherwise gives the asset's content.
    pub fn get_bytes(&self, path: &str) -> (r: Result<Vec<u8>, AssetError>)
        requires
            self.in_bounds(path@),
        ensures
            (r matches Err(e) && e is NotFound) <==> !self.names().contains(path@),
            (r matches Err(e) && e is Io) <==> (self.names().contains(path@) && !self.contents().contains_key(path@)),
            r matches Err(e) ==> (e is NotFound || e is Io),
            r matches Ok(b) ==> self.contents().contains_key(path@) && b@ == self.contents()[path@],
    {
        match archive_entry_bytes(&self.archive, path) {
            None => Err(AssetError::NotFound),
            Some(Ok(bytes)) => Ok(bytes),
            Some(Err(e)) => Err(AssetError::Io(e)),
        }
    }

    /// Like [`Self::get_bytes`], but first checks that the asset's local
    /// header starts within the bundle's bytes: `None` exactly when it does not.
    pub fn try_get_bytes(&self, path: &str) -> (r: Option<Result<Vec<u8>, AssetError>>)
        ensures
            r is None <==> !self.in_bounds(path@),
            r matches Some(Err(e)) && e is NotFound <==> !self.names().contains(path@),
            r matches Some(Err(e)) && e is Io <==> (self.in_bounds(path@) && self.names().contains(path@) && !self.contents().contains_key(path@)),
            r matches Some(Err(e)) ==> (e is NotFound || e is Io),
            r matches Some(Ok(b)) ==> self.contents().contains_key(path@) && b@ == self.contents()[path@],
    {
        proof { use_type_invariant(self); }
        match archive_entry_offset(&self.archive, path) {
            None => {
                Some(Err(AssetError::NotFound))
            },
            Some(offset) => {
                if offset > self.data_len as u64 {
                    None
                } else {
                    Some(self.get_bytes(path))
                }
            },
        }
    }
}

} // verus!
