//! Zip archives held in memory, such as a `.zhfst` speller: opening one,
//! and telling whether any of its entries is compressed.

use std::io::Cursor;
use vstd::prelude::*;
use zip::result::ZipError;
use zip::ZipArchive;

verus! {

/// zip's archive reader, opaque here.
#[verifier::external_type_specification]
#[verifier::external_body]
#[verifier::reject_recursive_types(R)]
pub struct ExZipArchive<R>(ZipArchive<R>);

/// zip's error type, opaque here.
#[verifier::external_type_specification]
#[verifier::external_body]
pub struct ExZipError(ZipError);

/// std's in-memory reader, opaque here.
#[verifier::external_type_specification]
#[verifier::external_body]
#[verifier::reject_recursive_types(T)]
pub struct ExCursor<T>(Cursor<T>);

/// The zip compression method number of an entry that is stored as it is,
/// without compression.
pub const STORED: u16 = 0;

/// What zip reads from the central directory of the archive `bytes`: the
/// compression method number of each entry, in order; `None` when it
/// cannot open `bytes` as an archive.
pub uninterp spec fn zip_directory(bytes: Seq<u8>) -> Option<Seq<u16>>;

/// Whether zip can open entry `i` of the archive `bytes` for reading (its
/// local header is found, it is not encrypted, and its compression method
/// is one zip can decode).
pub uninterp spec fn zip_entry_readable(bytes: Seq<u8>, i: int) -> bool;

/// The bytes that an archive opened in memory reads from.
pub uninterp spec fn archive_bytes(archive: ZipArchive<Cursor<Vec<u8>>>) -> Seq<u8>;

/// zip's `ZipArchive::new` on a cursor over `bytes`. It succeeds exactly
/// when zip can read a central directory from `bytes`, and the archive it
/// gives reads from `bytes`. It returns on every input: the version of zip
/// this crate is built with checks each offset addition and sizes its
/// tables by what the bytes can hold, so a crafted directory gives an
/// error. What that directory holds is left to the name `zip_directory`.
#[verifier::external_body]
fn zip_open(bytes: Vec<u8>) -> (r: Result<ZipArchive<Cursor<Vec<u8>>>, ZipError>)
    ensures
        r is Ok <==> zip_directory(bytes@) is Some,
        r matches Ok(a) ==> archive_bytes(a) == bytes@,
{
    ZipArchive::new(Cursor::new(bytes))
}

/// zip's `ZipArchive::len`: the number of entries in the central directory.
#[verifier::external_body]
fn zip_len(archive: &ZipArchive<Cursor<Vec<u8>>>) -> (r: usize)
    ensures
        zip_directory(archive_bytes(*archive)) matches Some(d) ==> r == d.len(),
{
    archive.len()
}

/// Why an archive could not be examined.
#[derive(Debug, Clone, Copy, PartialEq, Eq, Structural)]
pub enum ArchiveError {
    /// The bytes are not a zip archive that zip can open.
    NotAnArchive,
    /// This entry of the archive cannot be opened.
    UnreadableEntry(usize),
}

/// An archive held in memory that zip has opened, together with the bytes
/// it reads from.
pub struct Archive {
    zip: ZipArchive<Cursor<Vec<u8>>>,
    bytes: Ghost<Seq<u8>>,
}

impl Archive {
    /// The bytes of the archive.
    pub closed spec fn bytes(&self) -> Seq<u8> {
        self.bytes@
    }

    /// Holds of every archive: zip opened these bytes, and reads from them.
    #[verifier::type_invariant]
    spec fn wf(&self) -> bool {
        &&& archive_bytes(self.zip) == self.bytes@
        &&& zip_directory(self.bytes@) is Some
    }

    /// The compression method number of each entry, in order.
    pub open spec fn methods(&self) -> Seq<u16> {
        zip_directory(self.bytes())->Some_0
    }
}

/// zip's `ZipArchive::by_index` on the archive's reader, then
/// `ZipFile::compression` as a method number (`CompressionMethod::to_u16`).
/// It fails exactly on entries past the end and on entries zip cannot open;
/// otherwise it gives the method number that the central directory records.
/// The archive keeps reading from the same bytes.
#[verifier::external_body]
#[allow(deprecated)]
fn zip_entry_compression(archive: &mut Archive, i: usize) -> (r: Result<u16, ZipError>)
    ensures
        final(archive).bytes() == old(archive).bytes(),
        r is Ok <==> (i < old(archive).methods().len() && zip_entry_readable(
            old(archive).bytes(),
            i as int,
        )),
        r matches Ok(m) ==> m == old(archive).methods()[i as int],
{
    match archive.zip.by_index(i) {
        Ok(file) => Ok(file.compression().to_u16()),
        Err(e) => Err(e),
    }
}

/// Opens the zip archive `bytes`.
pub fn open_archive(bytes: Vec<u8>) -> (r: Result<Archive, ArchiveError>)
    ensures
        zip_directory(bytes@) is None <==> r == Err::<Archive, ArchiveError>(
            ArchiveError::NotAnArchive,
        ),
        r matches Ok(a) ==> a.bytes() == bytes@,
{
    let ghost b = bytes@;
    match zip_open(bytes) {
        Ok(zip) => Ok(Archive { zip, bytes: Ghost(b) }),
        Err(_) => Err(ArchiveError::NotAnArchive),
    }
}

/// Whether all entries before `n` can be opened and are stored uncompressed.
pub open spec fn stored_up_to(data: Seq<u8>, methods: Seq<u16>, n: int) -> bool {
    forall|j: int| 0 <= j < n ==> #[trigger] zip_entry_readable(data, j) && methods[j] == STORED
}

proof fn lemma_stored_up_to_extend(data: Seq<u8>, methods: Seq<u16>, i: int)
    requires
        0 <= i,
        stored_up_to(data, methods, i),
        zip_entry_readable(data, i),
        methods[i] == STORED,
    ensures
        stored_up_to(data, methods, i + 1),
{
}

/// Whether zip can open every entry up to the first compressed one: what
/// `is_compressed` needs to give an answer.
pub open spec fn decided(data: Seq<u8>, methods: Seq<u16>) -> bool {
    forall|i: int|
        0 <= i < methods.len() && stored_up_to(data, methods, i) ==> #[trigger] zip_entry_readable(
            data,
            i,
        )
}

/// Whether any entry of `archive` is compressed. The entries are opened in
/// order, up to the first compressed one; each of them must open.
pub fn is_compressed(archive: &mut Archive) -> (r: bool)
    requires
        decided(old(archive).bytes(), old(archive).methods()),
    ensures
        final(archive).bytes() == old(archive).bytes(),
        ({
            let b = old(archive).bytes();
            let d = old(archive).methods();
            r == exists|i: int| 0 <= i < d.len() && stored_up_to(b, d, i) && #[trigger] d[i] != STORED
        }),
{
    proof {
        use_type_invariant(&*archive);
    }
    let ghost b = archive.bytes@;
    let ghost d = zip_directory(b)->Some_0;
    let n = zip_len(&archive.zip);
    let mut i: usize = 0;
    while i < n
        invariant
            archive.bytes@ == b,
            b == old(archive).bytes(),
            d == old(archive).methods(),
            zip_directory(b) == Some(d),
            decided(b, d),
            n == d.len(),
            i <= n,
            stored_up_to(b, d, i as int),
        decreases n - i,
    {
        assert(zip_entry_readable(b, i as int));
        match zip_entry_compression(archive, i) {
            Ok(method) => {
                if method != STORED {
                    assert(d[i as int] != STORED);
                    return true;
                }
                proof {
                    lemma_stored_up_to_extend(b, d, i as int);
                }
            },
            Err(_) => {
                assert(false);
                return false;
            },
        }
        i += 1;
    }
    assert forall|j: int| 0 <= j < d.len() && stored_up_to(b, d, j) implies !(#[trigger] d[j]
        != STORED) by {
        assert(zip_entry_readable(b, j));
    }
    false
}

/// Whether any entry of `archive` is compressed, or the first entry that
/// cannot be opened when one comes before the first compressed entry.
pub fn check_compressed(archive: &mut Archive) -> (r: Result<bool, ArchiveError>)
    ensures
        final(archive).bytes() == old(archive).bytes(),
        ({
            let b = old(archive).bytes();
            let d = old(archive).methods();
            &&& r is Ok <==> decided(b, d)
            &&& r matches Ok(c) ==> c == exists|i: int|
                0 <= i < d.len() && stored_up_to(b, d, i) && #[trigger] d[i] != STORED
            &&& forall|i: usize|
                r == Err::<bool, ArchiveError>(ArchiveError::UnreadableEntry(i)) <==> (i < d.len()
                    && stored_up_to(b, d, i as int) && !zip_entry_readable(b, i as int))
        }),
{
    proof {
        use_type_invariant(&*archive);
    }
    let ghost b = archive.bytes@;
    let ghost d = zip_directory(b)->Some_0;
    let n = zip_len(&archive.zip);
    let mut i: usize = 0;
    while i < n
        invariant
            archive.bytes@ == b,
            b == old(archive).bytes(),
            d == old(archive).methods(),
            zip_directory(b) == Some(d),
            n == d.len(),
            i <= n,
            stored_up_to(b, d, i as int),
        decreases n - i,
    {
        match zip_entry_compression(archive, i) {
            Ok(method) => {
                if method != STORED {
                    assert(d[i as int] != STORED);
                    assert forall|j: int| 0 <= j < d.len() && stored_up_to(b, d, j) implies #[trigger] zip_entry_readable(b, j) by {
                        if j > i {
                            assert(d[i as int] == STORED);
                        }
                    }
                    assert(decided(b, d));
                    let ghost before = *archive;
                    assert(before.bytes() == b && before.methods() == d);
                    let c = is_compressed(archive);
                    assert(c == exists|k: int| 0 <= k < d.len() && stored_up_to(b, d, k) && #[trigger] d[k] != STORED);
                    return Ok(c);
                }
                proof {
                    lemma_stored_up_to_extend(b, d, i as int);
                }
            },
            Err(_) => {
                proof {
                    assert(stored_up_to(b, d, i as int) && !zip_entry_readable(b, i as int));
                }
                return Err(ArchiveError::UnreadableEntry(i));
            },
        }
        i += 1;
    }
    proof {
        assert forall|j: int| 0 <= j < d.len() && stored_up_to(b, d, j) implies #[trigger] zip_entry_readable(b, j) by {
            assert(stored_up_to(b, d, n as int));
        }
        assert(decided(b, d));
    }
    let ghost before = *archive;
    assert(before.bytes() == b && before.methods() == d);
    let c = is_compressed(archive);
    Ok(c)
}

} // verus!
