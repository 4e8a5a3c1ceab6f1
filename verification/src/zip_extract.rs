//! Reading a skill package archive (zip) downloaded from ClawHub, and
//! planning its extraction into a directory. The archive is decoded by the
//! `zip` crate; the files are written by the caller.

use vstd::prelude::*;
use crate::skill_pack::{zip_entry_action, zip_entry_ok, ZipEntryAction};
use crate::text::opt_view;

verus! {

#[verifier::external_type_specification]
#[verifier::external_body]
#[verifier::reject_recursive_types(T)]
pub struct ExCursor<T>(std::io::Cursor<T>);

#[verifier::external_type_specification]
#[verifier::external_body]
#[verifier::reject_recursive_types(R)]
pub struct ExZipArchive<R>(zip::ZipArchive<R>);

#[verifier::external_type_specification]
#[verifier::external_body]
pub struct ExZipError(zip::result::ZipError);

/// The entries of an open archive, in archive order. Each is its name as
/// stored; its name as a path that stays inside the target (`None` when it
/// would not); whether `ZipArchive::by_index` opens it (it refuses an
/// encrypted entry, a damaged local header or an unsupported compression
/// method); and its uncompressed bytes, `None` when reading them to the end
/// fails (damaged data or a checksum mismatch).
pub uninterp spec fn zip_contents(archive: zip::ZipArchive<std::io::Cursor<Vec<u8>>>) -> Seq<
    (Seq<char>, Option<Seq<char>>, bool, Option<Seq<u8>>),
>;

/// The entries that `ZipArchive::new` reads from `bytes`; `None` when it
/// refuses them.
pub uninterp spec fn zip_parse(bytes: Seq<u8>) -> Option<
    Seq<(Seq<char>, Option<Seq<char>>, bool, Option<Seq<u8>>)>,
>;

/// `zip::ZipArchive::new` over the bytes: it reads the central directory,
/// and refuses bytes that are not a zip archive. The outcome depends on the
/// bytes alone.
#[verifier::external_body]
fn zip_open(bytes: Vec<u8>) -> (r: Result<zip::ZipArchive<std::io::Cursor<Vec<u8>>>, zip::result::ZipError>)
    ensures
        match r {
            Ok(a) => zip_parse(bytes@) == Some(zip_contents(a)),
            Err(_) => zip_parse(bytes@) is None,
        },
{
    zip::ZipArchive::new(std::io::Cursor::new(bytes))
}

/// `ZipArchive::len`: the number of entries.
#[verifier::external_body]
fn zip_len(archive: &zip::ZipArchive<std::io::Cursor<Vec<u8>>>) -> (r: usize)
    ensures
        r == zip_contents(*archive).len(),
{
    archive.len()
}

/// `ZipArchive::by_index`: entry `i`, as its name, its enclosed name
/// (`ZipFile::enclosed_name`) and, when `with_data`, its uncompressed bytes
/// read to the end (empty otherwise). An index past the end is refused
/// (`FileNotFound`); otherwise the call succeeds exactly when the entry
/// opens and, when its bytes are read, they read in full. Opening seeks to
/// the entry, so earlier reads do not change the outcome; the entries stay
/// as they were.
#[verifier::external_body]
fn zip_entry(archive: &mut zip::ZipArchive<std::io::Cursor<Vec<u8>>>, i: usize, with_data: bool) -> (r:
    Result<(String, Option<String>, Vec<u8>), zip::result::ZipError>)
    ensures
        zip_contents(*final(archive)) == zip_contents(*old(archive)),
        i >= zip_contents(*old(archive)).len() ==> r is Err,
        i < zip_contents(*old(archive)).len() ==> {
            let want = zip_contents(*old(archive))[i as int];
            &&& (r is Ok <==> (want.2 && (with_data ==> want.3 is Some)))
            &&& (r matches Ok(e) ==> {
                &&& e.0@ == want.0
                &&& opt_view(e.1) == want.1
                &&& with_data ==> want.3 == Some(e.2@)
            })
        },
{
    let mut f = archive.by_index(i)?;
    let name = f.name().to_string();
    let enclosed = f.enclosed_name().map(|p| p.to_string_lossy().into_owned());
    let mut data: Vec<u8> = Vec::new();
    if with_data {
        std::io::Read::read_to_end(&mut f, &mut data)?;
    }
    Ok((name, enclosed, data))
}

/// The text of a `ZipError` (its `Display`).
#[verifier::external_body]
fn zip_error_text(e: &zip::result::ZipError) -> (r: String) {
    e.to_string()
}

/// Why an archive could not be read.
#[derive(Debug, Clone, PartialEq, Eq)]
pub struct ExtractError {
    pub message: String,
}

/// One step of an extraction: what to do, and the bytes to write for a
/// file (empty otherwise).
#[derive(Debug)]
pub struct ZipStep {
    pub action: ZipEntryAction,
    pub data: Vec<u8>,
}

/// Extracting an entry is possible when it opens and, if it is a file to
/// write (it has an enclosed name and its name does not end in `/`), its
/// bytes read in full.
pub open spec fn entry_extractable(e: (Seq<char>, Option<Seq<char>>, bool, Option<Seq<u8>>)) -> bool {
    &&& e.2
    &&& (e.1 is Some && !crate::text::ends_with(e.0, "/"@)) ==> e.3 is Some
}

/// Every entry can be extracted.
pub open spec fn all_extractable(entries: Seq<(Seq<char>, Option<Seq<char>>, bool, Option<Seq<u8>>)>) -> bool {
    forall|k: int| 0 <= k < entries.len() ==> #[trigger] entry_extractable(entries[k])
}

/// A plan extracts the entries in order: each entry's step follows
/// `zip_entry_ok`, and a file is written with the entry's bytes.
pub open spec fn plan_follows(
    dest: Seq<char>,
    entries: Seq<(Seq<char>, Option<Seq<char>>, bool, Option<Seq<u8>>)>,
    plan: Seq<ZipStep>,
) -> bool {
    &&& plan.len() == entries.len()
    &&& forall|i: int|
        0 <= i < plan.len() ==> {
            &&& zip_entry_ok(dest, entries[i].0, entries[i].1, #[trigger] plan[i].action)
            &&& plan[i].action is WriteFile ==> entries[i].3 == Some(plan[i].data@)
            &&& !(plan[i].action is WriteFile) ==> plan[i].data@.len() == 0
        }
}

/// Plan the extraction of a zip archive under `dest`: every entry in order,
/// skipping those whose names would leave `dest`, creating directories for
/// names ending in `/`, and writing the others. An archive the zip reader
/// refuses fails; one it reads gives a plan exactly when every entry can
/// be extracted (an archive with no entries gives the empty plan).
pub fn extract_plan(zip_bytes: Vec<u8>, dest: &str) -> (r: Result<Vec<ZipStep>, ExtractError>)
    ensures
        zip_parse(zip_bytes@) is None ==> r is Err,
        zip_parse(zip_bytes@) matches Some(entries) ==> (r is Ok <==> all_extractable(entries)),
        r matches Ok(plan) ==> (zip_parse(zip_bytes@) matches Some(entries) && plan_follows(
            dest@,
            entries,
            plan@,
        )),
{
    let ghost bytes = zip_bytes@;
    let mut archive = match zip_open(zip_bytes) {
        Ok(a) => a,
        Err(e) => return Err(ExtractError { message: zip_error_text(&e) }),
    };
    let ghost entries = zip_contents(archive);
    let n = zip_len(&archive);
    let mut plan: Vec<ZipStep> = Vec::new();
    let mut i: usize = 0;
    while i < n
        invariant
            zip_parse(bytes) == Some(entries),
            bytes == zip_bytes@,
            zip_contents(archive) == entries,
            n == entries.len(),
            i <= n,
            plan@.len() == i,
            forall|k: int| 0 <= k < i ==> #[trigger] entry_extractable(entries[k]),
            forall|k: int|
                0 <= k < i ==> {
                    &&& zip_entry_ok(dest@, entries[k].0, entries[k].1, #[trigger] plan@[k].action)
                    &&& plan@[k].action is WriteFile ==> entries[k].3 == Some(plan@[k].data@)
                    &&& !(plan@[k].action is WriteFile) ==> plan@[k].data@.len() == 0
                },
        decreases n - i,
    {
        let (name, enclosed, _) = match zip_entry(&mut archive, i, false) {
            Ok(e) => e,
            Err(e) => {
                assert(!entry_extractable(entries[i as int]));
                return Err(ExtractError { message: zip_error_text(&e) });
            },
        };
        let enclosed_ref: Option<&str> = match &enclosed {
            Some(s) => Some(s.as_str()),
            None => None,
        };
        let action = zip_entry_action(dest, name.as_str(), enclosed_ref);
        let data = match action {
            ZipEntryAction::WriteFile(_, _) => match zip_entry(&mut archive, i, true) {
                Ok(e) => e.2,
                Err(e) => {
                    assert(!entry_extractable(entries[i as int]));
                    return Err(ExtractError { message: zip_error_text(&e) });
                },
            },
            _ => Vec::new(),
        };
        assert(entry_extractable(entries[i as int]));
        plan.push(ZipStep { action, data });
        i = i + 1;
    }
    Ok(plan)
}

} // verus!
