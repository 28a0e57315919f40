//! Unpacking an uploaded zip safely: the whole archive is judged before a
//! single entry is written - every entry must stay inside the destination
//! (zip-slip) and the total uncompressed size must stay within the limit
//! (zip-bomb).

use vstd::prelude::*;

use crate::error::{AppError, AppResult};
use crate::layout::{join_spec, path_join};

verus! {

/// What the archive says of one entry: the path it unpacks to relative to
/// the destination (`None` when that path would escape it, as the zip
/// crate's `enclosed_name` reports), its uncompressed size, and whether it
/// is a directory.
#[derive(Debug, PartialEq, Eq)]
pub struct ZipEntryInfo {
    pub enclosed_name: Option<String>,
    pub size: u64,
    pub is_dir: bool,
}

/// The message an escaping entry rejects an archive with.
pub const ESCAPES: &'static str = "invalid Zip archive: entry path escapes the destination directory";

/// The message an oversized archive is rejected with.
pub const TOO_LARGE: &'static str = "invalid Zip archive: uncompressed size exceeds the configured limit";

/// The total uncompressed size of entries, saturating at `u64::MAX`.
pub open spec fn total_size(entries: Seq<ZipEntryInfo>) -> u64
    decreases entries.len(),
{
    if entries.len() == 0 {
        0
    } else {
        let prev = total_size(entries.drop_last());
        if prev + entries.last().size > u64::MAX {
            u64::MAX
        } else {
            (prev + entries.last().size) as u64
        }
    }
}

/// Some entry would escape the destination.
pub open spec fn any_escapes(entries: Seq<ZipEntryInfo>) -> bool {
    exists|i: int| 0 <= i < entries.len() && (#[trigger] entries[i]).enclosed_name is None
}

/// Judges a whole archive before anything is written: an escaping entry or
/// a total over `max_uncompressed_bytes` rejects it; otherwise the total is
/// the size that will be written.
pub fn check_archive(entries: &[ZipEntryInfo], max_uncompressed_bytes: u64) -> (r: AppResult<u64>)
    ensures
        any_escapes(entries@) ==> (r matches Err(AppError::Zip(m)) && m@ == ESCAPES@),
        !any_escapes(entries@) && total_size(entries@) > max_uncompressed_bytes ==> (r matches Err(
            AppError::Zip(m),
        ) && m@ == TOO_LARGE@),
        r is Ok <==> !any_escapes(entries@) && total_size(entries@) <= max_uncompressed_bytes,
        r matches Ok(total) ==> total == total_size(entries@),
{
    let mut total: u64 = 0;
    let mut i: usize = 0;
    assert(entries@.take(0) =~= Seq::<ZipEntryInfo>::empty());
    while i < entries.len()
        invariant
            0 <= i <= entries@.len(),
            total == total_size(entries@.take(i as int)),
            forall|j: int| 0 <= j < i ==> (#[trigger] entries@[j]).enclosed_name is Some,
        decreases entries@.len() - i,
    {
        let entry = &entries[i];
        if entry.enclosed_name.is_none() {
            assert(entries@[i as int].enclosed_name is None);
            return Err(AppError::Zip(ESCAPES.to_owned()));
        }
        assert(entries@.take(i + 1).drop_last() =~= entries@.take(i as int));
        assert(entries@.take(i + 1).last() == entries@[i as int]);
        if total > u64::MAX - entry.size {
            total = u64::MAX;
        } else {
            total = total + entry.size;
        }
        i = i + 1;
    }
    assert(entries@.take(entries@.len() as int) =~= entries@);
    if total > max_uncompressed_bytes {
        return Err(AppError::Zip(TOO_LARGE.to_owned()));
    }
    Ok(total)
}

/// One write of an extraction: create the directory at `path`, or create
/// the file at `path` (with its parent directories) from the entry at
/// `entry`.
#[derive(Debug, PartialEq, Eq)]
pub struct Extraction {
    pub entry: usize,
    pub path: String,
    pub is_dir: bool,
}

/// The writes that unpack an accepted archive into `dest`, one per entry
/// in archive order, each at the entry's enclosed name joined onto `dest`.
pub fn extraction_plan(dest: &str, entries: &[ZipEntryInfo]) -> (r: Vec<Extraction>)
    requires
        !any_escapes(entries@),
    ensures
        r@.len() == entries@.len(),
        forall|i: int|
            0 <= i < r@.len() ==> {
                &&& (#[trigger] r@[i]).entry == i
                &&& r@[i].is_dir == entries@[i].is_dir
                &&& r@[i].path@ == join_spec(dest@, entries@[i].enclosed_name->0@)
            },
{
    let mut plan: Vec<Extraction> = Vec::new();
    let mut i: usize = 0;
    while i < entries.len()
        invariant
            0 <= i <= entries@.len(),
            !any_escapes(entries@),
            plan@.len() == i,
            forall|k: int|
                0 <= k < i ==> {
                    &&& (#[trigger] plan@[k]).entry == k
                    &&& plan@[k].is_dir == entries@[k].is_dir
                    &&& plan@[k].path@ == join_spec(dest@, entries@[k].enclosed_name->0@)
                },
        decreases entries@.len() - i,
    {
        let entry = &entries[i];
        assert(entries@[i as int].enclosed_name is Some);
        let name = match &entry.enclosed_name {
            Some(n) => n,
            None => {
                return plan;
            },
        };
        let path = path_join(dest, name.as_str());
        plan.push(Extraction { entry: i, path, is_dir: entry.is_dir });
        i = i + 1;
    }
    plan
}

/// What an entry of an archive reads as: its enclosed name's text (`None`
/// when it would escape), its uncompressed size, and whether it is a
/// directory.
pub open spec fn entry_view(e: ZipEntryInfo) -> (Option<Seq<char>>, u64, bool) {
    (
        match e.enclosed_name {
            Some(n) => Some(n@),
            None => None,
        },
        e.size,
        e.is_dir,
    )
}

/// Name for what the zip crate reads of an archive's entries from its
/// bytes, one at a time in archive order: the view of each entry read
/// before the first error, and the text of that error, if reading stopped
/// on one (opening the archive included).
pub uninterp spec fn spec_zip_listing(archive: Seq<u8>) -> (
    Seq<(Option<Seq<char>>, u64, bool)>,
    Option<Seq<char>>,
);

/// Name for the uncompressed contents of entry `index` of an archive, or
/// the text of the error reading them fails with.
pub uninterp spec fn spec_zip_entry_data(archive: Seq<u8>, index: usize) -> Result<Seq<u8>, Seq<char>>;

/// Calls `zip::ZipArchive::new` on the bytes, then `by_index` for each
/// entry in turn until one fails, reporting each entry's `enclosed_name`,
/// `size` and `is_dir`; an error stops the reading and is carried as its
/// text.
#[verifier::external_body]
fn zip_listing(archive: &[u8]) -> (r: (Vec<ZipEntryInfo>, Option<String>))
    ensures
        spec_zip_listing(archive@).0 == r.0@.map_values(|e: ZipEntryInfo| entry_view(e)),
        r.1 is None <==> spec_zip_listing(archive@).1 is None,
        r.1 is Some ==> spec_zip_listing(archive@).1 == Some(r.1->0@),
{
    let mut zip = match zip::ZipArchive::new(std::io::Cursor::new(archive)) {
        Ok(zip) => zip,
        Err(e) => return (Vec::new(), Some(format!("{e}"))),
    };
    let mut failure = None;
    let entries = (0..zip.len()).map_while(|i| match zip.by_index(i) {
        Ok(e) => Some(ZipEntryInfo {
            enclosed_name: e.enclosed_name().map(|p| p.to_string_lossy().into_owned()),
            size: e.size(),
            is_dir: e.is_dir(),
        }),
        Err(e) => { failure = Some(format!("{e}")); None },
    }).collect();
    (entries, failure)
}

/// Calls `zip::ZipArchive::new` on the bytes and `by_index(index)`, and
/// reads the entry to its end (`Read::read_to_end`, which decompresses it);
/// an error is carried as its text.
#[verifier::external_body]
fn zip_entry_data(archive: &[u8], index: usize) -> (r: Result<Vec<u8>, String>)
    ensures
        r matches Ok(d) ==> spec_zip_entry_data(archive@, index) is Ok && spec_zip_entry_data(
            archive@,
            index,
        )->Ok_0 == d@,
        r matches Err(m) ==> spec_zip_entry_data(archive@, index) is Err && spec_zip_entry_data(
            archive@,
            index,
        )->Err_0 == m@,
{
    let mut zip = zip::ZipArchive::new(std::io::Cursor::new(archive)).map_err(|e| format!("{e}"))?;
    let mut entry = zip.by_index(index).map_err(|e| format!("{e}"))?;
    let mut data = Vec::new();
    std::io::Read::read_to_end(&mut entry, &mut data).map_err(|e| format!("{e}"))?;
    Ok(data)
}

/// The total uncompressed size of the entries an archive lists, saturating
/// at `u64::MAX`.
pub open spec fn listing_total(entries: Seq<(Option<Seq<char>>, u64, bool)>) -> u64
    decreases entries.len(),
{
    if entries.len() == 0 {
        0
    } else {
        let prev = listing_total(entries.drop_last());
        if prev + entries.last().1 > u64::MAX {
            u64::MAX
        } else {
            (prev + entries.last().1) as u64
        }
    }
}

/// Some listed entry would escape the destination.
pub open spec fn listing_escapes(entries: Seq<(Option<Seq<char>>, u64, bool)>) -> bool {
    exists|i: int| 0 <= i < entries.len() && (#[trigger] entries[i]).0 is None
}

/// The size and escape checks read the same on entries and their views.
proof fn lemma_listing_agrees(entries: Seq<ZipEntryInfo>)
    ensures
        listing_total(entries.map_values(|e: ZipEntryInfo| entry_view(e))) == total_size(entries),
        listing_escapes(entries.map_values(|e: ZipEntryInfo| entry_view(e))) == any_escapes(entries),
    decreases entries.len(),
{
    let views = entries.map_values(|e: ZipEntryInfo| entry_view(e));
    if entries.len() > 0 {
        lemma_listing_agrees(entries.drop_last());
        assert(views.drop_last() =~= entries.drop_last().map_values(|e: ZipEntryInfo| entry_view(e)));
    }
    if any_escapes(entries) {
        let i = choose|i: int| 0 <= i < entries.len() && (#[trigger] entries[i]).enclosed_name is None;
        assert(views[i].0 is None);
    }
    if listing_escapes(views) {
        let i = choose|i: int| 0 <= i < views.len() && (#[trigger] views[i]).0 is None;
        assert(entries[i].enclosed_name is None);
    }
}

/// Reads an uploaded archive's entries one at a time and judges it as a
/// whole before anything is written: an entry that would escape the
/// destination refuses it (reported before any later read error, as each
/// entry is judged once read), then an error reading the archive, then a
/// total over `max_uncompressed_bytes`; an accepted archive gives its total
/// size and the writes that unpack it into `dest`, one per entry in archive
/// order.
pub fn unpack_plan(archive: &[u8], dest: &str, max_uncompressed_bytes: u64) -> (r: AppResult<
    (u64, Vec<Extraction>),
>)
    ensures
        listing_escapes(spec_zip_listing(archive@).0) ==> (r matches Err(AppError::Zip(m)) && m@
            == ESCAPES@),
        !listing_escapes(spec_zip_listing(archive@).0) && spec_zip_listing(archive@).1 is Some ==> (
        r matches Err(AppError::Zip(m)) && m@ == spec_zip_listing(archive@).1->0),
        !listing_escapes(spec_zip_listing(archive@).0) && spec_zip_listing(archive@).1 is None
            && listing_total(spec_zip_listing(archive@).0) > max_uncompressed_bytes ==> (r matches Err(
            AppError::Zip(m),
        ) && m@ == TOO_LARGE@),
        r is Ok <==> !listing_escapes(spec_zip_listing(archive@).0) && spec_zip_listing(archive@).1
            is None && listing_total(spec_zip_listing(archive@).0) <= max_uncompressed_bytes,
        r is Ok ==> ({
            let entries = spec_zip_listing(archive@).0;
            let (total, plan) = r->Ok_0;
            &&& total == listing_total(entries)
            &&& plan@.len() == entries.len()
            &&& forall|i: int|
                0 <= i < plan@.len() ==> {
                    &&& (#[trigger] plan@[i]).entry == i
                    &&& plan@[i].is_dir == entries[i].2
                    &&& plan@[i].path@ == join_spec(dest@, entries[i].0->0)
                }
        }),
{
    let (entries, failure) = zip_listing(archive);
    proof {
        lemma_listing_agrees(entries@);
    }
    if check_archive(entries.as_slice(), u64::MAX).is_err() {
        return Err(AppError::Zip(ESCAPES.to_owned()));
    }
    match failure {
        Some(m) => return Err(AppError::Zip(m)),
        None => {},
    }
    let total = check_archive(entries.as_slice(), max_uncompressed_bytes)?;
    let plan = extraction_plan(dest, entries.as_slice());
    proof {
        let views = entries@.map_values(|e: ZipEntryInfo| entry_view(e));
        assert forall|i: int| 0 <= i < plan@.len() implies {
            &&& (#[trigger] plan@[i]).entry == i
            &&& plan@[i].is_dir == views[i].2
            &&& plan@[i].path@ == join_spec(dest@, views[i].0->0)
        } by {
            assert(entries@[i].enclosed_name is Some);
        }
    }
    Ok((total, plan))
}

/// The contents the file of one planned write is created with: the
/// entry's uncompressed data, or the zip crate's error reading it.
pub fn extracted_file(archive: &[u8], step: &Extraction) -> (r: AppResult<Vec<u8>>)
    ensures
        spec_zip_entry_data(archive@, step.entry) is Ok ==> (r matches Ok(d) && d@
            == spec_zip_entry_data(archive@, step.entry)->Ok_0),
        spec_zip_entry_data(archive@, step.entry) is Err ==> (r matches Err(AppError::Zip(m)) && m@
            == spec_zip_entry_data(archive@, step.entry)->Err_0),
{
    match zip_entry_data(archive, step.entry) {
        Ok(d) => Ok(d),
        Err(m) => Err(AppError::Zip(m)),
    }
}

} // verus!
