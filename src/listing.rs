//! Selecting the records among the entries of the storage directory.

use vstd::prelude::*;

verus! {

/// One entry of a directory listing: its file name, and whether it is a
/// regular file.
#[derive(Debug, Clone)]
pub struct DirEntryInfo {
    pub name: String,
    pub is_file: bool,
}

/// Whether an entry is a record: a regular file other than `init.md`.
pub open spec fn is_record(e: DirEntryInfo) -> bool {
    e.is_file && e.name@ != "init.md"@
}

/// The names of the records among `entries`, in listing order.
pub open spec fn record_names(entries: Seq<DirEntryInfo>) -> Seq<Seq<char>>
    decreases entries.len(),
{
    if entries.len() == 0 {
        Seq::empty()
    } else {
        let rest = record_names(entries.drop_last());
        if is_record(entries.last()) {
            rest.push(entries.last().name@)
        } else {
            rest
        }
    }
}

/// The characters of each name.
pub open spec fn name_views(names: Seq<String>) -> Seq<Seq<char>> {
    names.map_values(|s: String| s@)
}

/// The names of the records among the entries of the storage directory,
/// in the order of the listing.
pub fn get_all_adr_files_at_location(entries: &Vec<DirEntryInfo>) -> (r: Vec<String>)
    ensures
        name_views(r@) == record_names(entries@),
{
    let init_md = "init.md".to_owned();
    let mut names: Vec<String> = Vec::new();
    let mut i: usize = 0;
    while i < entries.len()
        invariant
            i <= entries@.len(),
            init_md@ == "init.md"@,
            name_views(names@) =~= record_names(entries@.subrange(0, i as int)),
        decreases entries@.len() - i,
    {
        let entry = &entries[i];
        assert(entries@.subrange(0, i + 1).drop_last() =~= entries@.subrange(0, i as int));
        if entry.is_file && entry.name != init_md {
            names.push(entry.name.clone());
        }
        i = i + 1;
        assert(name_views(names@) =~= record_names(entries@.subrange(0, i as int)));
    }
    assert(entries@.subrange(0, entries@.len() as int) =~= entries@);
    names
}

/// The number of records among the entries of the storage directory.
pub fn count_adrs_except_init_md(entries: &Vec<DirEntryInfo>) -> (r: usize)
    ensures
        r == record_names(entries@).len(),
{
    get_all_adr_files_at_location(entries).len()
}

/// The record names are exactly the names of the regular files other than
/// `init.md`: each comes from such an entry, and each such entry is there.
pub proof fn lemma_record_names_exact(entries: Seq<DirEntryInfo>)
    ensures
        forall|i: int|
            0 <= i < entries.len() && #[trigger] is_record(entries[i]) ==> record_names(
                entries,
            ).contains(entries[i].name@),
        forall|x: Seq<char>|
            #[trigger] record_names(entries).contains(x) ==> exists|i: int|
                0 <= i < entries.len() && is_record(entries[i]) && entries[i].name@ == x,
        !record_names(entries).contains("init.md"@),
    decreases entries.len(),
{
    if entries.len() > 0 {
        let init = entries.drop_last();
        lemma_record_names_exact(init);
        let rest = record_names(init);
        let all = record_names(entries);
        assert forall|i: int|
            0 <= i < entries.len() && #[trigger] is_record(entries[i]) implies all.contains(
                entries[i].name@,
            ) by {
            if i < entries.len() - 1 {
                assert(init[i] == entries[i]);
                let j = choose|j: int| 0 <= j < rest.len() && rest[j] == init[i].name@;
                assert(all[j] == rest[j]);
            } else {
                assert(all[all.len() - 1] == entries[i].name@);
            }
        }
        assert forall|x: Seq<char>| #[trigger] all.contains(x) implies exists|i: int|
            0 <= i < entries.len() && is_record(entries[i]) && entries[i].name@ == x by {
            let j = choose|j: int| 0 <= j < all.len() && all[j] == x;
            if j < rest.len() {
                assert(rest.contains(x));
                let i = choose|i: int|
                    0 <= i < init.len() && is_record(init[i]) && init[i].name@ == x;
                assert(entries[i] == init[i]);
            } else {
                assert(is_record(entries[entries.len() - 1]));
            }
        }
    }
}

} // verus!
