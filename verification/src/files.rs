//! The listing of the data directory: its files, by name.

use vstd::prelude::*;
use vstd::seq_lib::{to_multiset_build, to_multiset_insert};
use vstd::utf8::encode_utf8;

verus! {

/// An entry of the data directory, as the caller read it.
#[derive(Clone, Debug, PartialEq, Eq)]
pub struct Listed {
    pub name: String,
    pub size: u64,
    /// Whether the entry is a regular file.
    pub is_file: bool,
}

/// A file of the listing.
#[derive(Clone, Debug, PartialEq, Eq)]
pub struct FileEntry {
    pub name: String,
    pub size: u64,
}

/// The name that the listing never shows: `.cogere`, under which the data
/// directory keeps the database.
pub open spec fn reserved_name() -> Seq<u8> {
    seq![0x2eu8, 0x63u8, 0x6fu8, 0x67u8, 0x65u8, 0x72u8, 0x65u8]
}

/// Whether `a` comes before `b`, or is `b`, in the order of dictionaries over
/// bytes.
pub open spec fn bytes_le(a: Seq<u8>, b: Seq<u8>) -> bool
    decreases a.len(),
{
    if a.len() == 0 {
        true
    } else if b.len() == 0 {
        false
    } else if a[0] != b[0] {
        a[0] < b[0]
    } else {
        bytes_le(a.drop_first(), b.drop_first())
    }
}

/// Whether the listing shows the entry: it is a regular file and does not
/// bear the reserved name.
pub open spec fn shown(entry: Listed) -> bool {
    entry.is_file && encode_utf8(entry.name@) != reserved_name()
}

/// The entry as the listing shows it.
pub open spec fn entry_of(entry: Listed) -> FileEntry {
    FileEntry { name: entry.name, size: entry.size }
}

/// Whether `a` may stand before `b` in the listing: by name, as bytes.
pub open spec fn may_precede(a: FileEntry, b: FileEntry) -> bool {
    bytes_le(encode_utf8(a.name@), encode_utf8(b.name@))
}

/// Whether a listing is in order.
pub open spec fn in_order(files: Seq<FileEntry>) -> bool {
    forall|i: int, j: int| 0 <= i <= j < files.len() ==> may_precede(files[i], files[j])
}

/// What a listing of `entries` holds, in the order of `entries`.
pub open spec fn shown_entries(entries: Seq<Listed>) -> Seq<FileEntry> {
    entries.filter(|entry: Listed| shown(entry)).map_values(|entry: Listed| entry_of(entry))
}

/// Of two byte strings, one comes before the other or they are the same.
proof fn lemma_bytes_le_total(a: Seq<u8>, b: Seq<u8>)
    ensures
        bytes_le(a, b) || bytes_le(b, a),
    decreases a.len(),
{
    if a.len() > 0 && b.len() > 0 && a[0] == b[0] {
        lemma_bytes_le_total(a.drop_first(), b.drop_first());
    }
}

/// The order passes on: what comes before `b` comes before all that `b` comes
/// before.
proof fn lemma_bytes_le_transitive(a: Seq<u8>, b: Seq<u8>, c: Seq<u8>)
    requires
        bytes_le(a, b),
        bytes_le(b, c),
    ensures
        bytes_le(a, c),
    decreases a.len(),
{
    if a.len() > 0 && b.len() > 0 && c.len() > 0 && a[0] == b[0] && b[0] == c[0] {
        lemma_bytes_le_transitive(a.drop_first(), b.drop_first(), c.drop_first());
    }
}

/// Whether `a` comes before `b`, or is `b`.
fn le(a: &[u8], b: &[u8]) -> (yes: bool)
    ensures
        yes == bytes_le(a@, b@),
{
    let mut i: usize = 0;
    assert(a@.skip(0) =~= a@ && b@.skip(0) =~= b@);
    loop
        invariant
            i <= a.len(),
            i <= b.len(),
            bytes_le(a@, b@) == bytes_le(a@.skip(i as int), b@.skip(i as int)),
        decreases a.len() - i,
    {
        if i == a.len() {
            return true;
        }
        if i == b.len() {
            return false;
        }
        if a[i] != b[i] {
            return a[i] < b[i];
        }
        assert(a@.skip(i as int).drop_first() =~= a@.skip(i + 1));
        assert(b@.skip(i as int).drop_first() =~= b@.skip(i + 1));
        i += 1;
    }
}

/// Whether a name is the reserved one.
fn is_reserved(name: &[u8]) -> (yes: bool)
    ensures
        yes == (name@ == reserved_name()),
{
    let yes = name.len() == 7 && name[0] == 0x2e && name[1] == 0x63 && name[2] == 0x6f && name[3]
        == 0x67 && name[4] == 0x65 && name[5] == 0x72 && name[6] == 0x65;
    if yes {
        assert(name@ =~= reserved_name());
    }
    yes
}

/// Lists the files of the data directory: the regular files among `entries`,
/// but for the reserved name, sorted by name. Every such file is listed as
/// often as it was read.
pub fn list_files(entries: &Vec<Listed>) -> (files: Vec<FileEntry>)
    ensures
        in_order(files@),
        files@.to_multiset() == shown_entries(entries@).to_multiset(),
{
    let mut files: Vec<FileEntry> = Vec::new();
    let mut n: usize = 0;
    assert(entries@.take(0) =~= Seq::<Listed>::empty());
    assert(shown_entries(Seq::<Listed>::empty()) =~= Seq::<FileEntry>::empty()) by {
        Seq::<Listed>::empty().lemma_filter_len(|entry: Listed| shown(entry));
    }
    while n < entries.len()
        invariant
            n <= entries.len(),
            in_order(files@),
            files@.to_multiset() == shown_entries(entries@.take(n as int)).to_multiset(),
        decreases entries.len() - n,
    {
        let entry = &entries[n];
        let ghost before = files@;
        let ghost seen = entries@.take(n as int);
        proof {
            let keep = |entry: Listed| shown(entry);
            let show = |entry: Listed| entry_of(entry);
            entries@.lemma_take_succ_push(n as int);
            seen.lemma_filter_push(*entry, keep);
            seen.filter(keep).lemma_push_map_commute(show, *entry);
            to_multiset_build(shown_entries(seen), entry_of(*entry));
        }
        if entry.is_file && !is_reserved(entry.name.as_str().as_bytes()) {
            let file = FileEntry { name: entry.name.clone(), size: entry.size };
            assert(file == entry_of(*entry));
            let mut at: usize = 0;
            while at < files.len() && le(
                files[at].name.as_str().as_bytes(),
                file.name.as_str().as_bytes(),
            )
                invariant
                    at <= files.len(),
                    forall|j: int| 0 <= j < at ==> may_precede(files@[j], file),
                decreases files.len() - at,
            {
                at += 1;
            }
            proof {
                assert forall|i: int, j: int| 0 <= i <= j < before.len() + 1 implies may_precede(
                    before.insert(at as int, file)[i],
                    before.insert(at as int, file)[j],
                ) by {
                    before.insert_ensures(at as int, file);
                    let after = before.insert(at as int, file);
                    let name = encode_utf8(file.name@);
                    lemma_bytes_le_total(name, name);
                    if at < before.len() {
                        let next = encode_utf8(before[at as int].name@);
                        lemma_bytes_le_total(next, name);
                        if j > at {
                            assert(after[j] == before[j - 1]);
                            assert(may_precede(before[at as int], before[j - 1]));
                            lemma_bytes_le_transitive(
                                name,
                                next,
                                encode_utf8(before[j - 1].name@),
                            );
                        }
                    }
                    if i > at {
                        assert(after[i] == before[i - 1]);
                        assert(after[j] == before[j - 1]);
                    }
                }
                to_multiset_insert(before, at as int, file);
            }
            files.insert(at, file);
        }
        n += 1;
    }
    assert(entries@.take(entries.len() as int) =~= entries@);
    files
}

} // verus!
