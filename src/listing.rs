use vstd::prelude::*;
use vstd::string::StrSliceExecFns;

use crate::error::RemoteError;

verus! {

/// One listed entry of a remote directory.
#[derive(Clone, Debug)]
pub struct File {
    /// The listing path joined with the entry's name.
    pub path: String,
    /// The entry's name as the server reported it.
    pub filename: String,
    pub is_dir: bool,
    pub size: u64,
    pub modified: u64,
    pub access: u64,
    pub permissions: u32,
    pub owner: u32,
    pub group: u32,
}

/// The mathematical value of a [`File`].
pub struct FileView {
    pub path: Seq<char>,
    pub filename: Seq<char>,
    pub is_dir: bool,
    pub size: u64,
    pub modified: u64,
    pub access: u64,
    pub permissions: u32,
    pub owner: u32,
    pub group: u32,
}

impl View for File {
    type V = FileView;

    open spec fn view(&self) -> FileView {
        FileView {
            path: self.path@,
            filename: self.filename@,
            is_dir: self.is_dir,
            size: self.size,
            modified: self.modified,
            access: self.access,
            permissions: self.permissions,
            owner: self.owner,
            group: self.group,
        }
    }
}

/// The metadata the server sent with a directory entry; a field it left out
/// is `None`.
#[derive(Clone, Copy, Debug, PartialEq, Eq, Structural)]
pub struct EntryStat {
    pub size: Option<u64>,
    pub uid: Option<u32>,
    pub gid: Option<u32>,
    pub perm: Option<u32>,
    pub atime: Option<u64>,
    pub mtime: Option<u64>,
}

/// A raw directory entry as read from the server.
#[derive(Clone, Debug)]
pub struct DirEntry {
    pub name: String,
    pub stat: EntryStat,
}

/// Whether an entry with this name is listed: `.` and `..` never are, other
/// names that start with a dot only when hidden entries are shown.
pub open spec fn is_listed(name: Seq<char>, show_hidden: bool) -> bool {
    &&& name != seq!['.']
    &&& name != seq!['.', '.']
    &&& (show_hidden || !(name.len() > 0 && name[0] == '.'))
}

/// A remote path joined with an entry name, with one `/` between them.
pub open spec fn join_remote_of(dir: Seq<char>, name: Seq<char>) -> Seq<char> {
    if dir.len() == 0 {
        name
    } else if dir.last() == '/' {
        dir + name
    } else {
        dir + seq!['/'] + name
    }
}

/// Whether a POSIX mode describes a directory (file-type bits `0o040000`).
pub open spec fn is_dir_mode(perm: u32) -> bool {
    perm & 0o170000u32 == 0o040000u32
}

pub open spec fn is_complete(stat: EntryStat) -> bool {
    &&& stat.size is Some
    &&& stat.uid is Some
    &&& stat.gid is Some
    &&& stat.perm is Some
    &&& stat.atime is Some
    &&& stat.mtime is Some
}

/// The record of a complete entry listed under `dir`.
pub open spec fn record_of(dir: Seq<char>, e: DirEntry) -> FileView {
    FileView {
        path: join_remote_of(dir, e.name@),
        filename: e.name@,
        is_dir: is_dir_mode(e.stat.perm.unwrap()),
        size: e.stat.size.unwrap(),
        modified: e.stat.mtime.unwrap(),
        access: e.stat.atime.unwrap(),
        permissions: e.stat.perm.unwrap(),
        owner: e.stat.uid.unwrap(),
        group: e.stat.gid.unwrap(),
    }
}

/// The entries that a listing keeps, in the server's order.
pub open spec fn listed_entries(entries: Seq<DirEntry>, show_hidden: bool) -> Seq<DirEntry> {
    entries.filter(|e: DirEntry| is_listed(e.name@, show_hidden))
}

/// The listing of `dir`: the records of the kept entries in order, or an
/// error when a kept entry lacks metadata.
pub open spec fn listing_of(dir: Seq<char>, show_hidden: bool, entries: Seq<DirEntry>) -> Result<
    Seq<FileView>,
    RemoteError,
> {
    let kept = listed_entries(entries, show_hidden);
    if forall|i: int| 0 <= i < kept.len() ==> is_complete(#[trigger] kept[i].stat) {
        Ok(kept.map_values(|e: DirEntry| record_of(dir, e)))
    } else {
        Err(RemoteError::IncompleteMetadata)
    }
}

pub open spec fn files_view(files: Seq<File>) -> Seq<FileView> {
    files.map_values(|f: File| f@)
}

/// Decides whether an entry named `name` is listed.
pub fn keep_entry(name: &str, show_hidden: bool) -> (r: bool)
    ensures
        r == is_listed(name@, show_hidden),
{
    let n = name.unicode_len();
    if n == 0 {
        return true;
    }
    let first = name.get_char(0);
    if first != '.' {
        return true;
    }
    if n == 1 {
        assert(name@ =~= seq!['.']);
        return false;
    }
    if n == 2 && name.get_char(1) == '.' {
        assert(name@ =~= seq!['.', '.']);
        return false;
    }
    show_hidden
}

/// Joins a remote directory path and an entry name.
pub fn join_remote(dir: &str, name: &str) -> (r: String)
    ensures
        r@ == join_remote_of(dir@, name@),
{
    proof {
        reveal_strlit("/");
    }
    let n = dir.unicode_len();
    let mut path = dir.to_owned();
    if n > 0 && dir.get_char(n - 1) != '/' {
        path.append("/");
    }
    path.append(name);
    path
}

/// Whether the mode `perm` describes a directory.
pub fn mode_is_dir(perm: u32) -> (r: bool)
    ensures
        r == is_dir_mode(perm),
{
    perm & 0o170000u32 == 0o040000u32
}

/// Builds the record of a listed entry, or `None` when its metadata is
/// incomplete.
pub fn entry_record(dir: &str, entry: &DirEntry) -> (r: Option<File>)
    ensures
        match r {
            Some(f) => is_complete(entry.stat) && f@ == record_of(dir@, *entry),
            None => !is_complete(entry.stat),
        },
{
    let stat = entry.stat;
    match (stat.size, stat.uid, stat.gid, stat.perm, stat.atime, stat.mtime) {
        (Some(size), Some(owner), Some(group), Some(perm), Some(access), Some(modified)) => {
            Some(File {
                path: join_remote(dir, entry.name.as_str()),
                filename: entry.name.clone(),
                is_dir: mode_is_dir(perm),
                size,
                modified,
                access,
                permissions: perm,
                owner,
                group,
            })
        },
        _ => None,
    }
}

/// Turns the entries read from directory `dir`, in the server's order, into
/// its listing: `.` and `..` are dropped, so are hidden entries unless
/// `show_hidden`, and each kept entry becomes a record whose path is `dir`
/// joined with its name. A kept entry with incomplete metadata fails the
/// whole listing.
pub fn list_entries(dir: &str, show_hidden: bool, entries: &Vec<DirEntry>) -> (r: Result<
    Vec<File>,
    RemoteError,
>)
    ensures
        match r {
            Ok(files) => listing_of(dir@, show_hidden, entries@) == Ok::<Seq<FileView>, RemoteError>(
                files_view(files@),
            ),
            Err(e) => listing_of(dir@, show_hidden, entries@) == Err::<Seq<FileView>, RemoteError>(
                e,
            ),
        },
{
    let ghost pred = |e: DirEntry| is_listed(e.name@, show_hidden);
    let ghost rec = |e: DirEntry| record_of(dir@, e);
    let mut files: Vec<File> = Vec::new();
    let mut i: usize = 0;
    while i < entries.len()
        invariant
            i <= entries@.len(),
            pred == (|e: DirEntry| is_listed(e.name@, show_hidden)),
            rec == (|e: DirEntry| record_of(dir@, e)),
            forall|j: int|
                0 <= j < entries@.take(i as int).filter(pred).len() ==> is_complete(
                    #[trigger] entries@.take(i as int).filter(pred)[j].stat,
                ),
            files_view(files@) == entries@.take(i as int).filter(pred).map_values(rec),
        decreases entries.len() - i,
    {
        let entry = &entries[i];
        proof {
            assert(entries@.take(i + 1) =~= entries@.take(i as int).push(*entry));
            entries@.take(i as int).lemma_filter_push(*entry, pred);
        }
        if keep_entry(entry.name.as_str(), show_hidden) {
            match entry_record(dir, entry) {
                Some(f) => {
                    let ghost before = files@;
                    files.push(f);
                    proof {
                        let kept = entries@.take(i + 1).filter(pred);
                        assert(pred(*entry));
                        assert(kept == entries@.take(i as int).filter(pred).push(*entry));
                        assert(files@ == before.push(f));
                        assert(files_view(files@) =~= files_view(before).push(f@));
                        assert(rec(*entry) == f@);
                        assert(files_view(files@) =~= kept.map_values(rec));
                        assert forall|j: int| 0 <= j < kept.len() implies is_complete(
                            #[trigger] kept[j].stat,
                        ) by {
                            if j < kept.len() - 1 {
                                assert(kept[j] == entries@.take(i as int).filter(pred)[j]);
                            }
                        }
                    }
                },
                None => {
                    proof {
                        let kept = entries@.take(i + 1).filter(pred);
                        let rest = entries@.skip(i + 1);
                        assert(entries@ =~= entries@.take(i + 1) + rest);
                        Seq::filter_distributes_over_add(entries@.take(i + 1), rest, pred);
                        let all = listed_entries(entries@, show_hidden);
                        assert(all == kept + rest.filter(pred));
                        let k = kept.len() - 1;
                        assert(all[k] == *entry);
                        assert(!is_complete(all[k].stat));
                    }
                    return Err(RemoteError::IncompleteMetadata);
                },
            }
        } else {
            proof {
                assert(entries@.take(i + 1).filter(pred) == entries@.take(i as int).filter(pred));
            }
        }
        i += 1;
    }
    proof {
        assert(entries@.take(i as int) =~= entries@);
    }
    Ok(files)
}

} // verus!
