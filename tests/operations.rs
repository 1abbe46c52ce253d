use sftp_editor_client::listing::{join_remote, keep_entry, mode_is_dir};
use sftp_editor_client::{
    command_output, list_entries, DirEntry, Download, EntryStat, RemoteError, TransferAction,
    TransferEvent, TransferPhase, CHUNK_SIZE,
};

fn stat(perm: u32) -> EntryStat {
    EntryStat {
        size: Some(10),
        uid: Some(1000),
        gid: Some(100),
        perm: Some(perm),
        atime: Some(1_700_000_000),
        mtime: Some(1_600_000_000),
    }
}

fn entries(names: &[&str]) -> Vec<DirEntry> {
    names.iter().map(|n| DirEntry { name: n.to_string(), stat: stat(0o100644) }).collect()
}

#[test]
fn list_hides_dot_entries_and_hidden_files() {
    let files = list_entries(".", false, &entries(&["a.txt", ".hidden", ".", ".."])).unwrap();
    let names: Vec<&str> = files.iter().map(|f| f.filename.as_str()).collect();
    assert_eq!(names, vec!["a.txt"]);
    assert_eq!(files[0].path, "./a.txt");
}

#[test]
fn list_shows_hidden_files_in_server_order() {
    let files = list_entries("/x", true, &entries(&["a.txt", ".hidden", ".", ".."])).unwrap();
    let names: Vec<&str> = files.iter().map(|f| f.filename.as_str()).collect();
    assert_eq!(names, vec!["a.txt", ".hidden"]);
    assert_eq!(files[0].path, "/x/a.txt");
    assert_eq!(files[1].path, "/x/.hidden");
}

#[test]
fn list_copies_metadata() {
    let e = vec![DirEntry { name: "docs".to_string(), stat: stat(0o040755) }];
    let files = list_entries("/home/", false, &e).unwrap();
    let f = &files[0];
    assert_eq!(f.path, "/home/docs");
    assert!(f.is_dir);
    assert_eq!((f.size, f.modified, f.access), (10, 1_600_000_000, 1_700_000_000));
    assert_eq!((f.permissions, f.owner, f.group), (0o040755, 1000, 100));
}

#[test]
fn list_of_empty_directory_is_empty() {
    assert!(list_entries("/x", true, &Vec::new()).unwrap().is_empty());
    assert!(list_entries("/x", false, &entries(&[".", ".."])).unwrap().is_empty());
}

#[test]
fn list_fails_on_missing_metadata_of_kept_entry() {
    let mut e = entries(&["a.txt", "b.txt"]);
    e[1].stat.mtime = None;
    assert_eq!(list_entries("/x", false, &e).unwrap_err(), RemoteError::IncompleteMetadata);
}

#[test]
fn list_ignores_metadata_of_dropped_entries() {
    let mut e = entries(&["a.txt", ".", ".hidden"]);
    e[1].stat.size = None;
    e[2].stat.perm = None;
    assert_eq!(list_entries("/x", false, &e).unwrap().len(), 1);
}

#[test]
fn entry_filter_and_join() {
    assert!(!keep_entry(".", true));
    assert!(!keep_entry("..", true));
    assert!(keep_entry("...", true));
    assert!(!keep_entry("...", false));
    assert!(keep_entry("", false));
    assert!(keep_entry("a.b", false));
    assert_eq!(join_remote("", "a"), "a");
    assert_eq!(join_remote("/", "a"), "/a");
    assert_eq!(join_remote("/x/y", "a"), "/x/y/a");
    assert!(mode_is_dir(0o040000));
    assert!(!mode_is_dir(0o100755));
    assert!(!mode_is_dir(0o120777));
}

/// Feeds a download the given read sizes from `source` and returns what it
/// asked to write, in order, and its last action.
fn simulate(source: &[u8], sizes: &[usize], fail_read_at: Option<usize>) -> (Vec<u8>, TransferAction) {
    let mut d = Download::new("/remote/f".to_string(), "/local/f".to_string());
    let mut local = Vec::new();
    let mut ev = TransferEvent::Succeeded;
    let mut pos = 0;
    let mut reads = 0;
    loop {
        match d.advance(ev) {
            TransferAction::OpenSource { remote_path } => {
                assert_eq!(remote_path, "/remote/f");
                ev = TransferEvent::Succeeded;
            }
            TransferAction::CreateTarget { local_path } => {
                assert_eq!(local_path, "/local/f");
                ev = TransferEvent::Succeeded;
            }
            TransferAction::Read { max_len } => {
                assert_eq!(max_len, CHUNK_SIZE);
                if Some(reads) == fail_read_at {
                    ev = TransferEvent::Failed;
                } else {
                    let n = if reads < sizes.len() { sizes[reads] } else { max_len };
                    let n = n.min(max_len).min(source.len() - pos);
                    ev = TransferEvent::Read(source[pos..pos + n].to_vec());
                    pos += n;
                }
                reads += 1;
            }
            TransferAction::Write { bytes } => {
                assert!(!bytes.is_empty() && bytes.len() <= CHUNK_SIZE);
                local.extend_from_slice(&bytes);
                ev = TransferEvent::Succeeded;
            }
            finish @ TransferAction::Finish(_) => return (local, finish),
        }
    }
}

#[test]
fn download_of_10000_bytes_is_byte_identical() {
    let source: Vec<u8> = (0..10000u32).map(|i| (i * 7 % 251) as u8).collect();
    let (local, end) = simulate(&source, &[], None);
    assert!(matches!(end, TransferAction::Finish(Ok(()))));
    assert_eq!(local.len(), 10000);
    assert_eq!(local, source);
}

#[test]
fn download_with_uneven_chunks_is_byte_identical() {
    let source: Vec<u8> = (0..10000u32).map(|i| (i % 256) as u8).collect();
    let (local, end) = simulate(&source, &[1, 4096, 3000, 17, 4096], None);
    assert!(matches!(end, TransferAction::Finish(Ok(()))));
    assert_eq!(local, source);
}

#[test]
fn download_of_empty_file_writes_nothing() {
    let (local, end) = simulate(&[], &[], None);
    assert!(matches!(end, TransferAction::Finish(Ok(()))));
    assert!(local.is_empty());
}

#[test]
fn download_read_error_aborts() {
    let source = vec![1u8; 10000];
    let (local, end) = simulate(&source, &[], Some(1));
    assert!(matches!(end, TransferAction::Finish(Err(RemoteError::Transfer))));
    assert_eq!(local.len(), 4096);
}

#[test]
fn download_open_and_write_errors() {
    let mut d = Download::new("/r".to_string(), "/l".to_string());
    d.advance(TransferEvent::Succeeded);
    assert!(matches!(d.advance(TransferEvent::Failed), TransferAction::Finish(Err(RemoteError::Channel))));
    assert_eq!(d.phase(), TransferPhase::Failed(RemoteError::Channel));

    let mut d = Download::new("/r".to_string(), "/l".to_string());
    d.advance(TransferEvent::Succeeded);
    d.advance(TransferEvent::Succeeded);
    assert!(matches!(d.advance(TransferEvent::Failed), TransferAction::Finish(Err(RemoteError::Transfer))));

    let mut d = Download::new("/r".to_string(), "/l".to_string());
    d.advance(TransferEvent::Succeeded);
    d.advance(TransferEvent::Succeeded);
    d.advance(TransferEvent::Succeeded);
    assert!(matches!(d.advance(TransferEvent::Read(vec![1, 2])), TransferAction::Write { .. }));
    assert!(matches!(d.advance(TransferEvent::Failed), TransferAction::Finish(Err(RemoteError::Transfer))));
}

#[test]
fn exec_output_is_returned_unchanged() {
    assert_eq!(command_output(b"ok\n".to_vec()).unwrap(), "ok\n");
    assert_eq!(command_output("h\u{e9}llo".as_bytes().to_vec()).unwrap(), "h\u{e9}llo");
    assert_eq!(command_output(Vec::new()).unwrap(), "");
}

#[test]
fn exec_output_that_is_not_utf8_fails() {
    assert_eq!(command_output(vec![0x6f, 0xff, 0x6b]).unwrap_err(), RemoteError::Decode);
    assert_eq!(RemoteError::Decode.message(), "Command output is not valid UTF-8");
}
