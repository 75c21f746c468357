use std::io::Read;
use tix::archive::{
    staging_path, store_path, ArchiveWriter, StoreError, FILE_MODE, GROUP_ID, OWNER_ID,
};

fn unpack(artifact: &[u8]) -> Vec<(String, u32, u32, u32, Vec<u8>)> {
    let raw = zstd::stream::decode_all(artifact).unwrap();
    let mut out = Vec::new();
    let mut rest: &[u8] = &raw;
    loop {
        let mut reader = cpio::NewcReader::new(rest).unwrap();
        if reader.entry().is_trailer() {
            break;
        }
        let e = reader.entry();
        let meta = (e.name().to_string(), e.uid(), e.gid(), e.mode());
        let mut content = Vec::new();
        reader.read_to_end(&mut content).unwrap();
        out.push((meta.0, meta.1, meta.2, meta.3, content));
        rest = reader.finish().unwrap();
    }
    out
}

#[test]
fn add_text_file_appends_entries_in_call_order() {
    let mut w = ArchiveWriter::new("pkg".to_string());
    w.add_text_file("a".to_string(), "first".to_string());
    w.add_text_file("b/c".to_string(), "second".to_string());
    w.add_text_file("a".to_string(), "".to_string());
    assert_eq!(w.name, "pkg");
    assert_eq!(w.files.len(), 3);
    let paths: Vec<&str> = w.files.iter().map(|e| e.path.as_str()).collect();
    assert_eq!(paths, vec!["a", "b/c", "a"]);
    for e in &w.files {
        assert_eq!((e.uid, e.gid, e.mode), (1000, 1000, 0o100644));
    }
    assert_eq!(w.files[0].content, b"first".to_vec());
    assert_eq!(w.files[1].content, b"second".to_vec());
    assert!(w.files[2].content.is_empty());
}

#[test]
fn text_content_is_stored_as_utf8() {
    let mut w = ArchiveWriter::new("u".to_string());
    w.add_text_file("f".to_string(), "h\u{e9}".to_string());
    assert_eq!(w.files[0].content, vec![b'h', 0xC3, 0xA9]);
}

#[test]
fn metadata_constants() {
    assert_eq!(OWNER_ID, 1000);
    assert_eq!(GROUP_ID, 1000);
    assert_eq!(FILE_MODE, 0o100644);
}

#[test]
fn artifact_unpacks_to_the_entries_in_order() {
    let mut w = ArchiveWriter::new("multi".to_string());
    w.add_text_file("one".to_string(), "1".to_string());
    w.add_text_file("two/three".to_string(), "two and three".to_string());
    w.add_text_file("empty".to_string(), String::new());
    let entries = unpack(&w.finish().unwrap());
    assert_eq!(entries.len(), 3);
    assert_eq!(entries[0], ("one".to_string(), 1000, 1000, 0o100644, b"1".to_vec()));
    assert_eq!(
        entries[1],
        ("two/three".to_string(), 1000, 1000, 0o100644, b"two and three".to_vec())
    );
    assert_eq!(entries[2], ("empty".to_string(), 1000, 1000, 0o100644, Vec::new()));
}

#[test]
fn hello_artifact_holds_one_regular_file() {
    let text = "#!/bin/sh\necho \"Hello World!\"\n";
    let mut w = ArchiveWriter::new("hello".to_string());
    w.add_text_file("bin/hello".to_string(), text.to_string());
    let entries = unpack(&w.finish().unwrap());
    assert_eq!(entries.len(), 1);
    assert_eq!(entries[0].0, "bin/hello");
    assert_eq!(entries[0].3 & 0o170000, 0o100000);
    assert_eq!(entries[0].4, text.as_bytes().to_vec());
    assert_eq!(store_path("hello"), "/tix/store/hello");
}

#[test]
fn empty_writer_gives_a_trailer_only_archive() {
    let w = ArchiveWriter::new("none".to_string());
    let raw = w.archive().unwrap();
    assert!(raw.starts_with(b"070701"));
    assert!(unpack(&w.finish().unwrap()).is_empty());
}

#[test]
fn archive_is_newc_and_finish_compresses_it() {
    let mut w = ArchiveWriter::new("x".to_string());
    w.add_text_file("f".to_string(), "data".to_string());
    let raw = w.archive().unwrap();
    assert!(raw.starts_with(b"070701"));
    let packed = w.finish().unwrap();
    assert_ne!(packed, raw);
    assert_eq!(packed[..4], [0x28, 0xB5, 0x2F, 0xFD]);
    assert_eq!(zstd::stream::decode_all(&packed[..]).unwrap(), raw);
}

#[test]
fn identical_entries_give_identical_artifacts() {
    let mut a = ArchiveWriter::new("same".to_string());
    let mut b = ArchiveWriter::new("same".to_string());
    for w in [&mut a, &mut b] {
        w.add_text_file("x".to_string(), "y".to_string());
        w.add_text_file("z".to_string(), "w".to_string());
    }
    assert_eq!(a.finish().unwrap(), b.finish().unwrap());
}

#[test]
fn store_paths_are_keyed_by_name() {
    assert_eq!(store_path("a"), "/tix/store/a");
    assert_eq!(store_path("a"), store_path("a"));
    assert_ne!(store_path("a"), store_path("b"));
    assert_eq!(staging_path("a"), "/tix/store/a.partial");
}

#[test]
fn store_errors_are_distinct() {
    assert_ne!(StoreError::Serialize, StoreError::Write);
}

#[test]
fn second_archive_of_a_name_replaces_the_first() {
    let mut first = ArchiveWriter::new("dup".to_string());
    first.add_text_file("f".to_string(), "one".to_string());
    let mut second = ArchiveWriter::new("dup".to_string());
    second.add_text_file("f".to_string(), "two".to_string());
    let a = first.finish().unwrap();
    let b = second.finish().unwrap();
    assert_eq!(store_path(&first.name), store_path(&second.name));
    assert_ne!(a, b);
    assert_eq!(unpack(&b), vec![("f".to_string(), 1000, 1000, 0o100644, b"two".to_vec())]);
}
