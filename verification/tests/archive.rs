use std::io::Cursor;
use std::io::Read;

use wazip::WaZip;
use wazip::WaZipError;

fn read_archive(bytes: Vec<u8>) -> zip::ZipArchive<Cursor<Vec<u8>>> {
    zip::ZipArchive::new(Cursor::new(bytes)).expect("well-formed archive")
}

fn entry_bytes(archive: &mut zip::ZipArchive<Cursor<Vec<u8>>>, name: &str) -> Vec<u8> {
    let mut entry = archive.by_name(name).expect("entry present");
    let mut buf = Vec::new();
    entry.read_to_end(&mut buf).expect("entry readable");
    buf
}

#[test]
fn level_defaults_to_six() {
    let builder = WaZip::new(None);
    assert_eq!(builder.compression_level(), 6);
}

#[test]
fn level_clamps_below_zero() {
    assert_eq!(WaZip::new(Some(-1)).compression_level(), 0);
    assert_eq!(WaZip::new(Some(i32::MIN)).compression_level(), 0);
}

#[test]
fn level_clamps_above_nine() {
    assert_eq!(WaZip::new(Some(10)).compression_level(), 9);
    assert_eq!(WaZip::new(Some(i32::MAX)).compression_level(), 9);
}

#[test]
fn level_in_range_is_kept() {
    for level in 0..=9 {
        assert_eq!(WaZip::new(Some(level)).compression_level(), level as u8);
    }
}

#[test]
fn round_trip_files_match() {
    let mut builder = WaZip::new(None);
    builder.add_file("first.bin", &[0, 255, 7, 7, 7]).unwrap();
    builder.add_file("second.bin", &[42]).unwrap();
    builder.add_file("third.bin", &[]).unwrap();
    let bytes = builder.finish().unwrap();

    let mut archive = read_archive(bytes);
    assert_eq!(archive.len(), 3);
    assert_eq!(entry_bytes(&mut archive, "first.bin"), vec![0, 255, 7, 7, 7]);
    assert_eq!(entry_bytes(&mut archive, "second.bin"), vec![42]);
    assert_eq!(entry_bytes(&mut archive, "third.bin"), Vec::<u8>::new());
}

#[test]
fn entries_keep_their_order() {
    let mut builder = WaZip::new(None);
    builder.add_file("z.bin", &[1]).unwrap();
    builder.add_file("a.bin", &[2]).unwrap();
    builder.add_directory("m/").unwrap();
    let bytes = builder.finish().unwrap();

    let mut archive = read_archive(bytes);
    assert_eq!(archive.by_index(0).unwrap().name(), "z.bin");
    assert_eq!(archive.by_index(1).unwrap().name(), "a.bin");
    assert_eq!(archive.by_index(2).unwrap().name(), "m/");
}

#[test]
fn directory_name_with_backslash_is_kept() {
    let mut builder = WaZip::new(None);
    builder.add_directory("win\\").unwrap();
    let bytes = builder.finish().unwrap();

    let mut archive = read_archive(bytes);
    assert_eq!(archive.len(), 1);
    assert!(archive.by_name("win\\").is_ok());
}

#[test]
fn text_entry_decompresses_to_utf8_bytes() {
    let mut builder = WaZip::new(None);
    builder.add_file_string("greeting.txt", "hello").unwrap();
    let bytes = builder.finish().unwrap();

    let mut archive = read_archive(bytes);
    assert_eq!(
        entry_bytes(&mut archive, "greeting.txt"),
        vec![0x68, 0x65, 0x6c, 0x6c, 0x6f]
    );
}

#[test]
fn directory_entry_has_no_content() {
    let mut builder = WaZip::new(None);
    builder.add_directory("docs/").unwrap();
    let bytes = builder.finish().unwrap();

    let mut archive = read_archive(bytes);
    assert_eq!(archive.len(), 1);
    let entry = archive.by_name("docs/").expect("directory present");
    assert!(entry.is_dir());
    assert_eq!(entry.size(), 0);
}

#[test]
fn directory_name_gets_trailing_slash() {
    let mut builder = WaZip::new(None);
    builder.add_directory("docs").unwrap();
    let bytes = builder.finish().unwrap();

    let mut archive = read_archive(bytes);
    assert_eq!(archive.len(), 1);
    assert!(archive.by_name("docs/").is_ok());
}

#[test]
fn mixed_scenario_has_exactly_three_entries() {
    let mut builder = WaZip::new(None);
    builder.add_file("a.txt", &[1, 2, 3]).unwrap();
    builder.add_directory("sub/").unwrap();
    builder.add_file_string("sub/b.txt", "x").unwrap();
    let bytes = builder.finish().unwrap();

    let mut archive = read_archive(bytes);
    assert_eq!(archive.len(), 3);
    assert_eq!(entry_bytes(&mut archive, "a.txt"), vec![1, 2, 3]);
    assert_eq!(entry_bytes(&mut archive, "sub/b.txt"), b"x".to_vec());
    let dir = archive.by_name("sub/").expect("directory present");
    assert!(dir.is_dir());
}

#[test]
fn array_buffer_bytes_are_recorded() {
    let mut builder = WaZip::new(Some(1));
    let host_bytes: Vec<u8> = vec![9, 8, 7, 6];
    builder
        .add_file_array_buffer("buffer.bin", &host_bytes)
        .unwrap();
    let bytes = builder.finish().unwrap();

    let mut archive = read_archive(bytes);
    assert_eq!(entry_bytes(&mut archive, "buffer.bin"), vec![9, 8, 7, 6]);
}

#[test]
fn level_zero_archive_still_reads_back() {
    let mut builder = WaZip::new(Some(0));
    builder.add_file("raw.bin", &[5; 100]).unwrap();
    let bytes = builder.finish().unwrap();

    let mut archive = read_archive(bytes);
    assert_eq!(entry_bytes(&mut archive, "raw.bin"), vec![5; 100]);
}

#[test]
fn first_finish_succeeds_and_is_well_formed() {
    let mut builder = WaZip::new(None);
    builder.add_file("a.txt", &[1]).unwrap();
    let bytes = builder.finish().unwrap();
    let archive = read_archive(bytes);
    assert_eq!(archive.len(), 1);
}

#[test]
fn second_finish_is_refused() {
    let mut builder = WaZip::new(None);
    builder.finish().unwrap();
    let err = builder.finish().unwrap_err();
    assert!(matches!(err, WaZipError::AlreadyFinished));
    assert_eq!(err.tag(), "already_finished");
}

#[test]
fn adds_after_finish_are_refused() {
    let mut builder = WaZip::new(None);
    builder.finish().unwrap();
    assert!(matches!(
        builder.add_file("a", &[1]),
        Err(WaZipError::AlreadyFinished)
    ));
    assert!(matches!(
        builder.add_file_string("b", "text"),
        Err(WaZipError::AlreadyFinished)
    ));
    assert!(matches!(
        builder.add_file_array_buffer("c", &[2]),
        Err(WaZipError::AlreadyFinished)
    ));
    assert!(matches!(
        builder.add_directory("d/"),
        Err(WaZipError::AlreadyFinished)
    ));
}

#[test]
fn error_tags_name_the_failing_phase() {
    let open = WaZipError::OpenEntryFailed {
        message: String::from("boom"),
    };
    assert_eq!(open.tag(), "start_file");
    assert_eq!(open.message(), "boom");

    let write = WaZipError::WriteFailed {
        message: String::from("sink"),
    };
    assert_eq!(write.tag(), "write");
    assert_eq!(write.message(), "sink");

    let dir = WaZipError::AddDirectoryFailed {
        message: String::from("dir"),
    };
    assert_eq!(dir.tag(), "add_directory");
    assert_eq!(dir.message(), "dir");

    let fin = WaZipError::FinishFailed {
        message: String::from("end"),
    };
    assert_eq!(fin.tag(), "finish");
    assert_eq!(fin.message(), "end");

    assert_eq!(WaZipError::AlreadyFinished.tag(), "already_finished");
    assert_eq!(WaZipError::AlreadyFinished.message(), "");
}

#[test]
fn empty_name_is_accepted_by_this_encoder() {
    // zip 0.6 does not validate entry names, so even an empty name is
    // recorded rather than rejected; the error path stays reachable only
    // through the builder's own state machine.
    let mut builder = WaZip::new(None);
    builder.add_file("", &[1]).unwrap();
    let bytes = builder.finish().unwrap();
    let mut archive = read_archive(bytes);
    assert_eq!(entry_bytes(&mut archive, ""), vec![1]);
}

#[test]
fn greet_runs() {
    wazip::greet();
}
