use std::io::{Cursor, Write};

use divvun_bundler::archive::{check_compressed, is_compressed, open_archive, ArchiveError};
use zip::write::SimpleFileOptions;
use zip::{CompressionMethod, ZipWriter};

fn zip_of(entries: &[(&str, CompressionMethod)]) -> Vec<u8> {
    let mut writer = ZipWriter::new(Cursor::new(Vec::new()));
    for (name, method) in entries {
        writer
            .start_file(*name, SimpleFileOptions::default().compression_method(*method))
            .unwrap();
        writer.write_all(b"acceptor\nanalyser\n").unwrap();
    }
    writer.finish().unwrap().into_inner()
}

#[test]
fn empty_archive_is_not_compressed() {
    let mut archive = open_archive(zip_of(&[])).unwrap();
    assert!(!is_compressed(&mut archive));
    assert_eq!(check_compressed(&mut archive), Ok(false));
}

#[test]
fn stored_entries_are_not_compressed() {
    let bytes = zip_of(&[("index.xml", CompressionMethod::Stored), ("se.hfst", CompressionMethod::Stored)]);
    let mut archive = open_archive(bytes).unwrap();
    assert!(!is_compressed(&mut archive));
    // Asking again gives the same answer.
    assert!(!is_compressed(&mut archive));
    assert_eq!(check_compressed(&mut archive), Ok(false));
}

#[test]
fn a_deflated_entry_makes_it_compressed() {
    let bytes = zip_of(&[("index.xml", CompressionMethod::Stored), ("se.hfst", CompressionMethod::Deflated)]);
    let mut archive = open_archive(bytes).unwrap();
    assert!(is_compressed(&mut archive));
    assert_eq!(check_compressed(&mut archive), Ok(true));
}

#[test]
fn a_bzip2_entry_makes_it_compressed() {
    let bytes = zip_of(&[("se.hfst", CompressionMethod::Bzip2)]);
    let mut archive = open_archive(bytes).unwrap();
    assert_eq!(check_compressed(&mut archive), Ok(true));
}

#[test]
fn not_a_zip_archive() {
    assert!(matches!(open_archive(b"not a zip archive".to_vec()), Err(ArchiveError::NotAnArchive)));
    assert!(matches!(open_archive(Vec::new()), Err(ArchiveError::NotAnArchive)));
}

#[test]
fn an_entry_that_cannot_be_opened() {
    let mut bytes = zip_of(&[("index.xml", CompressionMethod::Stored)]);
    // Break the local header signature of the first entry; the central
    // directory still lists it.
    bytes[0] = b'X';
    let mut archive = open_archive(bytes).unwrap();
    assert_eq!(check_compressed(&mut archive), Err(ArchiveError::UnreadableEntry(0)));
}

#[test]
fn the_first_compressed_entry_decides_before_a_broken_one() {
    let mut bytes = zip_of(&[("a", CompressionMethod::Deflated), ("b", CompressionMethod::Stored)]);
    let second = bytes
        .windows(4)
        .enumerate()
        .filter(|(_, w)| *w == [b'P', b'K', 3, 4])
        .map(|(i, _)| i)
        .nth(1)
        .unwrap();
    bytes[second] = b'X';
    let mut archive = open_archive(bytes).unwrap();
    assert_eq!(check_compressed(&mut archive), Ok(true));
    assert!(is_compressed(&mut archive));
}

#[test]
fn a_broken_entry_after_stored_ones() {
    let mut bytes = zip_of(&[("a", CompressionMethod::Stored), ("b", CompressionMethod::Deflated)]);
    let second = bytes
        .windows(4)
        .enumerate()
        .filter(|(_, w)| *w == [b'P', b'K', 3, 4])
        .map(|(i, _)| i)
        .nth(1)
        .unwrap();
    bytes[second] = b'X';
    let mut archive = open_archive(bytes).unwrap();
    assert_eq!(check_compressed(&mut archive), Err(ArchiveError::UnreadableEntry(1)));
}

#[test]
fn junk_before_the_archive_is_tolerated() {
    let mut bytes = vec![0u8];
    bytes.extend(zip_of(&[("a", CompressionMethod::Deflated)]));
    if let Ok(mut archive) = open_archive(bytes) {
        assert!(check_compressed(&mut archive).is_ok());
    }
}
