use std::io::Write;

use lifter::archive::{
    container_for, extract_target_from_gzfile, extract_target_from_tarfile,
    extract_target_from_tarxz, extract_target_from_zipfile, needs_exec_bits, set_executable,
    unpack, ArchiveError, Container,
};
use lifter::config::Config;

fn conf_with_pattern(pattern: &str) -> Config {
    let mut conf = Config::new();
    conf.target_filename_to_extract_from_archive = Some(pattern.to_string());
    conf.desired_filename = Some("out".to_string());
    conf
}

fn tar_of(members: &[(&str, &[u8])]) -> Vec<u8> {
    let mut builder = tar::Builder::new(Vec::new());
    for (path, data) in members {
        let mut header = tar::Header::new_gnu();
        header.set_size(data.len() as u64);
        header.set_mode(0o644);
        header.set_cksum();
        builder.append_data(&mut header, path, *data).unwrap();
    }
    builder.into_inner().unwrap()
}

fn gzip_of(data: &[u8]) -> Vec<u8> {
    let mut enc = flate2::write::GzEncoder::new(Vec::new(), flate2::Compression::default());
    enc.write_all(data).unwrap();
    enc.finish().unwrap()
}

fn xz_of(data: &[u8]) -> Vec<u8> {
    let mut enc = xz2::write::XzEncoder::new(Vec::new(), 6);
    enc.write_all(data).unwrap();
    enc.finish().unwrap()
}

fn zip_of(members: &[(&str, &[u8])]) -> Vec<u8> {
    let mut writer = zip::ZipWriter::new(std::io::Cursor::new(Vec::new()));
    for (name, data) in members {
        writer.start_file(*name, zip::write::FileOptions::default()).unwrap();
        writer.write_all(data).unwrap();
    }
    writer.finish().unwrap().into_inner()
}

const PAYLOAD: &[u8] = b"#!/bin/sh\necho target\n";

#[test]
fn tar_gz_member_is_found_by_base_name() {
    let archive = gzip_of(&tar_of(&[("pkg-1.0/README", b"readme"), ("pkg-1.0/bin/target", PAYLOAD)]));
    let out = extract_target_from_tarfile(&archive, &conf_with_pattern("target")).unwrap();
    assert_eq!(out, Some(PAYLOAD.to_vec()));
}

#[test]
fn tar_gz_unrelated_members_change_nothing() {
    let small = gzip_of(&tar_of(&[("target", PAYLOAD)]));
    let large = gzip_of(&tar_of(&[
        ("a/targets", b"no"),
        ("a/target.txt", b"no"),
        ("b/target", PAYLOAD),
        ("c/other", b"no"),
    ]));
    let conf = conf_with_pattern("target");
    let a = extract_target_from_tarfile(&small, &conf).unwrap();
    let b = extract_target_from_tarfile(&large, &conf).unwrap();
    assert_eq!(a, Some(PAYLOAD.to_vec()));
    assert_eq!(a, b);
}

#[test]
fn alternation_in_member_pattern_is_whole_name() {
    let archive = gzip_of(&tar_of(&[("bin/xb", b"no"), ("bin/b", PAYLOAD)]));
    let out = extract_target_from_tarfile(&archive, &conf_with_pattern("a|b")).unwrap();
    assert_eq!(out, Some(PAYLOAD.to_vec()));
}

#[test]
fn tar_gz_first_match_wins() {
    let archive = gzip_of(&tar_of(&[("x/target", b"first"), ("y/target", b"second")]));
    let out = extract_target_from_tarfile(&archive, &conf_with_pattern("target")).unwrap();
    assert_eq!(out, Some(b"first".to_vec()));
}

#[test]
fn tar_gz_without_match_gives_nothing() {
    let archive = gzip_of(&tar_of(&[("bin/tool", PAYLOAD)]));
    let out = extract_target_from_tarfile(&archive, &conf_with_pattern("target")).unwrap();
    assert_eq!(out, None);
}

#[test]
fn tar_gz_pattern_is_anchored() {
    let archive = gzip_of(&tar_of(&[("bin/rg-target-x", b"no"), ("bin/rg", PAYLOAD)]));
    let out = extract_target_from_tarfile(&archive, &conf_with_pattern("r.")).unwrap();
    assert_eq!(out, Some(PAYLOAD.to_vec()));
}

#[test]
fn tar_xz_unrelated_members_change_nothing() {
    let small = xz_of(&tar_of(&[("target", PAYLOAD)]));
    let large = xz_of(&tar_of(&[("doc/notes", b"no"), ("bin/target", PAYLOAD), ("z", b"no")]));
    let conf = conf_with_pattern("target");
    let a = extract_target_from_tarxz(&small, &conf).unwrap();
    let b = extract_target_from_tarxz(&large, &conf).unwrap();
    assert_eq!(a, Some(PAYLOAD.to_vec()));
    assert_eq!(a, b);
}

#[test]
fn zip_unrelated_members_change_nothing() {
    let small = zip_of(&[("target", PAYLOAD)]);
    let large = zip_of(&[("LICENSE", b"no"), ("dist/target", PAYLOAD), ("dist/target.sig", b"no")]);
    let conf = conf_with_pattern("target");
    let a = extract_target_from_zipfile(&small, &conf).unwrap();
    let b = extract_target_from_zipfile(&large, &conf).unwrap();
    assert_eq!(a, Some(PAYLOAD.to_vec()));
    assert_eq!(a, b);
}

#[test]
fn zip_without_match_gives_nothing() {
    let archive = zip_of(&[("LICENSE", b"no")]);
    let out = extract_target_from_zipfile(&archive, &conf_with_pattern("target")).unwrap();
    assert_eq!(out, None);
}

#[test]
fn gz_file_is_decoded_whole() {
    let out = extract_target_from_gzfile(&gzip_of(PAYLOAD)).unwrap();
    assert_eq!(out, PAYLOAD.to_vec());
}

#[test]
fn corrupt_archives_are_errors() {
    let garbage = b"this is not an archive".to_vec();
    let conf = conf_with_pattern("target");
    assert_eq!(extract_target_from_tarfile(&garbage, &conf), Err(ArchiveError::Corrupt));
    assert_eq!(extract_target_from_tarxz(&garbage, &conf), Err(ArchiveError::Corrupt));
    assert_eq!(extract_target_from_zipfile(&garbage, &conf), Err(ArchiveError::Corrupt));
    assert_eq!(extract_target_from_gzfile(&garbage), Err(ArchiveError::Corrupt));
}

#[test]
fn invalid_member_pattern_is_an_error() {
    let archive = gzip_of(&tar_of(&[("target", PAYLOAD)]));
    let out = extract_target_from_tarfile(&archive, &conf_with_pattern("(target"));
    assert_eq!(out, Err(ArchiveError::BadPattern));
    let zipped = zip_of(&[("target", PAYLOAD)]);
    let out = extract_target_from_zipfile(&zipped, &conf_with_pattern("(target"));
    assert_eq!(out, Err(ArchiveError::BadPattern));
}

#[test]
fn unpack_dispatches_on_kind() {
    let conf = conf_with_pattern("target");
    let tgz = gzip_of(&tar_of(&[("bin/target", PAYLOAD)]));
    assert_eq!(unpack(Container::TarGz, &tgz, &conf), Ok(Some(PAYLOAD.to_vec())));
    assert_eq!(unpack(Container::Gzip, &gzip_of(PAYLOAD), &conf), Ok(Some(PAYLOAD.to_vec())));
    assert_eq!(unpack(Container::Binary, PAYLOAD, &conf), Ok(Some(PAYLOAD.to_vec())));
    assert_eq!(unpack(Container::WindowsExe, PAYLOAD, &conf), Ok(Some(PAYLOAD.to_vec())));
}

#[test]
fn container_follows_url_ending() {
    let base = "https://example.com/releases/download/1.0/tool";
    assert_eq!(container_for(&format!("{base}.tar.gz")), Some(Container::TarGz));
    assert_eq!(container_for(&format!("{base}.tgz")), Some(Container::TarGz));
    assert_eq!(container_for(&format!("{base}.tar.xz")), Some(Container::TarXz));
    assert_eq!(container_for(&format!("{base}.txz")), Some(Container::TarXz));
    assert_eq!(container_for(&format!("{base}.zip")), Some(Container::Zip));
    assert_eq!(container_for(&format!("{base}.gz")), Some(Container::Gzip));
    assert_eq!(container_for(&format!("{base}.exe")), Some(Container::WindowsExe));
    assert_eq!(container_for(&format!("{base}.com")), Some(Container::Binary));
    assert_eq!(container_for(&format!("{base}.appimage")), Some(Container::Binary));
    assert_eq!(container_for(&format!("{base}.AppImage")), Some(Container::Binary));
    assert_eq!(container_for("https://example.com/download/linux-x64"), Some(Container::Binary));
    assert_eq!(container_for("https://example.com/tool_1.0_amd64.deb"), None);
    assert_eq!(container_for("https://example.com/v1.2/tool"), None);
    assert_eq!(container_for("tool"), None);
}

#[test]
fn executable_bits() {
    assert_eq!(set_executable(0o644), Some(0o755));
    assert_eq!(set_executable(0o100644), Some(0o755));
    assert_eq!(set_executable(0o744), None);
    assert_eq!(set_executable(0o755), None);
    assert!(needs_exec_bits("rg"));
    assert!(needs_exec_bits("bin/tool.AppImage"));
    assert!(needs_exec_bits("tool.exe.old"));
    assert!(!needs_exec_bits("tool.exe"));
}
