use flytunnel::frpc_resolver::{
    entry_file_name, entry_step, extract_binary, taken_binary, ArchiveFault, ArchiveKind,
    EntryStep, FrpBinaryKind,
};
use std::io::Write;

fn tar_gz(entries: &[(&str, &[u8])]) -> Vec<u8> {
    let encoder = flate2::write::GzEncoder::new(Vec::new(), flate2::Compression::default());
    let mut builder = tar::Builder::new(encoder);
    for (path, data) in entries {
        let mut header = tar::Header::new_gnu();
        header.set_size(data.len() as u64);
        header.set_mode(0o644);
        header.set_cksum();
        builder.append_data(&mut header, path, *data).unwrap();
    }
    builder.into_inner().unwrap().finish().unwrap()
}

fn zip_of(entries: &[(&str, &[u8])]) -> Vec<u8> {
    let mut writer = zip::ZipWriter::new(std::io::Cursor::new(Vec::new()));
    for (path, data) in entries {
        writer.start_file(*path, zip::write::SimpleFileOptions::default()).unwrap();
        writer.write_all(data).unwrap();
    }
    writer.finish().unwrap().into_inner()
}

#[test]
fn tarball_gives_the_first_entry_named_like_the_binary() {
    let archive = tar_gz(&[
        ("frp_0.67.0_linux_amd64/LICENSE", b"license"),
        ("frp_0.67.0_linux_amd64/frps", b"server"),
        ("frp_0.67.0_linux_amd64/frpc", b"client"),
        ("other/frpc", b"second"),
    ]);
    assert_eq!(
        extract_binary(&archive, ArchiveKind::TarGz, FrpBinaryKind::Client, "frpc"),
        Ok(b"client".to_vec())
    );
    assert_eq!(
        extract_binary(&archive, ArchiveKind::TarGz, FrpBinaryKind::Server, "frps"),
        Ok(b"server".to_vec())
    );
}

#[test]
fn tarball_names_are_compared_exactly() {
    let archive = tar_gz(&[("frp/FRPC", b"upper")]);
    assert_eq!(
        extract_binary(&archive, ArchiveKind::TarGz, FrpBinaryKind::Client, "frpc"),
        Err("frpc binary was not found inside the downloaded archive.".to_string())
    );
}

#[test]
fn zip_names_are_compared_ignoring_case() {
    let archive = zip_of(&[("frp_0.67.0_windows_amd64/LICENSE", b"l"), ("frp_0.67.0_windows_amd64/FRPC.EXE", b"exe")]);
    assert_eq!(
        extract_binary(&archive, ArchiveKind::Zip, FrpBinaryKind::Client, "frpc.exe"),
        Ok(b"exe".to_vec())
    );
    assert_eq!(
        extract_binary(&archive, ArchiveKind::Zip, FrpBinaryKind::Server, "frps.exe"),
        Err("frps binary was not found inside the downloaded archive.".to_string())
    );
}

#[test]
fn unreadable_archives_are_explained() {
    let zip_error = extract_binary(b"not a zip", ArchiveKind::Zip, FrpBinaryKind::Client, "frpc.exe").unwrap_err();
    assert!(zip_error.starts_with("Failed to inspect frpc archive: "), "{zip_error}");
    let tar_error = extract_binary(b"not a tarball", ArchiveKind::TarGz, FrpBinaryKind::Client, "frpc").unwrap_err();
    assert!(tar_error.starts_with("Failed to read frpc archive entry: "), "{tar_error}");
}

#[test]
fn entry_file_names_follow_path_rules() {
    assert_eq!(entry_file_name("frp/frpc"), Some("frpc".to_string()));
    assert_eq!(entry_file_name("frpc"), Some("frpc".to_string()));
    assert_eq!(entry_file_name("frp/frpc/"), Some("frpc".to_string()));
    assert_eq!(entry_file_name("frp/frpc/."), Some("frpc".to_string()));
    assert_eq!(entry_file_name("frp/.."), None);
    assert_eq!(entry_file_name("/"), None);
    assert_eq!(entry_file_name(""), None);
    assert_eq!(entry_file_name("."), None);
}

#[test]
fn each_listed_entry_decides_one_step() {
    let kind = FrpBinaryKind::Client;
    assert!(matches!(entry_step(ArchiveKind::TarGz, kind, "frpc", Some(Ok("a/frpc".into()))), EntryStep::Take));
    assert!(matches!(entry_step(ArchiveKind::TarGz, kind, "frpc", Some(Ok("a/frps".into()))), EntryStep::Skip));
    match entry_step(ArchiveKind::TarGz, kind, "frpc", None) {
        EntryStep::Fail(e) => assert_eq!(e, "frpc binary was not found inside the downloaded archive."),
        _ => panic!("expected the binary to be missing"),
    }
    match entry_step(ArchiveKind::Zip, kind, "frpc.exe", Some(Err(ArchiveFault::Inspect("bad".into())))) {
        EntryStep::Fail(e) => assert_eq!(e, "Failed to inspect frpc archive: bad"),
        _ => panic!("expected a failure"),
    }
    match entry_step(ArchiveKind::Zip, kind, "frpc.exe", Some(Err(ArchiveFault::ReadEntry("torn".into())))) {
        EntryStep::Fail(e) => assert_eq!(e, "Failed to read frpc archive entry: torn"),
        _ => panic!("expected a failure"),
    }
    assert_eq!(taken_binary(kind, Some(Ok(vec![1, 2]))), Ok(vec![1, 2]));
    assert_eq!(
        taken_binary(FrpBinaryKind::Server, Some(Err("eof".into()))),
        Err("Failed to extract frps binary: eof".to_string())
    );
}
