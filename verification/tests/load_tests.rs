use crownix_vault::backup::backup_exists;
use crownix_vault::disk::Disk;
use crownix_vault::loader::auto_load_vault;
use crownix_vault::paths::backup_path;
use crownix_vault::pointer::save_config;
use crownix_vault::writer::create_vault_file;
use crownix_vault::writer::save_vault_file_atomic;

const ROOT: &str = "/home/user/.config/app";
const VAULT: &str = "/tmp/v/CrownixVault.cxv";

/// A buffer laid out as a vault: little-endian length prefix, header JSON,
/// then payload.
fn vault_with_payload(payload: &[u8]) -> Vec<u8> {
    let header = r#"{"magic":"CROWNIX_VAULT","version":1}"#;
    let mut buf = Vec::new();
    buf.extend_from_slice(&(header.len() as u32).to_le_bytes());
    buf.extend_from_slice(header.as_bytes());
    buf.extend_from_slice(payload);
    buf
}

#[test]
fn no_pointer_means_not_configured() {
    let disk = Disk::new();
    let r = auto_load_vault(&disk, &ROOT.to_string());
    assert!(!r.success);
    assert!(r.buffer.is_none());
    assert!(r.path.is_none());
    assert_eq!(r.backup, Some(false));
}

#[test]
fn missing_file_without_backup_is_degraded() {
    let mut disk = Disk::new();
    save_config(&mut disk, &ROOT.to_string(), &VAULT.to_string());
    let r = auto_load_vault(&disk, &ROOT.to_string());
    assert!(!r.success);
    assert!(r.buffer.is_none());
    assert_eq!(r.backup, Some(false));
}

#[test]
fn missing_file_with_backup_reports_it() {
    let mut disk = Disk::new();
    save_config(&mut disk, &ROOT.to_string(), &VAULT.to_string());
    assert!(disk.write_file(&backup_path(&ROOT.to_string()), &vec![1]));
    let r = auto_load_vault(&disk, &ROOT.to_string());
    assert!(!r.success);
    assert_eq!(r.backup, Some(backup_exists(&disk, &ROOT.to_string())));
    assert_eq!(r.backup, Some(true));
}

#[test]
fn invalid_header_is_degraded_not_loaded() {
    let mut disk = Disk::new();
    save_config(&mut disk, &ROOT.to_string(), &VAULT.to_string());
    assert!(disk.write_file(&VAULT.to_string(), &b"not a vault".to_vec()));
    let r = auto_load_vault(&disk, &ROOT.to_string());
    assert!(!r.success);
    assert!(r.buffer.is_none());
    assert_eq!(r.backup, Some(false));
}

#[test]
fn valid_vault_loads_with_its_path() {
    let mut disk = Disk::new();
    let buf = vault_with_payload(b"hello");
    assert!(create_vault_file(&mut disk, &ROOT.to_string(), &VAULT.to_string(), &buf).success);
    let r = auto_load_vault(&disk, &ROOT.to_string());
    assert!(r.success);
    assert_eq!(r.buffer, Some(buf));
    assert_eq!(r.path.as_deref(), Some(VAULT));
    assert_eq!(r.backup, None);
}

#[test]
fn create_load_save_load_end_to_end() {
    let mut disk = Disk::new();
    let hello = vault_with_payload(b"hello");
    assert!(create_vault_file(&mut disk, &ROOT.to_string(), &VAULT.to_string(), &hello).success);

    let first = auto_load_vault(&disk, &ROOT.to_string());
    assert!(first.success);
    assert_eq!(first.buffer, Some(hello.clone()));
    assert_eq!(first.path.as_deref(), Some(VAULT));

    let world = vault_with_payload(b"world");
    assert!(save_vault_file_atomic(&mut disk, &ROOT.to_string(), &VAULT.to_string(), &world).success);
    assert_eq!(disk.read_file(&backup_path(&ROOT.to_string())), Some(hello));

    let second = auto_load_vault(&disk, &ROOT.to_string());
    assert!(second.success);
    assert_eq!(second.buffer, Some(world));
    assert_eq!(second.path.as_deref(), Some(VAULT));
}

#[test]
fn externally_deleted_vault_degrades_after_pointer_was_saved() {
    let mut disk = Disk::new();
    let buf = vault_with_payload(b"hello");
    assert!(create_vault_file(&mut disk, &ROOT.to_string(), &VAULT.to_string(), &buf).success);
    assert!(disk.remove_file(&VAULT.to_string()));
    let r = auto_load_vault(&disk, &ROOT.to_string());
    assert!(!r.success);
    assert!(r.buffer.is_none());
    assert!(r.path.is_none());
    assert_eq!(r.backup, Some(false));
}
