use crownix_vault::backup::backup_exists;
use crownix_vault::backup::export_backup_vault;
use crownix_vault::disk::Disk;
use crownix_vault::paths::backup_path;
use crownix_vault::paths::export_path;
use crownix_vault::paths::u64_to_decimal;

const ROOT: &str = "/home/user/.config/app";

fn disk_with_backup(content: &[u8]) -> Disk {
    let mut disk = Disk::new();
    assert!(disk.write_file(&backup_path(&ROOT.to_string()), &content.to_vec()));
    disk
}

#[test]
fn export_moves_backup_to_stamped_destination() {
    let mut disk = disk_with_backup(b"old vault bytes");
    let r = export_backup_vault(
        &mut disk,
        &ROOT.to_string(),
        &Some("/exports".to_string()),
        1700000000,
    );
    assert!(r.success);
    assert!(r.message.is_none());
    let dest = r.backup_path.expect("an export path");
    assert_eq!(dest, "/exports/CrownixVault_backup_1700000000.cxv");
    assert_eq!(disk.read_file(&dest), Some(b"old vault bytes".to_vec()));
    assert!(!backup_exists(&disk, &ROOT.to_string()));
}

#[test]
fn export_without_backup_fails() {
    let mut disk = Disk::new();
    let r = export_backup_vault(
        &mut disk,
        &ROOT.to_string(),
        &Some("/exports".to_string()),
        7,
    );
    assert!(!r.success);
    assert_eq!(r.message.as_deref(), Some("No backup file found"));
    assert!(r.backup_path.is_none());
}

#[test]
fn cancelled_export_leaves_backup_intact() {
    let mut disk = disk_with_backup(b"kept");
    let r = export_backup_vault(&mut disk, &ROOT.to_string(), &None, 7);
    assert!(!r.success);
    assert_eq!(r.message.as_deref(), Some("Export cancelled"));
    assert!(backup_exists(&disk, &ROOT.to_string()));
}

#[test]
fn failed_export_copy_leaves_backup_intact() {
    let mut disk = disk_with_backup(b"kept");
    disk.fail_copies = true;
    let r = export_backup_vault(
        &mut disk,
        &ROOT.to_string(),
        &Some("/exports".to_string()),
        7,
    );
    assert!(!r.success);
    assert_eq!(r.message.as_deref(), Some("Failed to export backup"));
    assert!(backup_exists(&disk, &ROOT.to_string()));
    assert_eq!(
        disk.read_file(&backup_path(&ROOT.to_string())),
        Some(b"kept".to_vec())
    );
}

#[test]
fn decimal_rendering_is_exact() {
    assert_eq!(u64_to_decimal(0), "0");
    assert_eq!(u64_to_decimal(7), "7");
    assert_eq!(u64_to_decimal(10), "10");
    assert_eq!(u64_to_decimal(1234567890), "1234567890");
    assert_eq!(u64_to_decimal(u64::MAX), "18446744073709551615");
}

#[test]
fn export_destination_is_deterministic() {
    assert_eq!(
        export_path(&"/d".to_string(), 42),
        "/d/CrownixVault_backup_42.cxv"
    );
}
