use crownix_vault::disk::Disk;
use crownix_vault::paths::settings_path;
use crownix_vault::settings::load_app_settings;
use crownix_vault::settings::save_app_settings;

const ROOT: &str = "/home/user/.config/app";

#[test]
fn missing_settings_read_as_empty_object() {
    let disk = Disk::new();
    let r = load_app_settings(&disk, &ROOT.to_string());
    assert!(r.success);
    assert_eq!(r.data, Some(b"{}".to_vec()));
    assert!(r.message.is_none());
}

#[test]
fn settings_round_trip() {
    let mut disk = Disk::new();
    let doc = b"{\"theme\":\"dark\",\"timeout\":30}".to_vec();
    let saved = save_app_settings(&mut disk, &ROOT.to_string(), &doc);
    assert!(saved.success);
    let r = load_app_settings(&disk, &ROOT.to_string());
    assert!(r.success);
    assert_eq!(r.data, Some(doc));
}

#[test]
fn unparseable_settings_are_a_distinct_failure() {
    let mut disk = Disk::new();
    let sp = settings_path(&ROOT.to_string());
    assert!(disk.write_file(&sp, &b"{broken".to_vec()));
    let r = load_app_settings(&disk, &ROOT.to_string());
    assert!(!r.success);
    assert!(r.data.is_none());
    assert_eq!(r.message.as_deref(), Some("Invalid settings file"));
}

#[test]
fn failed_settings_save_reports() {
    let mut disk = Disk::new();
    disk.fail_writes = true;
    let r = save_app_settings(&mut disk, &ROOT.to_string(), &b"{}".to_vec());
    assert!(!r.success);
    assert_eq!(r.message.as_deref(), Some("Failed to save settings"));
}
