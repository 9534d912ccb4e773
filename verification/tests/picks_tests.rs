use crownix_vault::disk::Disk;
use crownix_vault::picks::pick_existing_vault_file;
use crownix_vault::picks::pick_vault_folder;
use crownix_vault::pointer::load_config;

const ROOT: &str = "/home/user/.config/app";

fn names(list: &[&str]) -> Vec<String> {
    list.iter().map(|s| s.to_string()).collect()
}

#[test]
fn cancelled_folder_choice_reports() {
    let r = pick_vault_folder(&None, &Vec::new());
    assert!(!r.success);
    assert!(r.file_path.is_none());
    assert!(r.found.is_none());
    assert!(r.multiple.is_none());
    assert_eq!(r.message.as_deref(), Some("Folder selection cancelled"));
}

#[test]
fn chosen_folder_yields_default_vault_path() {
    let r = pick_vault_folder(&Some("/vaults".to_string()), &Vec::new());
    assert!(r.success);
    assert_eq!(r.file_path.as_deref(), Some("/vaults/CrownixVault.cxv"));
    assert_eq!(r.found, Some(false));
    assert_eq!(r.multiple, Some(false));
}

#[test]
fn one_existing_vault_is_found_not_multiple() {
    let r = pick_vault_folder(
        &Some("/vaults".to_string()),
        &names(&["a.cxv", "notes.txt"]),
    );
    assert_eq!(r.found, Some(true));
    assert_eq!(r.multiple, Some(false));
}

#[test]
fn several_existing_vaults_are_multiple() {
    let r = pick_vault_folder(
        &Some("/vaults".to_string()),
        &names(&["a.cxv", "b.cxv", "c.txt"]),
    );
    assert_eq!(r.found, Some(true));
    assert_eq!(r.multiple, Some(true));
}

#[test]
fn extension_needs_a_stem() {
    // A bare ".cxv" is a hidden file without an extension, not a vault.
    let r = pick_vault_folder(&Some("/vaults".to_string()), &names(&[".cxv", "cxv"]));
    assert_eq!(r.found, Some(false));
}

#[test]
fn cancelled_file_choice_reports() {
    let mut disk = Disk::new();
    let r = pick_existing_vault_file(&mut disk, &ROOT.to_string(), &None);
    assert!(!r.success);
    assert!(r.buffer.is_none());
    assert_eq!(r.message.as_deref(), Some("File selection cancelled"));
}

#[test]
fn unreadable_picked_file_reports() {
    let mut disk = Disk::new();
    let r = pick_existing_vault_file(
        &mut disk,
        &ROOT.to_string(),
        &Some("/vaults/gone.cxv".to_string()),
    );
    assert!(!r.success);
    assert_eq!(r.message.as_deref(), Some("Failed to read vault file"));
    assert_eq!(load_config(&disk, &ROOT.to_string()), None);
}

#[test]
fn picked_file_is_read_and_recorded() {
    let mut disk = Disk::new();
    let picked = "/vaults/old.cxv".to_string();
    assert!(disk.write_file(&picked, &vec![1, 2, 3]));
    let r = pick_existing_vault_file(&mut disk, &ROOT.to_string(), &Some(picked.clone()));
    assert!(r.success);
    assert_eq!(r.buffer, Some(vec![1, 2, 3]));
    assert_eq!(r.path, Some(picked.clone()));
    assert_eq!(load_config(&disk, &ROOT.to_string()), Some(picked));
}
