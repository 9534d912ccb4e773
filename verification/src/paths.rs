//! Locations of the persisted artifacts, and the names derived from them.
//!
//! Everything the layer persists lives under one per-user configuration
//! root, passed in explicitly: the pointer document, the settings document
//! and the single backup slot.  The vault file itself lives wherever the
//! caller chose; only its temporary sibling is derived from it here.

use vstd::prelude::*;

verus! {

/// Where the pointer document lives under a configuration root.
pub open spec fn config_path_of(root: Seq<char>) -> Seq<char> {
    root + "/config.json"@
}

/// Where the settings document lives under a configuration root.
pub open spec fn settings_path_of(root: Seq<char>) -> Seq<char> {
    root + "/settings.json"@
}

/// Where the backup slot lives under a configuration root.
pub open spec fn backup_path_of(root: Seq<char>) -> Seq<char> {
    root + "/backup/vault.bak"@
}

/// The temporary sibling a save writes before renaming it over `primary`.
/// It sits in the same directory as `primary`, so the rename cannot cross a
/// filesystem boundary.
pub open spec fn temp_path_of(primary: Seq<char>) -> Seq<char> {
    primary + ".tmp"@
}

/// The default vault file inside a chosen folder.
pub open spec fn vault_file_path_of(folder: Seq<char>) -> Seq<char> {
    folder + "/CrownixVault.cxv"@
}

/// The pointer document's path.
pub fn config_path(root: &String) -> (r: String)
    ensures
        r@ == config_path_of(root@),
{
    root.clone().concat("/config.json")
}

/// The settings document's path.
pub fn settings_path(root: &String) -> (r: String)
    ensures
        r@ == settings_path_of(root@),
{
    root.clone().concat("/settings.json")
}

/// The backup slot's path.
pub fn backup_path(root: &String) -> (r: String)
    ensures
        r@ == backup_path_of(root@),
{
    root.clone().concat("/backup/vault.bak")
}

/// The temporary sibling of `primary`.
pub fn temp_path(primary: &String) -> (r: String)
    ensures
        r@ == temp_path_of(primary@),
{
    primary.clone().concat(".tmp")
}

/// The default vault file inside `folder`.
pub fn vault_file_path(folder: &String) -> (r: String)
    ensures
        r@ == vault_file_path_of(folder@),
{
    folder.clone().concat("/CrownixVault.cxv")
}

/// The three store locations under one root are pairwise distinct, so a
/// write to one never clobbers another.
pub proof fn lemma_store_paths_distinct(root: Seq<char>)
    ensures
        config_path_of(root) != backup_path_of(root),
        config_path_of(root) != settings_path_of(root),
        settings_path_of(root) != backup_path_of(root),
{
    reveal_strlit("/config.json");
    reveal_strlit("/settings.json");
    reveal_strlit("/backup/vault.bak");
    assert(config_path_of(root).len() == root.len() + 12);
    assert(settings_path_of(root).len() == root.len() + 14);
    assert(backup_path_of(root).len() == root.len() + 17);
}

/// A temporary sibling never aliases its primary.
pub proof fn lemma_temp_path_distinct(primary: Seq<char>)
    ensures
        temp_path_of(primary) != primary,
{
    reveal_strlit(".tmp");
    assert(temp_path_of(primary).len() == primary.len() + 4);
}

/// The decimal digit for `d`, for `d < 10`.
pub open spec fn decimal_digit(d: u64) -> char
    recommends
        d < 10,
{
    ((48 + (d % 10)) as u8) as char
}

/// The decimal digits of `n`, most significant first, with no leading zero
/// except for `n == 0`.
pub open spec fn decimal_digits(n: u64) -> Seq<char>
    decreases n,
{
    if n < 10 {
        seq![decimal_digit(n)]
    } else {
        decimal_digits((n / 10) as u64).push(decimal_digit((n % 10) as u64))
    }
}

fn digit_str(d: u64) -> (s: &'static str)
    requires
        d < 10,
    ensures
        s@ == seq![decimal_digit(d)],
{
    let s: &'static str = match d {
        0 => "0",
        1 => "1",
        2 => "2",
        3 => "3",
        4 => "4",
        5 => "5",
        6 => "6",
        7 => "7",
        8 => "8",
        _ => "9",
    };
    proof {
        reveal_strlit("0");
        reveal_strlit("1");
        reveal_strlit("2");
        reveal_strlit("3");
        reveal_strlit("4");
        reveal_strlit("5");
        reveal_strlit("6");
        reveal_strlit("7");
        reveal_strlit("8");
        reveal_strlit("9");
        assert(s@ =~= seq![decimal_digit(d)]);
    }
    s
}

/// Renders `n` in decimal.
pub fn u64_to_decimal(n: u64) -> (s: String)
    ensures
        s@ == decimal_digits(n),
    decreases n,
{
    if n < 10 {
        digit_str(n).to_owned()
    } else {
        let mut s = u64_to_decimal(n / 10);
        s.append(digit_str(n % 10));
        proof {
            assert(s@ =~= decimal_digits(n));
        }
        s
    }
}

/// The file name an export carries: the fixed stem plus a timestamp.
pub open spec fn export_name_of(stamp: u64) -> Seq<char> {
    "CrownixVault_backup_"@ + decimal_digits(stamp) + ".cxv"@
}

/// The full destination path of an export into `folder`.
pub open spec fn export_path_of(folder: Seq<char>, stamp: u64) -> Seq<char> {
    folder + "/"@ + export_name_of(stamp)
}

/// The destination path of an export into `folder`, stamped with `stamp`.
pub fn export_path(folder: &String, stamp: u64) -> (r: String)
    ensures
        r@ == export_path_of(folder@, stamp),
{
    let mut s = folder.clone().concat("/").concat("CrownixVault_backup_");
    s.append(u64_to_decimal(stamp).as_str());
    s.append(".cxv");
    proof {
        assert(s@ =~= export_path_of(folder@, stamp));
    }
    s
}

/// Whether a file name carries the vault extension: at least one character
/// of stem, then `.cxv`.
pub open spec fn is_vault_name(name: Seq<char>) -> bool {
    name.len() >= 5 && name.subrange(name.len() - 4, name.len() as int) == ".cxv"@
}

/// How many of `names` carry the vault extension.
pub open spec fn vault_name_count(names: Seq<Seq<char>>) -> nat
    decreases names.len(),
{
    if names.len() == 0 {
        0
    } else {
        vault_name_count(names.drop_last()) + (if is_vault_name(names.last()) {
            1nat
        } else {
            0nat
        })
    }
}

fn name_has_vault_ext(name: &String) -> (r: bool)
    ensures
        r == is_vault_name(name@),
{
    let s = name.as_str();
    let n = s.unicode_len();
    if n < 5 {
        return false;
    }
    let c1 = s.get_char(n - 4);
    let c2 = s.get_char(n - 3);
    let c3 = s.get_char(n - 2);
    let c4 = s.get_char(n - 1);
    let r = c1 == '.' && c2 == 'c' && c3 == 'x' && c4 == 'v';
    proof {
        reveal_strlit(".cxv");
        let v = name@;
        let sub = v.subrange(v.len() - 4, v.len() as int);
        assert(sub[0] == c1 && sub[1] == c2 && sub[2] == c3 && sub[3] == c4);
        if r {
            assert(sub =~= ".cxv"@);
        }
    }
    r
}

/// Counts the file names in `names` that carry the vault extension.
pub fn count_vault_names(names: &Vec<String>) -> (n: usize)
    ensures
        n == vault_name_count(names.deep_view()),
{
    let mut n: usize = 0;
    let mut i: usize = 0;
    while i < names.len()
        invariant
            i <= names@.len(),
            n <= i,
            n == vault_name_count(names.deep_view().take(i as int)),
        decreases names@.len() - i,
    {
        proof {
            assert(names.deep_view().take(i + 1 as int).drop_last() =~= names.deep_view().take(
                i as int,
            ));
            assert(names.deep_view().take(i + 1 as int).last() == name_view(names@[i as int]));
        }
        if name_has_vault_ext(&names[i]) {
            n = n + 1;
        }
        i += 1;
    }
    proof {
        assert(names.deep_view().take(names@.len() as int) =~= names.deep_view());
    }
    n
}

/// The view of one name, spelled out for proofs about `deep_view`.
spec fn name_view(s: String) -> Seq<char> {
    s@
}

} // verus!
