use zapret_core::manifest::default_manifest;
use zapret_core::manifest::Asset;
use zapret_core::manifest::AssetCategory;
use zapret_core::manifest::BINARIES;
use zapret_core::manifest::FAKE_FILES;
use zapret_core::manifest::FILTERS;
use zapret_core::manifest::LISTS;

#[test]
fn only_binaries_are_hash_checked() {
    assert!(AssetCategory::Binary.track_hash());
    assert!(!AssetCategory::AuxiliaryData.track_hash());
    assert!(!AssetCategory::RuleList.track_hash());
    assert!(!AssetCategory::FilterFragment.track_hash());
    assert!(Asset::direct("a", "u", AssetCategory::Binary).track_hash());
    assert!(!Asset::under("u", "a", AssetCategory::RuleList).track_hash());
}

#[test]
fn asset_under_a_base_address_is_fetched_from_base_slash_name() {
    let asset = Asset::under("https://example.org/fake", "stun.bin", AssetCategory::AuxiliaryData);
    assert_eq!(asset.name, "stun.bin");
    assert_eq!(asset.source_url, "https://example.org/fake/stun.bin");
    assert_eq!(asset.category, AssetCategory::AuxiliaryData);
}

#[test]
fn asset_with_its_own_address_keeps_it() {
    let asset = Asset::direct("winws.exe", "https://example.org/w", AssetCategory::Binary);
    assert_eq!(asset.name, "winws.exe");
    assert_eq!(asset.source_url, "https://example.org/w");
    let copy = asset.clone();
    assert_eq!(copy.name, "winws.exe");
    assert_eq!(copy.source_url, "https://example.org/w");
    assert_eq!(copy.category, AssetCategory::Binary);
}

#[test]
fn manifest_lists_binaries_then_data_then_lists_then_filters() {
    let manifest = default_manifest();
    assert_eq!(manifest.len(), 4 + 36 + 3 + 5);
    assert_eq!(BINARIES.len() + FAKE_FILES.len() + LISTS.len() + FILTERS.len(), manifest.len());
    for (i, asset) in manifest.iter().enumerate() {
        let expected = if i < 4 {
            AssetCategory::Binary
        } else if i < 40 {
            AssetCategory::AuxiliaryData
        } else if i < 43 {
            AssetCategory::RuleList
        } else {
            AssetCategory::FilterFragment
        };
        assert_eq!(asset.category, expected, "{}", asset.name);
    }
}

#[test]
fn manifest_binaries_come_from_the_bundle() {
    let manifest = default_manifest();
    let names: Vec<&str> = manifest[..4].iter().map(|a| a.name.as_str()).collect();
    assert_eq!(names, vec!["WinDivert.dll", "WinDivert64.sys", "winws.exe", "cygwin1.dll"]);
    assert_eq!(
        manifest[2].source_url,
        "https://github.com/bol-van/zapret-win-bundle/raw/refs/heads/master/zapret-winws/winws.exe"
    );
    assert_eq!(
        manifest[0].source_url,
        "https://github.com/bol-van/zapret-win-bundle/raw/refs/heads/master/zapret-winws/WinDivert.dll"
    );
}

#[test]
fn manifest_files_come_from_under_their_base_address() {
    let manifest = default_manifest();
    assert_eq!(manifest[4].name, "4pda.bin");
    assert_eq!(
        manifest[4].source_url,
        "https://raw.githubusercontent.com/Noktomezo/ZIStorage/main/fake/4pda.bin"
    );
    assert_eq!(manifest[39].name, "zero_512.bin");
    assert_eq!(manifest[40].name, "zapret-hosts-google.txt");
    assert_eq!(
        manifest[42].source_url,
        "https://raw.githubusercontent.com/Noktomezo/ZIStorage/main/lists/zapret-ip-user.txt"
    );
    assert_eq!(manifest[43].name, "windivert_part.dht.txt");
    assert_eq!(
        manifest[47].source_url,
        "https://raw.githubusercontent.com/bol-van/zapret-win-bundle/master/zapret-winws/windivert.filter/windivert_part.wireguard.txt"
    );
}
