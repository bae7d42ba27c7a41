//! The assets that the worker needs: what they are called, where they come
//! from and which of them are hash-tracked.

use crate::text::joined;
use vstd::prelude::*;

verus! {

/// The four kinds of asset, in the order in which they are provisioned.
#[derive(Clone, Copy, Debug, PartialEq, Eq, Structural)]
pub enum AssetCategory {
    /// An executable or a library of the worker. Hash-tracked.
    Binary,
    /// A data file that the worker reads.
    AuxiliaryData,
    /// A list of hosts or addresses.
    RuleList,
    /// A part of the packet filter.
    FilterFragment,
}

impl AssetCategory {
    /// Files of this category are checked against the hash ledger.
    pub open spec fn hash_checked(self) -> bool {
        self is Binary
    }

    /// Tells whether files of this category are checked against the hash
    /// ledger.
    pub fn track_hash(self) -> (r: bool)
        ensures
            r == self.hash_checked(),
    {
        match self {
            AssetCategory::Binary => true,
            _ => false,
        }
    }
}

/// A file that has to be present for the worker to run.
#[derive(Debug)]
pub struct Asset {
    /// The file's name, which identifies the asset within its category.
    pub name: String,
    /// Where the file is fetched from.
    pub source_url: String,
    /// The kind of asset, which also decides where the file is kept.
    pub category: AssetCategory,
}

/// An asset with its texts as sequences of characters.
pub struct AssetView {
    pub name: Seq<char>,
    pub source_url: Seq<char>,
    pub category: AssetCategory,
}

impl View for Asset {
    type V = AssetView;

    open spec fn view(&self) -> AssetView {
        AssetView { name: self.name@, source_url: self.source_url@, category: self.category }
    }
}

/// The views of a list of assets.
pub open spec fn asset_views(assets: Seq<Asset>) -> Seq<AssetView> {
    assets.map_values(|asset: Asset| asset@)
}

impl Clone for Asset {
    fn clone(&self) -> (copy: Self)
        ensures
            copy == *self,
    {
        Asset {
            name: self.name.clone(),
            source_url: self.source_url.clone(),
            category: self.category,
        }
    }
}

impl Asset {
    /// The asset is checked against the hash ledger.
    pub open spec fn hash_checked(self) -> bool {
        self.category.hash_checked()
    }

    /// Tells whether the asset is checked against the hash ledger.
    pub fn track_hash(&self) -> (r: bool)
        ensures
            r == self.hash_checked(),
    {
        self.category.track_hash()
    }

    /// An asset that is fetched from one address of its own.
    pub fn direct(name: &str, source_url: &str, category: AssetCategory) -> (asset: Asset)
        ensures
            asset.name@ == name@,
            asset.source_url@ == source_url@,
            asset.category == category,
    {
        Asset {
            name: String::from_str(name),
            source_url: String::from_str(source_url),
            category,
        }
    }

    /// An asset that is fetched from under a base address: from the base, a
    /// slash and the asset's name.
    pub fn under(base_url: &str, name: &str, category: AssetCategory) -> (asset: Asset)
        ensures
            asset.name@ == name@,
            asset.source_url@ == base_url@ + seq!['/'] + name@,
            asset.category == category,
    {
        let mut source_url = joined(base_url, "/");
        proof {
            reveal_strlit("/");
            assert("/"@ =~= seq!['/']);
        }
        source_url.append(name);
        Asset { name: String::from_str(name), source_url, category }
    }
}

/// The worker's executable and the libraries and the driver that it loads,
/// each with the address it is fetched from.
pub const BINARIES: [(&'static str, &'static str); 4] = [
    (
        "WinDivert.dll",
        "https://github.com/bol-van/zapret-win-bundle/raw/refs/heads/master/zapret-winws/WinDivert.dll",
    ),
    (
        "WinDivert64.sys",
        "https://github.com/bol-van/zapret-win-bundle/raw/refs/heads/master/zapret-winws/WinDivert64.sys",
    ),
    (
        "winws.exe",
        "https://github.com/bol-van/zapret-win-bundle/raw/refs/heads/master/zapret-winws/winws.exe",
    ),
    (
        "cygwin1.dll",
        "https://github.com/bol-van/zapret-win-bundle/raw/refs/heads/master/zapret-winws/cygwin1.dll",
    ),
];

/// Where the data files are fetched from.
pub const FAKE_FILES_BASE_URL: &'static str =
    "https://raw.githubusercontent.com/Noktomezo/ZIStorage/main/fake";

/// The data files.
pub const FAKE_FILES: [&'static str; 36] = [
    "4pda.bin",
    "dht_find_node.bin",
    "dht_get_peers.bin",
    "discord-ip-discovery-with-port.bin",
    "discord-ip-discovery-without-port.bin",
    "dtls_clienthello_w3_org.bin",
    "http_iana_org.bin",
    "isakmp_initiator_request.bin",
    "max.bin",
    "quic_initial_facebook_com.bin",
    "quic_initial_facebook_com_quiche.bin",
    "quic_initial_rr1---sn-xguxaxjvh-n8me_googlevideo_com_kyber_1.bin",
    "quic_initial_rr1---sn-xguxaxjvh-n8me_googlevideo_com_kyber_2.bin",
    "quic_initial_rr2---sn-gvnuxaxjvh-o8ge_googlevideo_com.bin",
    "quic_initial_rutracker_org.bin",
    "quic_initial_rutracker_org_kyber_1.bin",
    "quic_initial_rutracker_org_kyber_2.bin",
    "quic_initial_vk_com.bin",
    "quic_initial_www_google_com.bin",
    "quic_short_header.bin",
    "stun.bin",
    "t2.bin",
    "tls_clienthello_gosuslugi_ru.bin",
    "tls_clienthello_iana_org.bin",
    "tls_clienthello_max_ru.bin",
    "tls_clienthello_rutracker_org_kyber.bin",
    "tls_clienthello_sberbank_ru.bin",
    "tls_clienthello_vk_com.bin",
    "tls_clienthello_vk_com_kyber.bin",
    "tls_clienthello_www_google_com.bin",
    "tls_clienthello_www_onetrust_com.bin",
    "wireguard_initiation.bin",
    "wireguard_response.bin",
    "zero_1024.bin",
    "zero_256.bin",
    "zero_512.bin",
];

/// Where the rule lists are fetched from.
pub const LISTS_BASE_URL: &'static str =
    "https://raw.githubusercontent.com/Noktomezo/ZIStorage/main/lists";

/// The rule lists.
pub const LISTS: [&'static str; 3] = [
    "zapret-hosts-google.txt",
    "zapret-hosts-user-exclude.txt",
    "zapret-ip-user.txt",
];

/// Where the filter fragments are fetched from.
pub const FILTERS_BASE_URL: &'static str =
    "https://raw.githubusercontent.com/bol-van/zapret-win-bundle/master/zapret-winws/windivert.filter";

/// The filter fragments.
pub const FILTERS: [&'static str; 5] = [
    "windivert_part.dht.txt",
    "windivert_part.discord_media.txt",
    "windivert_part.quic_initial_ietf.txt",
    "windivert_part.stun.txt",
    "windivert_part.wireguard.txt",
];

/// The assets that are fetched each from an address of its own, as
/// `pairs` lists them, name first.
pub open spec fn direct_assets(
    pairs: Seq<(&'static str, &'static str)>,
    category: AssetCategory,
) -> Seq<AssetView> {
    pairs.map_values(
        |pair: (&'static str, &'static str)|
            AssetView { name: pair.0@, source_url: pair.1@, category },
    )
}

/// The assets with the names `names` that are fetched from under
/// `base_url`.
pub open spec fn assets_under(
    base_url: Seq<char>,
    names: Seq<&'static str>,
    category: AssetCategory,
) -> Seq<AssetView> {
    names.map_values(
        |name: &'static str|
            AssetView { name: name@, source_url: base_url + seq!['/'] + name@, category },
    )
}

/// The manifest: the binaries first, then the data files, the rule lists
/// and the filter fragments, each list in its own order.
pub open spec fn manifest() -> Seq<AssetView> {
    direct_assets(BINARIES@, AssetCategory::Binary) + assets_under(
        FAKE_FILES_BASE_URL@,
        FAKE_FILES@,
        AssetCategory::AuxiliaryData,
    ) + assets_under(LISTS_BASE_URL@, LISTS@, AssetCategory::RuleList) + assets_under(
        FILTERS_BASE_URL@,
        FILTERS@,
        AssetCategory::FilterFragment,
    )
}

fn add_under(
    assets: &mut Vec<Asset>,
    base_url: &'static str,
    names: &[&'static str],
    category: AssetCategory,
)
    ensures
        asset_views(final(assets)@) == asset_views(old(assets)@) + assets_under(
            base_url@,
            names@,
            category,
        ),
{
    let ghost before = asset_views(assets@);
    let mut i: usize = 0;
    assert(asset_views(assets@) =~= before + assets_under(base_url@, names@.take(0), category));
    while i < names.len()
        invariant
            i <= names@.len(),
            asset_views(assets@) == before + assets_under(
                base_url@,
                names@.take(i as int),
                category,
            ),
        decreases names@.len() - i,
    {
        let ghost seen = asset_views(assets@);
        assets.push(Asset::under(base_url, names[i], category));
        assert(asset_views(assets@) =~= before + assets_under(
            base_url@,
            names@.take(i + 1),
            category,
        )) by {
            let now = asset_views(assets@);
            let want = before + assets_under(base_url@, names@.take(i + 1), category);
            assert(seen.len() == before.len() + names@.take(i as int).len());
            assert(now.len() == seen.len() + 1);
            assert(want.len() == before.len() + names@.take(i + 1).len());
            assert forall|k: int| 0 <= k < now.len() implies now[k] == want[k] by {
                if k < seen.len() {
                    assert(now[k] == seen[k]);
                }
            }
        }
        i += 1;
    }
    assert(names@.take(i as int) == names@);
}

/// The assets that the worker needs, in the order in which they are
/// provisioned.
pub fn default_manifest() -> (assets: Vec<Asset>)
    ensures
        asset_views(assets@) == manifest(),
{
    let mut assets: Vec<Asset> = Vec::new();
    let mut i: usize = 0;
    assert(asset_views(assets@) =~= direct_assets(BINARIES@.take(0), AssetCategory::Binary));
    while i < 4
        invariant
            i <= 4,
            asset_views(assets@) == direct_assets(BINARIES@.take(i as int), AssetCategory::Binary),
        decreases 4 - i,
    {
        let ghost seen = asset_views(assets@);
        let pair = BINARIES[i];
        assets.push(Asset::direct(pair.0, pair.1, AssetCategory::Binary));
        assert(asset_views(assets@) =~= direct_assets(
            BINARIES@.take(i + 1),
            AssetCategory::Binary,
        )) by {
            let now = asset_views(assets@);
            let want = direct_assets(BINARIES@.take(i + 1), AssetCategory::Binary);
            assert(seen.len() == BINARIES@.take(i as int).len());
            assert(now.len() == seen.len() + 1);
            assert(want.len() == BINARIES@.take(i + 1).len());
            assert forall|k: int| 0 <= k < now.len() implies now[k] == want[k] by {
                if k < seen.len() {
                    assert(now[k] == seen[k]);
                }
            }
        }
        i += 1;
    }
    assert(BINARIES@.take(4) == BINARIES@);
    add_under(&mut assets, FAKE_FILES_BASE_URL, FAKE_FILES.as_slice(), AssetCategory::AuxiliaryData);
    add_under(&mut assets, LISTS_BASE_URL, LISTS.as_slice(), AssetCategory::RuleList);
    add_under(&mut assets, FILTERS_BASE_URL, FILTERS.as_slice(), AssetCategory::FilterFragment);
    assets
}

} // verus!
