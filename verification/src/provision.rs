//! Provisioning: which assets have to be fetched, and whether everything is
//! in place, decided from what was observed on disk and from the ledger.

use crate::ledger::Ledger;
use crate::manifest::Asset;
use vstd::prelude::*;

verus! {

/// The ledger as a mapping from names to digests.
pub type Hashes = Map<Seq<char>, Seq<char>>;

/// What was found at an asset's destination.
#[derive(Debug)]
pub enum FileState {
    /// There is no file.
    Absent,
    /// There is a file. `digest` is the digest of its content, or `None`
    /// where the content was not hashed or could not be read.
    Present { digest: Option<String> },
}

/// An asset of the manifest together with the state of its file.
#[derive(Debug)]
pub struct Observation {
    /// The asset.
    pub asset: Asset,
    /// What was found at its destination.
    pub state: FileState,
}

/// The digest of the file of `asset` is needed to judge it: the asset is
/// hash-tracked and the ledger has an entry for it.
pub open spec fn digest_needed(asset: Asset, ledger: Hashes) -> bool {
    asset.hash_checked() && ledger.contains_key(asset.name@)
}

/// Tells whether the file of `asset`, if it exists, has to be hashed
/// before it can be judged.
pub fn needs_digest(asset: &Asset, ledger: &Ledger) -> (r: bool)
    ensures
        r == digest_needed(*asset, ledger@),
{
    asset.track_hash() && ledger.contains(asset.name.as_str())
}

impl Observation {
    /// The observation of `asset`: whether its file is there and, where it
    /// was hashed, the digest of its content.
    pub fn new(asset: Asset, present: bool, digest: Option<String>) -> (observation: Observation)
        ensures
            observation.asset == asset,
            present ==> observation.state == (FileState::Present { digest }),
            !present ==> observation.state == FileState::Absent,
    {
        let state = if present {
            FileState::Present { digest }
        } else {
            FileState::Absent
        };
        Observation { asset, state }
    }

    /// The file is there and its digest is known to be `digest`.
    pub open spec fn has_digest(self, digest: Seq<char>) -> bool {
        self.state matches FileState::Present { digest: Some(found) } && found@ == digest
    }

    /// The ledger has an entry for this hash-tracked asset, and the file is
    /// not known to have the digest recorded there.
    pub open spec fn stale(self, ledger: Hashes) -> bool {
        &&& self.asset.hash_checked()
        &&& ledger.contains_key(self.asset.name@)
        &&& !self.has_digest(ledger[self.asset.name@])
    }

    /// The asset has to be fetched: its file is absent, or it is stale.
    pub open spec fn needs_fetch(self, ledger: Hashes) -> bool {
        self.state is Absent || self.stale(ledger)
    }

    /// The asset is in place: its file exists and, where the asset is
    /// hash-tracked and the ledger has an entry for it, the file has the
    /// digest recorded there.
    pub open spec fn intact(self, ledger: Hashes) -> bool {
        &&& self.state is Present
        &&& self.asset.hash_checked() && ledger.contains_key(self.asset.name@)
            ==> self.has_digest(ledger[self.asset.name@])
    }

    /// Tells whether the asset has to be fetched.
    pub fn needs_download(&self, ledger: &Ledger) -> (r: bool)
        ensures
            r == self.needs_fetch(ledger@),
    {
        match &self.state {
            FileState::Absent => true,
            FileState::Present { digest } => {
                if !self.asset.track_hash() {
                    return false;
                }
                match ledger.get(self.asset.name.as_str()) {
                    Some(expected) => match digest {
                        Some(found) => *found != *expected,
                        None => true,
                    },
                    None => false,
                }
            },
        }
    }
}

/// The assets of `observed` that have to be fetched, in the order of
/// `observed`.
pub open spec fn planned(observed: Seq<Observation>, ledger: Hashes) -> Seq<Asset>
    decreases observed.len(),
{
    if observed.len() == 0 {
        Seq::empty()
    } else if observed.last().needs_fetch(ledger) {
        planned(observed.drop_last(), ledger).push(observed.last().asset)
    } else {
        planned(observed.drop_last(), ledger)
    }
}

/// Every asset of `observed` is in place.
pub open spec fn all_intact(observed: Seq<Observation>, ledger: Hashes) -> bool {
    forall|i: int| 0 <= i < observed.len() ==> (#[trigger] observed[i]).intact(ledger)
}

/// Plans a provisioning run: the batch of assets to fetch, in manifest
/// order.
pub fn plan_provisioning(observed: &Vec<Observation>, ledger: &Ledger) -> (batch: Vec<Asset>)
    ensures
        batch@ == planned(observed@, ledger@),
{
    let mut batch: Vec<Asset> = Vec::new();
    let mut i: usize = 0;
    assert(observed@.take(0) == Seq::<Observation>::empty());
    while i < observed.len()
        invariant
            i <= observed@.len(),
            batch@ == planned(observed@.take(i as int), ledger@),
        decreases observed@.len() - i,
    {
        assert(observed@.take(i + 1).drop_last() == observed@.take(i as int));
        if observed[i].needs_download(ledger) {
            batch.push(observed[i].asset.clone());
        }
        i += 1;
    }
    assert(observed@.take(i as int) == observed@);
    batch
}

/// Checks that every asset is in place. Reads only what it is given.
pub fn verify_binaries(observed: &Vec<Observation>, ledger: &Ledger) -> (ok: bool)
    ensures
        ok == all_intact(observed@, ledger@),
{
    let mut i: usize = 0;
    while i < observed.len()
        invariant
            i <= observed@.len(),
            forall|k: int| 0 <= k < i ==> (#[trigger] observed@[k]).intact(ledger@),
        decreases observed@.len() - i,
    {
        if observed[i].needs_download(ledger) {
            assert(!observed@[i as int].intact(ledger@));
            return false;
        }
        i += 1;
    }
    true
}

/// An asset is in place exactly when it does not have to be fetched.
pub proof fn lemma_intact_or_fetched(observation: Observation, ledger: Hashes)
    ensures
        observation.intact(ledger) <==> !observation.needs_fetch(ledger),
{
}

/// Everything is in place exactly when the plan is empty: where every asset
/// exists and no hash-tracked asset differs from its ledger entry, nothing
/// is fetched, and the other way round.
pub proof fn lemma_intact_means_empty_plan(observed: Seq<Observation>, ledger: Hashes)
    ensures
        all_intact(observed, ledger) <==> planned(observed, ledger).len() == 0,
    decreases observed.len(),
{
    if observed.len() > 0 {
        let front = observed.drop_last();
        lemma_intact_means_empty_plan(front, ledger);
        if all_intact(observed, ledger) {
            assert forall|i: int| 0 <= i < front.len() implies (#[trigger] front[i]).intact(
                ledger,
            ) by {
                assert(observed[i].intact(ledger));
            }
            assert(observed.last().intact(ledger));
        }
        if planned(observed, ledger).len() == 0 {
            assert forall|i: int| 0 <= i < observed.len() implies (#[trigger] observed[i]).intact(
                ledger,
            ) by {
                if i < front.len() {
                    assert(front[i].intact(ledger));
                }
            }
        }
    }
}

/// Two checks of the same observations against the same ledger give the
/// same answer.
pub proof fn lemma_verify_repeats(
    observed: Seq<Observation>,
    ledger: Hashes,
    first: bool,
    second: bool,
)
    requires
        first == all_intact(observed, ledger),
        second == all_intact(observed, ledger),
    ensures
        first == second,
{
}

} // verus!
