//! The hash ledger: for each hash-tracked asset, the digest that its file
//! had when it was last provisioned.

use crate::error::Failure;
use crate::error::FailureKind;
use crate::text::text_of;
use std::collections::HashMap;
use vstd::prelude::*;

verus! {

/// One line of the ledger.
#[derive(Debug)]
struct LedgerEntry {
    /// The asset's name.
    name: String,
    /// The digest recorded for it.
    digest: String,
}

/// A mapping from asset names to digests. No name occurs twice.
#[derive(Debug)]
pub struct Ledger {
    entries: Vec<LedgerEntry>,
}

/// `name` is the name of the entry of `entries` at index `at`.
spec fn names_entry(entries: Seq<LedgerEntry>, name: Seq<char>, at: int) -> bool {
    0 <= at < entries.len() && entries[at].name@ == name
}

impl View for Ledger {
    type V = Map<Seq<char>, Seq<char>>;

    closed spec fn view(&self) -> Map<Seq<char>, Seq<char>> {
        Map::new(
            |name: Seq<char>| exists|at: int| names_entry(self.entries@, name, at),
            |name: Seq<char>|
                self.entries@[choose|at: int| names_entry(self.entries@, name, at)].digest@,
        )
    }
}

impl Ledger {
    #[verifier::type_invariant]
    spec fn distinct_names(self) -> bool {
        forall|i: int, j: int|
            0 <= i < j < self.entries@.len() ==> self.entries@[i].name@ != self.entries@[j].name@
    }

    /// The ledger without any entry.
    pub fn new() -> (ledger: Ledger)
        ensures
            ledger@ == Map::<Seq<char>, Seq<char>>::empty(),
    {
        let ledger = Ledger { entries: Vec::new() };
        assert(ledger@ =~= Map::<Seq<char>, Seq<char>>::empty());
        ledger
    }

    fn position(&self, name: &str) -> (at: Option<usize>)
        ensures
            match at {
                Some(i) => names_entry(self.entries@, name@, i as int),
                None => forall|i: int| !names_entry(self.entries@, name@, i),
            },
    {
        let wanted = String::from_str(name);
        let mut i: usize = 0;
        while i < self.entries.len()
            invariant
                i <= self.entries@.len(),
                wanted@ == name@,
                forall|k: int| 0 <= k < i ==> self.entries@[k].name@ != name@,
            decreases self.entries@.len() - i,
        {
            if self.entries[i].name == wanted {
                return Some(i);
            }
            i += 1;
        }
        None
    }

    /// The digest recorded for `name`, if there is one.
    pub fn get(&self, name: &str) -> (digest: Option<&String>)
        ensures
            match digest {
                Some(d) => self@.contains_key(name@) && self@[name@] == d@,
                None => !self@.contains_key(name@),
            },
    {
        proof {
            use_type_invariant(self);
        }
        match self.position(name) {
            Some(i) => {
                proof {
                    let chosen = choose|at: int| names_entry(self.entries@, name@, at);
                    assert(names_entry(self.entries@, name@, chosen));
                    assert(chosen == i);
                }
                Some(&self.entries[i].digest)
            },
            None => None,
        }
    }

    /// Tells whether the ledger has no entry.
    pub fn is_empty(&self) -> (r: bool)
        ensures
            r == (self@ == Map::<Seq<char>, Seq<char>>::empty()),
    {
        let r = self.entries.len() == 0;
        proof {
            if r {
                assert(self@ =~= Map::<Seq<char>, Seq<char>>::empty());
            } else {
                assert(names_entry(self.entries@, self.entries@[0].name@, 0));
                assert(self@.contains_key(self.entries@[0].name@));
            }
        }
        r
    }

    /// Tells whether a digest is recorded for `name`.
    pub fn contains(&self, name: &str) -> (r: bool)
        ensures
            r == self@.contains_key(name@),
    {
        self.get(name).is_some()
    }

    /// Records `digest` for `name`, in place of what was recorded for it.
    pub fn insert(&mut self, name: String, digest: String)
        ensures
            final(self)@ == old(self)@.insert(name@, digest@),
    {
        proof {
            use_type_invariant(&*self);
        }
        let ghost before = self.entries@;
        let found = self.position(name.as_str());
        let ghost key = name@;
        let ghost value = digest@;
        let mut entries: Vec<LedgerEntry> = Vec::new();
        core::mem::swap(&mut self.entries, &mut entries);
        match found {
            Some(i) => {
                entries.set(i, LedgerEntry { name, digest });
            },
            None => {
                entries.push(LedgerEntry { name, digest });
            },
        }
        assert forall|i: int, j: int| 0 <= i < j < entries@.len() implies entries@[i].name@
            != entries@[j].name@ by {
            match found {
                Some(at) => {
                    assert(names_entry(before, key, at as int));
                    assert(entries@[i].name@ == before[i].name@);
                    assert(entries@[j].name@ == before[j].name@);
                },
                None => {
                    if j == before.len() {
                        assert(!names_entry(before, key, i));
                    }
                },
            }
        }
        self.entries = entries;
        proof {
            let after = self.entries@;
            let at: int = match found {
                Some(i) => i as int,
                None => before.len() as int,
            };
            assert(names_entry(after, key, at));
            assert forall|other: Seq<char>, k: int| other != key implies (names_entry(
                before,
                other,
                k,
            ) <==> names_entry(after, other, k)) by {}
            assert forall|other: Seq<char>|
                #[trigger] self@.contains_key(other) <==> (other == key || old(self)@.contains_key(
                    other,
                )) by {
                if other != key {
                    if old(self)@.contains_key(other) {
                        let k = choose|k: int| names_entry(before, other, k);
                        assert(names_entry(after, other, k));
                    }
                    if self@.contains_key(other) {
                        let k = choose|k: int| names_entry(after, other, k);
                        assert(names_entry(before, other, k));
                    }
                }
            }
            assert forall|other: Seq<char>| self@.contains_key(other) implies #[trigger] self@[other]
                == old(self)@.insert(key, value)[other] by {
                let k = choose|k: int| names_entry(after, other, k);
                if other == key {
                    assert(k == at);
                } else {
                    assert(names_entry(before, other, k));
                    let k0 = choose|k0: int| names_entry(before, other, k0);
                    assert(k0 == k);
                }
            }
            assert(self@ =~= old(self)@.insert(key, value));
        }
    }

    /// Tells whether `other` records the same digests for the same names.
    pub fn same_as(&self, other: &Ledger) -> (r: bool)
        ensures
            r == (self@ == other@),
    {
        let r = self.within(other) && other.within(self);
        proof {
            if r {
                assert(self@ =~= other@);
            }
        }
        r
    }

    fn within(&self, other: &Ledger) -> (r: bool)
        ensures
            r == self@.submap_of(other@),
    {
        proof {
            use_type_invariant(self);
        }
        let mut i: usize = 0;
        while i < self.entries.len()
            invariant
                i <= self.entries@.len(),
                self.distinct_names(),
                forall|k: int|
                    0 <= k < i ==> {
                        &&& other@.contains_key(#[trigger] self.entries@[k].name@)
                        &&& other@[self.entries@[k].name@] == self.entries@[k].digest@
                    },
            decreases self.entries@.len() - i,
        {
            let entry = &self.entries[i];
            proof {
                self.lemma_entry(i as int);
            }
            match other.get(entry.name.as_str()) {
                Some(d) => {
                    if *d != entry.digest {
                        return false;
                    }
                },
                None => {
                    return false;
                },
            }
            i += 1;
        }
        proof {
            assert forall|name: Seq<char>| #[trigger] self@.contains_key(name) implies {
                &&& other@.contains_key(name)
                &&& self@[name] == other@[name]
            } by {
                let k = choose|k: int| names_entry(self.entries@, name, k);
                self.lemma_entry(k);
            }
        }
        true
    }

    proof fn lemma_entry(self, at: int)
        requires
            self.distinct_names(),
            0 <= at < self.entries@.len(),
        ensures
            self@.contains_key(self.entries@[at].name@),
            self@[self.entries@[at].name@] == self.entries@[at].digest@,
    {
        let name = self.entries@[at].name@;
        assert(names_entry(self.entries@, name, at));
        let chosen = choose|k: int| names_entry(self.entries@, name, k);
        assert(chosen == at);
    }

    /// The ledger that holds the pairs of `pairs`, name first; of two pairs
    /// with one name the later counts.
    pub fn from_pairs(pairs: &Vec<(String, String)>) -> (ledger: Ledger)
        ensures
            ledger@ == pairs_map(pairs@),
    {
        let mut ledger = Ledger::new();
        let mut i: usize = 0;
        assert(pairs@.take(0) == Seq::<(String, String)>::empty());
        while i < pairs.len()
            invariant
                i <= pairs@.len(),
                ledger@ == pairs_map(pairs@.take(i as int)),
            decreases pairs@.len() - i,
        {
            let name = pairs[i].0.clone();
            let digest = pairs[i].1.clone();
            assert(pairs@.take(i + 1).drop_last() == pairs@.take(i as int));
            ledger.insert(name, digest);
            i += 1;
        }
        assert(pairs@.take(i as int) == pairs@);
        ledger
    }
}

impl Clone for Ledger {
    fn clone(&self) -> (copy: Self)
        ensures
            copy@ == self@,
    {
        proof {
            use_type_invariant(self);
        }
        let mut entries: Vec<LedgerEntry> = Vec::new();
        let mut i: usize = 0;
        while i < self.entries.len()
            invariant
                i <= self.entries@.len(),
                entries@ == self.entries@.take(i as int),
            decreases self.entries@.len() - i,
        {
            let entry = &self.entries[i];
            entries.push(LedgerEntry { name: entry.name.clone(), digest: entry.digest.clone() });
            assert(entries@ =~= self.entries@.take(i + 1));
            i += 1;
        }
        assert(entries@ == self.entries@);
        Ledger { entries }
    }
}

/// The mapping that a list of pairs writes down, name first; of two pairs
/// with one name the later counts.
pub open spec fn pairs_map(pairs: Seq<(String, String)>) -> Map<Seq<char>, Seq<char>>
    decreases pairs.len(),
{
    if pairs.len() == 0 {
        Map::empty()
    } else {
        pairs_map(pairs.drop_last()).insert(pairs.last().0@, pairs.last().1@)
    }
}

/// The error type of `serde_json`, taken as it is: nothing is known of its
/// values but what `json_error_text` hands out.
#[verifier::external_type_specification]
#[verifier::external_body]
pub struct ExJsonError(serde_json::Error);

/// What a ledger file with the text `text` holds: the mapping that the JSON
/// object in it writes down, from strings to strings, or `None` where the
/// text is no such object.
pub uninterp spec fn parsed_hashes(text: Seq<char>) -> Option<Map<Seq<char>, Seq<char>>>;

/// Reads the text of a ledger file.
///
/// Trusted: `serde_json::from_str` at the type `HashMap<String, String>`. The
/// contract names the mapping that it reads and says that the pairs handed
/// out are that mapping's.
#[verifier::external_body]
fn parse_hashes(text: &str) -> (r: Result<Vec<(String, String)>, serde_json::Error>)
    ensures
        match r {
            Ok(pairs) => parsed_hashes(text@) == Some(pairs_map(pairs@)),
            Err(_) => parsed_hashes(text@) is None,
        },
{
    serde_json::from_str::<HashMap<String, String>>(text).map(|m| m.into_iter().collect())
}

/// Writes a ledger as indented JSON.
///
/// Trusted: `serde_json::to_string_pretty` on a `HashMap<String, String>` with
/// the ledger's entries. Nothing is claimed of the text: the order of its
/// members follows the hash map's and differs from run to run.
#[verifier::external_body]
fn render_hashes(ledger: &Ledger) -> (r: Result<String, serde_json::Error>) {
    let map: HashMap<String, String> =
        ledger.entries.iter().map(|e| (e.name.clone(), e.digest.clone())).collect();
    serde_json::to_string_pretty(&map)
}

/// The message of a JSON error.
///
/// Trusted: the `Display` of `serde_json::Error`, through `to_string`.
#[verifier::external_body]
fn json_error_text(error: &serde_json::Error) -> (text: String) {
    error.to_string()
}

/// What a ledger file holds, given its text, or `None` for a file that is
/// not there: the mapping written in it, and nothing where there is no file
/// or the text cannot be read as a ledger.
pub open spec fn stored_hashes(content: Option<Seq<char>>) -> Map<Seq<char>, Seq<char>> {
    match content {
        Some(text) => match parsed_hashes(text) {
            Some(hashes) => hashes,
            None => Map::empty(),
        },
        None => Map::empty(),
    }
}

/// Loads the ledger from the text of its file; `None` stands for a file that
/// is not there. A missing or unreadable ledger is an empty one.
pub fn load_stored_hashes(content: Option<&str>) -> (ledger: Ledger)
    ensures
        ledger@ == stored_hashes(text_of(content)),
{
    match content {
        Some(text) => match parse_hashes(text) {
            Ok(pairs) => Ledger::from_pairs(&pairs),
            Err(_) => Ledger::new(),
        },
        None => Ledger::new(),
    }
}

/// `reread` is a ledger with the entries of `ledger`.
pub open spec fn reads_back(ledger: Ledger, reread: Option<Ledger>) -> bool {
    reread matches Some(found) && found@ == ledger@
}

/// The text that stands for a failed check of a ledger text.
pub open spec fn unfaithful() -> Seq<char> {
    "the ledger does not read back as written"@
}

/// Decides on a text written for `ledger`, given what the text reads back
/// as: the text is good where it reads back as the same ledger, and a
/// failure in every other case.
pub fn confirm_written(ledger: &Ledger, text: String, reread: Option<Ledger>) -> (r: Result<
    String,
    Failure,
>)
    ensures
        match r {
            Ok(good) => good == text && reads_back(*ledger, reread),
            Err(failure) => failure@ == (FailureKind::Io, unfaithful()) && !reads_back(
                *ledger,
                reread,
            ),
        },
{
    let faithful = match &reread {
        Some(found) => ledger.same_as(found),
        None => false,
    };
    if faithful {
        Ok(text)
    } else {
        Err(
            Failure::new(
                FailureKind::Io,
                String::from_str("the ledger does not read back as written"),
            ),
        )
    }
}

/// The text to write to the ledger's file. It is read back before it is
/// handed out, so whatever comes back as a text holds exactly this ledger.
pub fn save_stored_hashes(ledger: &Ledger) -> (r: Result<String, Failure>)
    ensures
        match r {
            Ok(text) => parsed_hashes(text@) == Some(ledger@),
            Err(failure) => failure.kind == FailureKind::Io,
        },
{
    match render_hashes(ledger) {
        Ok(text) => {
            let reread = match parse_hashes(text.as_str()) {
                Ok(pairs) => Some(Ledger::from_pairs(&pairs)),
                Err(_) => None,
            };
            confirm_written(ledger, text, reread)
        },
        Err(error) => Err(Failure::new(FailureKind::Io, json_error_text(&error))),
    }
}

} // verus!
