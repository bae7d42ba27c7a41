//! The run of a download batch as a state machine. The caller does what a
//! step asks for (fetch a file, write the ledger) and reports how it went;
//! the machine decides what follows and which progress events go out.

use crate::digest::calculate_sha256;
use crate::digest::content_digest;
use crate::error::Failure;
use crate::error::FailureKind;
use crate::ledger::Ledger;
use crate::manifest::Asset;
use crate::manifest::AssetCategory;
use crate::provision::Hashes;
use crate::text::joined;
use vstd::prelude::*;

verus! {

/// The user agent that every request names.
pub const USER_AGENT: &'static str = "Mozilla/5.0";

/// The time that one request may take in all, in seconds.
pub const FETCH_TIMEOUT_SECS: u64 = 120;

/// A progress event for the user interface.
#[derive(Debug)]
pub enum ProgressEvent {
    /// A batch of `total` files begins.
    BatchStart { total: usize },
    /// The file `name`, number `current` of `total`, is being fetched.
    ItemProgress { current: usize, total: usize, name: String, phase: AssetCategory },
    /// The batch has failed.
    BatchError { message: String },
    /// The batch is complete.
    BatchComplete,
}

/// A progress event with its texts as sequences of characters.
pub enum EventView {
    BatchStart { total: int },
    ItemProgress { current: int, total: int, name: Seq<char>, phase: AssetCategory },
    BatchError { message: Seq<char> },
    BatchComplete,
}

impl View for ProgressEvent {
    type V = EventView;

    open spec fn view(&self) -> EventView {
        match *self {
            ProgressEvent::BatchStart { total } => EventView::BatchStart { total: total as int },
            ProgressEvent::ItemProgress { current, total, name, phase } => EventView::ItemProgress {
                current: current as int,
                total: total as int,
                name: name@,
                phase,
            },
            ProgressEvent::BatchError { message } => EventView::BatchError { message: message@ },
            ProgressEvent::BatchComplete => EventView::BatchComplete,
        }
    }
}

impl AssetCategory {
    /// The phase of a batch that files of this category belong to, as the
    /// user interface names it.
    pub open spec fn phase(self) -> Seq<char> {
        match self {
            AssetCategory::Binary => "binaries"@,
            _ => "files"@,
        }
    }

    /// The phase of a batch that files of this category belong to, as the
    /// user interface names it.
    pub fn phase_label(self) -> (label: &'static str)
        ensures
            label@ == self.phase(),
    {
        match self {
            AssetCategory::Binary => "binaries",
            _ => "files",
        }
    }
}

/// The views of a list of events.
pub open spec fn event_views(events: Seq<ProgressEvent>) -> Seq<EventView> {
    events.map_values(|event: ProgressEvent| event@)
}

/// How the fetch of one file went.
#[derive(Debug)]
pub enum FetchOutcome {
    /// The file was fetched and written. The bytes are those now at its
    /// destination.
    Stored(Vec<u8>),
    /// The request could not be made or got no answer.
    Unreachable(String),
    /// The server answered with the given status, which is no success.
    Refused(String),
    /// The answer's body could not be read to its end.
    Truncated(String),
    /// The file could not be written.
    NotWritten(String),
    /// The file was written but could not be read back to be hashed.
    NotReadBack(String),
}

impl FetchOutcome {
    /// The failure that this outcome is for the file `name`, or `None` where
    /// the file was stored.
    pub open spec fn failure(self, name: Seq<char>) -> Option<(FailureKind, Seq<char>)> {
        match self {
            FetchOutcome::Stored(_) => None,
            FetchOutcome::Unreachable(error) => Some(
                (FailureKind::Network, "Failed to fetch "@ + name + ": "@ + error@),
            ),
            FetchOutcome::Refused(status) => Some(
                (FailureKind::Network, "Failed to download "@ + name + ": HTTP "@ + status@),
            ),
            FetchOutcome::Truncated(error) => Some(
                (FailureKind::Network, "Failed to read "@ + name + " body: "@ + error@),
            ),
            FetchOutcome::NotWritten(error) => Some(
                (FailureKind::Io, "Failed to write "@ + name + ": "@ + error@),
            ),
            FetchOutcome::NotReadBack(error) => Some((FailureKind::Io, error@)),
        }
    }

    /// The failure is announced with an error event: so is every failure
    /// of the transfer, be it that no answer came, that the answer was no
    /// success or that its body could not be read to its end.
    pub open spec fn announced(self) -> bool {
        self is Unreachable || self is Refused || self is Truncated
    }
}

/// The state of a run, as a mathematical value.
pub enum RunModel {
    /// The file `items[cursor]` is to be fetched next; `ledger` is the
    /// working ledger.
    Fetching { items: Seq<Asset>, cursor: int, ledger: Hashes },
    /// All `total` files are stored; `ledger` is to be written.
    Saving { ledger: Hashes, total: int },
    /// The run is over and `ledger` is the ledger on disk; `fetched` files
    /// were fetched.
    Complete { ledger: Hashes, fetched: int },
    /// The run was given up. Nothing was written to the ledger on disk.
    Failed { kind: FailureKind, message: Seq<char> },
}

/// What a transition gives: the events to send, and the state that follows.
pub struct StepModel {
    pub events: Seq<EventView>,
    pub next: RunModel,
}

/// The event that announces the file `items[at]`.
pub open spec fn item_event(items: Seq<Asset>, at: int) -> EventView {
    EventView::ItemProgress {
        current: at + 1,
        total: items.len() as int,
        name: items[at].name@,
        phase: items[at].category,
    }
}

/// The start of a run. An empty batch is complete at once, with the ledger
/// as it was given and nothing to write.
pub open spec fn begin_model(items: Seq<Asset>, ledger: Hashes) -> StepModel {
    if items.len() == 0 {
        StepModel {
            events: seq![EventView::BatchComplete],
            next: RunModel::Complete { ledger, fetched: 0 },
        }
    } else {
        StepModel {
            events: seq![EventView::BatchStart { total: items.len() as int }, item_event(items, 0)],
            next: RunModel::Fetching { items, cursor: 0, ledger },
        }
    }
}

/// The working ledger after the file of `asset` was stored with the content
/// `content`: a hash-tracked asset gets the digest of the content recorded.
pub open spec fn recorded(ledger: Hashes, asset: Asset, content: Seq<u8>) -> Hashes {
    if asset.hash_checked() {
        ledger.insert(asset.name@, content_digest(content))
    } else {
        ledger
    }
}

/// The transition on the outcome of fetching `items[cursor]`. A failure
/// ends the run at once. A stored file leads to the next file, or after the
/// last file to the writing of the ledger.
pub open spec fn fetched_model(
    items: Seq<Asset>,
    cursor: int,
    ledger: Hashes,
    outcome: FetchOutcome,
) -> StepModel {
    match outcome {
        FetchOutcome::Stored(content) => {
            let ledger = recorded(ledger, items[cursor], content@);
            if cursor + 1 < items.len() {
                StepModel {
                    events: seq![item_event(items, cursor + 1)],
                    next: RunModel::Fetching { items, cursor: cursor + 1, ledger },
                }
            } else {
                StepModel {
                    events: Seq::empty(),
                    next: RunModel::Saving { ledger, total: items.len() as int },
                }
            }
        },
        _ => {
            let (kind, message) = outcome.failure(items[cursor].name@)->0;
            StepModel {
                events: if outcome.announced() {
                    seq![EventView::BatchError { message }]
                } else {
                    Seq::empty()
                },
                next: RunModel::Failed { kind, message },
            }
        },
    }
}

/// The transition on the outcome of writing the ledger.
pub open spec fn saved_model(ledger: Hashes, total: int, written: Result<(), String>) -> StepModel {
    match written {
        Ok(_) => StepModel {
            events: seq![EventView::BatchComplete],
            next: RunModel::Complete { ledger, fetched: total },
        },
        Err(error) => StepModel {
            events: Seq::empty(),
            next: RunModel::Failed { kind: FailureKind::Io, message: error@ },
        },
    }
}

/// A run that waits for the outcome of a fetch.
#[derive(Debug)]
pub struct Fetching {
    items: Vec<Asset>,
    cursor: usize,
    ledger: Ledger,
}

/// A run that waits for the ledger to be written.
#[derive(Debug)]
pub struct Saving {
    ledger: Ledger,
    total: usize,
}

/// A run that is over.
#[derive(Debug)]
pub struct Completed {
    /// The ledger, as it now is on disk.
    pub ledger: Ledger,
    /// How many files were fetched.
    pub fetched: usize,
}

/// Where a run stands, and with it what the caller has to do next.
#[derive(Debug)]
pub enum Progress {
    /// Fetch the current file, then report the outcome.
    Fetch(Fetching),
    /// Write the ledger, then report the outcome.
    Save(Saving),
    /// Nothing: the run is over, well or not.
    Done(Result<Completed, Failure>),
}

/// The result of a transition.
#[derive(Debug)]
pub struct Step {
    /// The events to send, in this order, before anything else is done.
    pub events: Vec<ProgressEvent>,
    /// Where the run now stands.
    pub next: Progress,
}

impl Fetching {
    #[verifier::type_invariant]
    spec fn cursor_in_batch(self) -> bool {
        self.cursor < self.items@.len()
    }

    /// The state as a mathematical value.
    pub closed spec fn model(self) -> RunModel {
        RunModel::Fetching { items: self.items@, cursor: self.cursor as int, ledger: self.ledger@ }
    }

    /// The file to fetch.
    pub fn current(&self) -> (asset: &Asset)
        ensures
            self.model() matches RunModel::Fetching { items, cursor, .. } && 0 <= cursor
                < items.len() && *asset == items[cursor],
    {
        proof {
            use_type_invariant(self);
        }
        &self.items[self.cursor]
    }

    /// Takes the outcome of fetching the current file.
    pub fn record(self, outcome: FetchOutcome) -> (step: Step)
        ensures
            self.model() matches RunModel::Fetching { items, cursor, ledger } && step@
                == fetched_model(items, cursor, ledger, outcome),
    {
        proof {
            use_type_invariant(&self);
        }
        let Fetching { items, cursor, ledger } = self;
        let name = items[cursor].name.as_str();
        let failure = match &outcome {
            FetchOutcome::Stored(content) => {
                return stored(items, cursor, ledger, content);
            },
            FetchOutcome::Unreachable(error) => Failure::new(
                FailureKind::Network,
                described("Failed to fetch ", name, ": ", error.as_str()),
            ),
            FetchOutcome::Refused(status) => Failure::new(
                FailureKind::Network,
                described("Failed to download ", name, ": HTTP ", status.as_str()),
            ),
            FetchOutcome::Truncated(error) => Failure::new(
                FailureKind::Network,
                described("Failed to read ", name, " body: ", error.as_str()),
            ),
            FetchOutcome::NotWritten(error) => Failure::new(
                FailureKind::Io,
                described("Failed to write ", name, ": ", error.as_str()),
            ),
            FetchOutcome::NotReadBack(error) => Failure::new(FailureKind::Io, error.clone()),
        };
        let mut events: Vec<ProgressEvent> = Vec::new();
        match &outcome {
            FetchOutcome::Unreachable(_) | FetchOutcome::Refused(_) | FetchOutcome::Truncated(_) => {
                events.push(ProgressEvent::BatchError { message: failure.message.clone() });
            },
            _ => {},
        }
        let step = Step { events, next: Progress::Done(Err(failure)) };
        assert(step@.events =~= fetched_model(items@, cursor as int, ledger@, outcome).events);
        step
    }
}

fn described(prefix: &str, name: &str, middle: &str, detail: &str) -> (text: String)
    ensures
        text@ == prefix@ + name@ + middle@ + detail@,
{
    let mut text = joined(prefix, name);
    text.append(middle);
    text.append(detail);
    text
}

fn announce(items: &Vec<Asset>, at: usize) -> (event: ProgressEvent)
    requires
        at < items@.len(),
    ensures
        event@ == item_event(items@, at as int),
{
    let total: usize = items.len();
    ProgressEvent::ItemProgress {
        current: at + 1,
        total,
        name: items[at].name.clone(),
        phase: items[at].category,
    }
}

fn stored(items: Vec<Asset>, cursor: usize, ledger: Ledger, content: &Vec<u8>) -> (step: Step)
    requires
        cursor < items@.len(),
    ensures
        step@ == fetched_model(items@, cursor as int, ledger@, FetchOutcome::Stored(*content)),
{
    let ghost outcome = FetchOutcome::Stored(*content);
    let mut ledger = ledger;
    if items[cursor].track_hash() {
        ledger.insert(items[cursor].name.clone(), calculate_sha256(content.as_slice()));
    }
    let mut events: Vec<ProgressEvent> = Vec::new();
    let total: usize = items.len();
    let next = if cursor + 1 < total {
        events.push(announce(&items, cursor + 1));
        Progress::Fetch(Fetching { items, cursor: cursor + 1, ledger })
    } else {
        Progress::Save(Saving { ledger, total })
    };
    let step = Step { events, next };
    assert(step@.events =~= fetched_model(items@, cursor as int, ledger@, outcome).events);
    step
}

impl Saving {
    /// The state as a mathematical value.
    pub closed spec fn model(self) -> RunModel {
        RunModel::Saving { ledger: self.ledger@, total: self.total as int }
    }

    /// The ledger to write.
    pub fn ledger(&self) -> (ledger: &Ledger)
        ensures
            self.model() matches RunModel::Saving { ledger: hashes, .. } && ledger@ == hashes,
    {
        &self.ledger
    }

    /// Takes the outcome of writing the ledger.
    pub fn record(self, written: Result<(), String>) -> (step: Step)
        ensures
            self.model() matches RunModel::Saving { ledger, total } && step@ == saved_model(
                ledger,
                total,
                written,
            ),
    {
        let Saving { ledger, total } = self;
        let mut events: Vec<ProgressEvent> = Vec::new();
        let next = match written {
            Ok(_) => {
                events.push(ProgressEvent::BatchComplete);
                Progress::Done(Ok(Completed { ledger, fetched: total }))
            },
            Err(error) => Progress::Done(Err(Failure::new(FailureKind::Io, error))),
        };
        let step = Step { events, next };
        assert(step@.events =~= saved_model(ledger@, total as int, written).events);
        step
    }
}

impl View for Progress {
    type V = RunModel;

    open spec fn view(&self) -> RunModel {
        match *self {
            Progress::Fetch(run) => run.model(),
            Progress::Save(run) => run.model(),
            Progress::Done(Ok(done)) => RunModel::Complete {
                ledger: done.ledger@,
                fetched: done.fetched as int,
            },
            Progress::Done(Err(failure)) => RunModel::Failed {
                kind: failure.kind,
                message: failure.message@,
            },
        }
    }
}

impl View for Step {
    type V = StepModel;

    open spec fn view(&self) -> StepModel {
        StepModel { events: event_views(self.events@), next: self.next@ }
    }
}

/// Begins the run of `batch` with `ledger` as the working ledger.
pub fn download_binaries(batch: Vec<Asset>, ledger: Ledger) -> (step: Step)
    ensures
        step@ == begin_model(batch@, ledger@),
{
    let mut events: Vec<ProgressEvent> = Vec::new();
    let next = if batch.len() == 0 {
        events.push(ProgressEvent::BatchComplete);
        Progress::Done(Ok(Completed { ledger, fetched: 0 }))
    } else {
        events.push(ProgressEvent::BatchStart { total: batch.len() });
        events.push(announce(&batch, 0));
        Progress::Fetch(Fetching { items: batch, cursor: 0, ledger })
    };
    let step = Step { events, next };
    assert(step@.events =~= begin_model(batch@, ledger@).events);
    step
}

/// The state of a run of `items` after the fetch outcomes `outcomes` were
/// reported in turn. Once the run has left the fetching state, further
/// outcomes change nothing.
pub open spec fn after_fetches(
    items: Seq<Asset>,
    ledger: Hashes,
    outcomes: Seq<FetchOutcome>,
) -> RunModel
    decreases outcomes.len(),
{
    if outcomes.len() == 0 {
        begin_model(items, ledger).next
    } else {
        match after_fetches(items, ledger, outcomes.drop_last()) {
            RunModel::Fetching { items: batch, cursor, ledger: working } => fetched_model(
                batch,
                cursor,
                working,
                outcomes.last(),
            ).next,
            over => over,
        }
    }
}

/// The first `count` of `outcomes` all say that the file was stored.
pub open spec fn all_stored(outcomes: Seq<FetchOutcome>, count: int) -> bool {
    forall|i: int| 0 <= i < count && i < outcomes.len() ==> (#[trigger] outcomes[i]) is Stored
}

/// The working ledger after the first `count` files of `items` were stored
/// with the contents that `outcomes` report.
pub open spec fn recorded_all(
    ledger: Hashes,
    items: Seq<Asset>,
    outcomes: Seq<FetchOutcome>,
    count: int,
) -> Hashes
    decreases count,
{
    if count <= 0 {
        ledger
    } else {
        recorded(
            recorded_all(ledger, items, outcomes, count - 1),
            items[count - 1],
            outcomes[count - 1]->Stored_0@,
        )
    }
}

/// What each state of a run says of the outcomes that led to it.
pub proof fn lemma_run_states(items: Seq<Asset>, ledger: Hashes, outcomes: Seq<FetchOutcome>)
    ensures
        match after_fetches(items, ledger, outcomes) {
            RunModel::Fetching { items: batch, cursor, ledger: working } => {
                &&& batch == items
                &&& cursor == outcomes.len() < items.len()
                &&& all_stored(outcomes, cursor)
                &&& working == recorded_all(ledger, items, outcomes, cursor)
            },
            RunModel::Saving { ledger: working, total } => {
                &&& total == items.len()
                &&& 0 < items.len() <= outcomes.len()
                &&& all_stored(outcomes, total)
                &&& working == recorded_all(ledger, items, outcomes, total)
            },
            RunModel::Complete { ledger: working, fetched } => {
                &&& items.len() == 0
                &&& fetched == 0
                &&& working == ledger
            },
            RunModel::Failed { .. } => exists|k: int|
                0 <= k < outcomes.len() && k < items.len() && !((#[trigger] outcomes[k]) is Stored),
        },
    decreases outcomes.len(),
{
    if outcomes.len() > 0 {
        let front = outcomes.drop_last();
        lemma_run_states(items, ledger, front);
        match after_fetches(items, ledger, front) {
            RunModel::Fetching { items: batch, cursor, ledger: working } => {
                assert(outcomes[cursor] == outcomes.last());
                if outcomes.last() is Stored {
                    assert forall|i: int| 0 <= i < cursor + 1 && i < outcomes.len() implies (
                    #[trigger] outcomes[i]) is Stored by {
                        if i < cursor {
                            assert(front[i] is Stored);
                        }
                    }
                    lemma_recorded_all_front(ledger, items, outcomes, cursor);
                }
            },
            RunModel::Saving { total, .. } => {
                assert forall|i: int| 0 <= i < total && i < outcomes.len() implies (
                #[trigger] outcomes[i]) is Stored by {
                    assert(front[i] is Stored);
                }
                lemma_recorded_all_front(ledger, items, outcomes, total);
            },
            RunModel::Complete { .. } => {},
            RunModel::Failed { .. } => {
                let k = choose|k: int|
                    0 <= k < front.len() && k < items.len() && !((#[trigger] front[k]) is Stored);
                assert(outcomes[k] == front[k]);
            },
        }
    }
}

proof fn lemma_recorded_all_front(
    ledger: Hashes,
    items: Seq<Asset>,
    outcomes: Seq<FetchOutcome>,
    count: int,
)
    requires
        0 <= count < outcomes.len(),
    ensures
        recorded_all(ledger, items, outcomes.drop_last(), count) == recorded_all(
            ledger,
            items,
            outcomes,
            count,
        ),
    decreases count,
{
    if count > 0 {
        lemma_recorded_all_front(ledger, items, outcomes, count - 1);
        assert(outcomes.drop_last()[count - 1] == outcomes[count - 1]);
    }
}

/// No partial commit: where the fetch of one file of the batch fails, the
/// run ends as failed and at no point asks for the ledger to be written, so
/// the ledger on disk stays as it was.
pub proof fn lemma_failed_fetch_saves_nothing(
    items: Seq<Asset>,
    ledger: Hashes,
    outcomes: Seq<FetchOutcome>,
    failed: int,
)
    requires
        0 <= failed < outcomes.len(),
        failed < items.len(),
        !(outcomes[failed] is Stored),
    ensures
        after_fetches(items, ledger, outcomes) is Failed,
        forall|seen: int|
            0 <= seen <= outcomes.len() ==> !(#[trigger] after_fetches(
                items,
                ledger,
                outcomes.take(seen),
            ) is Saving),
{
    lemma_run_states(items, ledger, outcomes);
    assert forall|seen: int| 0 <= seen <= outcomes.len() implies !(#[trigger] after_fetches(
        items,
        ledger,
        outcomes.take(seen),
    ) is Saving) by {
        let part = outcomes.take(seen);
        lemma_run_states(items, ledger, part);
        if after_fetches(items, ledger, part) is Saving {
            assert(part[failed] == outcomes[failed]);
        }
    }
}

/// Where every file of a batch that is not empty is stored, the run asks
/// for the ledger to be written, with the digest of what was stored
/// recorded for each hash-tracked file.
pub proof fn lemma_stored_batch_is_saved(
    items: Seq<Asset>,
    ledger: Hashes,
    outcomes: Seq<FetchOutcome>,
)
    requires
        0 < items.len() == outcomes.len(),
        all_stored(outcomes, outcomes.len() as int),
    ensures
        after_fetches(items, ledger, outcomes) == (RunModel::Saving {
            ledger: recorded_all(ledger, items, outcomes, items.len() as int),
            total: items.len() as int,
        }),
{
    lemma_run_states(items, ledger, outcomes);
    match after_fetches(items, ledger, outcomes) {
        RunModel::Failed { .. } => {
            let k = choose|k: int|
                0 <= k < outcomes.len() && k < items.len() && !((#[trigger] outcomes[k]) is Stored);
            assert(outcomes[k] is Stored);
        },
        _ => {},
    }
}

/// What the working ledger holds once the first `count` files were stored:
/// for a hash-tracked file, the digest of its stored content, unless a
/// later file of the same name replaced it.
pub proof fn lemma_recorded_digest(
    ledger: Hashes,
    items: Seq<Asset>,
    outcomes: Seq<FetchOutcome>,
    count: int,
    at: int,
)
    requires
        0 <= at < count,
        items[at].hash_checked(),
        forall|later: int|
            at < later < count && (#[trigger] items[later]).hash_checked() ==> items[later].name@
                != items[at].name@,
    ensures
        recorded_all(ledger, items, outcomes, count).contains_key(items[at].name@),
        recorded_all(ledger, items, outcomes, count)[items[at].name@] == content_digest(
            outcomes[at]->Stored_0@,
        ),
    decreases count,
{
    if at < count - 1 {
        lemma_recorded_digest(ledger, items, outcomes, count - 1, at);
        assert(items[count - 1].hash_checked() ==> items[count - 1].name@ != items[at].name@);
    }
}

/// What the working ledger holds once the first `count` files were stored:
/// under any name that is not that of a hash-tracked file among them, what
/// it held before.
pub proof fn lemma_recorded_keeps(
    ledger: Hashes,
    items: Seq<Asset>,
    outcomes: Seq<FetchOutcome>,
    count: int,
    name: Seq<char>,
)
    requires
        forall|i: int|
            0 <= i < count && (#[trigger] items[i]).hash_checked() ==> items[i].name@ != name,
    ensures
        recorded_all(ledger, items, outcomes, count).contains_key(name) == ledger.contains_key(
            name,
        ),
        recorded_all(ledger, items, outcomes, count)[name] == ledger[name],
    decreases count,
{
    if count > 0 {
        lemma_recorded_keeps(ledger, items, outcomes, count - 1, name);
        assert(items[count - 1].hash_checked() ==> items[count - 1].name@ != name);
    }
}

/// Where every observed asset is in place, nothing is planned, and the run
/// of that plan is over at once: it fetches nothing, writes nothing and
/// hands the ledger back as it was.
pub proof fn lemma_intact_run_is_noop(
    observed: Seq<crate::provision::Observation>,
    ledger: Hashes,
)
    requires
        crate::provision::all_intact(observed, ledger),
    ensures
        crate::provision::planned(observed, ledger) == Seq::<Asset>::empty(),
        begin_model(crate::provision::planned(observed, ledger), ledger) == (StepModel {
            events: seq![EventView::BatchComplete],
            next: RunModel::Complete { ledger, fetched: 0 },
        }),
{
    crate::provision::lemma_intact_means_empty_plan(observed, ledger);
    assert(crate::provision::planned(observed, ledger) =~= Seq::<Asset>::empty());
}

} // verus!
