//! The scan: a search through every description record for a literal piece
//! of text.

use crate::layout::{data_dir, description_dir, join_text, make_roottree};
use crate::protocol::{
    failure_at, io_failure, texts, unexpected, unexpected_answer, Action, ActionView, Event,
    EventView, Failure, FailureKind, FailureView,
};
use crate::search::{contains, find, lemma_contains_empty, to_chars};
use vstd::prelude::*;
use vstd::string::*;

verus! {

/// A description record as a mathematical value.
pub struct EntryView {
    pub path: Seq<char>,
    pub text: Seq<char>,
}

/// A description record as it was read: where it is kept and what it holds.
#[derive(Debug, PartialEq, Eq)]
pub struct Entry {
    pub path: String,
    pub text: String,
}

impl View for Entry {
    type V = EntryView;

    open spec fn view(&self) -> EntryView {
        EntryView { path: self.path@, text: self.text@ }
    }
}

/// Each record as a mathematical value, in order.
pub open spec fn entry_views(entries: Seq<Entry>) -> Seq<EntryView> {
    entries.map_values(|entry: Entry| entry@)
}

/// The test that a scan for `search` puts to a record: its text holds
/// `search` as a literal substring.
pub open spec fn holds(search: Seq<char>) -> spec_fn(EntryView) -> bool {
    |entry: EntryView| contains(entry.text, search)
}

/// The paths of the records that hold `search`, in the order of the records.
pub open spec fn matching_paths(entries: Seq<EntryView>, search: Seq<char>) -> Seq<Seq<char>> {
    entries.filter(holds(search)).map_values(|entry: EntryView| entry.path)
}

/// The line that reports a match.
pub open spec fn match_line(path: Seq<char>) -> Seq<char> {
    "match: "@ + path
}

/// The lines that report the matches, one for each path.
pub open spec fn match_lines(paths: Seq<Seq<char>>) -> Seq<Seq<char>> {
    paths.map_values(|path: Seq<char>| match_line(path))
}

/// The paths of the records whose text holds `search`, in the order of the
/// records: each record that holds it, and no other.
pub fn scan_entries(entries: &Vec<Entry>, search: &str) -> (found: Vec<String>)
    ensures
        texts(found@) == matching_paths(entry_views(entries@), search@),
{
    let needle = to_chars(search);
    let ghost all = entry_views(entries@);
    let mut found: Vec<String> = Vec::new();
    let mut i: usize = 0;
    assert(all.take(0).filter(holds(search@)) == Seq::<EntryView>::empty()) by {
        reveal(Seq::filter);
    }
    while i < entries.len()
        invariant
            i <= entries.len(),
            needle@ == search@,
            all == entry_views(entries@),
            texts(found@) == matching_paths(all.take(i as int), search@),
        decreases entries.len() - i,
    {
        let entry = &entries[i];
        let text = to_chars(entry.text.as_str());
        let ghost before = all.take(i as int);
        let ghost now = all.take(i + 1);
        proof {
            assert(now.drop_last() == before);
            assert(now.last() == entry@);
            reveal(Seq::filter);
        }
        if find(&text, &needle).is_some() {
            let ghost old_found = found@;
            found.push(entry.path.clone());
            assert(texts(found@) == texts(old_found).push(entry.path@));
            assert(matching_paths(now, search@) == matching_paths(before, search@).push(
                entry@.path,
            ));
        }
        i += 1;
    }
    assert(all.take(i as int) == all);
    found
}

/// The line that reports a match at `path`.
pub fn report_line(path: &str) -> (line: String)
    ensures
        line@ == match_line(path@),
{
    join_text("match: ", path)
}

/// The lines that report the matches at `paths`, one for each in order.
pub fn report_lines(paths: &Vec<String>) -> (lines: Vec<String>)
    ensures
        texts(lines@) == match_lines(texts(paths@)),
{
    let mut lines: Vec<String> = Vec::new();
    let mut i: usize = 0;
    while i < paths.len()
        invariant
            i <= paths.len(),
            texts(lines@) == match_lines(texts(paths@).take(i as int)),
        decreases paths.len() - i,
    {
        let ghost old_lines = lines@;
        lines.push(report_line(paths[i].as_str()));
        assert(texts(lines@) == texts(old_lines).push(match_line(paths@[i as int]@)));
        assert(match_lines(texts(paths@).take(i + 1)) == match_lines(
            texts(paths@).take(i as int),
        ).push(match_line(paths@[i as int]@)));
        i += 1;
    }
    assert(texts(paths@).take(i as int) == texts(paths@));
    lines
}

/// Some record kept at `path` holds `search`.
pub open spec fn held_at(entries: Seq<EntryView>, search: Seq<char>, path: Seq<char>) -> bool {
    exists|i: int|
        0 <= i < entries.len() && (#[trigger] entries[i]).path == path && contains(
            entries[i].text,
            search,
        )
}

/// A scan reports exactly the records that hold the text searched for: a
/// path is among those reported if and only if a record kept there holds
/// it.
pub proof fn lemma_scan_exact(entries: Seq<EntryView>, search: Seq<char>, path: Seq<char>)
    ensures
        matching_paths(entries, search).contains(path) <==> held_at(entries, search, path),
{
    let kept = entries.filter(holds(search));
    let paths = matching_paths(entries, search);
    if held_at(entries, search, path) {
        let i = choose|i: int|
            0 <= i < entries.len() && (#[trigger] entries[i]).path == path && contains(
                entries[i].text,
                search,
            );
        assert(holds(search)(entries[i]));
        entries.lemma_filter_contains(holds(search), i);
        let k = choose|k: int| 0 <= k < kept.len() && kept[k] == entries[i];
        assert(paths[k] == path);
    }
    if paths.contains(path) {
        let k = choose|k: int| 0 <= k < paths.len() && paths[k] == path;
        entries.lemma_filter_pred(holds(search), k);
        assert(kept.contains(kept[k]));
        entries.lemma_filter_contains_rev(holds(search), kept[k]);
        let i = choose|i: int| 0 <= i < entries.len() && entries[i] == kept[k];
        assert(entries[i].path == path && contains(entries[i].text, search));
    }
}

/// A record that holds the text searched for is reported, whatever else is
/// in the repository.
pub proof fn lemma_scan_finds(entries: Seq<EntryView>, search: Seq<char>, i: int)
    requires
        0 <= i < entries.len(),
        contains(entries[i].text, search),
    ensures
        matching_paths(entries, search).contains(entries[i].path),
{
    lemma_scan_exact(entries, search, entries[i].path);
}

/// A scan for the empty text reports every record.
pub proof fn lemma_scan_empty_search(entries: Seq<EntryView>)
    ensures
        matching_paths(entries, Seq::<char>::empty()) == entries.map_values(
            |entry: EntryView| entry.path,
        ),
    decreases entries.len(),
{
    let search = Seq::<char>::empty();
    reveal(Seq::filter);
    if entries.len() > 0 {
        lemma_scan_empty_search(entries.drop_last());
        lemma_contains_empty(entries.last().text);
        assert(entries.filter(holds(search)) == entries.drop_last().filter(holds(search)).push(
            entries.last(),
        ));
        assert(entries.drop_last().map_values(|entry: EntryView| entry.path).push(
            entries.last().path,
        ) == entries.map_values(|entry: EntryView| entry.path));
    }
}

/// Where a scan stands, as a mathematical value.
pub enum ScanStageView {
    MakingDataDir,
    MakingDescriptionDir,
    Listing,
    Reading { paths: Seq<Seq<char>>, entries: Seq<EntryView> },
    Reporting { matches: Seq<Seq<char>> },
    Finished,
    Failed { failure: FailureView },
}

/// A scan as a mathematical value: what it was started with and where it
/// stands.
pub struct ScanView {
    pub root: Seq<char>,
    pub search: Seq<char>,
    pub stage: ScanStageView,
}

/// Where a scan stands once `entries` of the records at `paths` have been
/// read: it reads on while a record is left, and reports when none is.
pub open spec fn scan_after_reading(
    paths: Seq<Seq<char>>,
    entries: Seq<EntryView>,
    search: Seq<char>,
) -> ScanStageView {
    if entries.len() < paths.len() {
        ScanStageView::Reading { paths, entries }
    } else {
        ScanStageView::Reporting { matches: matching_paths(entries, search) }
    }
}

/// What a scan asks of its driver in each stage.
pub open spec fn scan_action(scan: ScanView) -> ActionView {
    match scan.stage {
        ScanStageView::MakingDataDir => ActionView::CreateDirAll { path: data_dir(scan.root) },
        ScanStageView::MakingDescriptionDir => ActionView::CreateDirAll {
            path: description_dir(scan.root),
        },
        ScanStageView::Listing => ActionView::ListDir { path: description_dir(scan.root) },
        ScanStageView::Reading { paths, entries } => ActionView::ReadText {
            path: paths[entries.len() as int],
        },
        ScanStageView::Reporting { matches } => ActionView::Print { lines: match_lines(matches) },
        ScanStageView::Finished => ActionView::Finish,
        ScanStageView::Failed { failure } => ActionView::Fail { failure },
    }
}

/// The stage that a scan moves to when its driver answers `event`.
///
/// The two subtrees are made first, `data` before `description`. The
/// description directory is then listed and each entry read, in the order of
/// the listing. Any failure ends the scan at once, before anything is
/// reported; the matches are reported together once every record has been
/// read.
pub open spec fn scan_next_stage(scan: ScanView, event: EventView) -> ScanStageView {
    match scan.stage {
        ScanStageView::MakingDataDir => match event {
            EventView::Done => ScanStageView::MakingDescriptionDir,
            EventView::Failed { detail } => ScanStageView::Failed {
                failure: io_failure("could not make a root at "@, scan.root, detail),
            },
            _ => ScanStageView::Failed { failure: unexpected() },
        },
        ScanStageView::MakingDescriptionDir => match event {
            EventView::Done => ScanStageView::Listing,
            EventView::Failed { detail } => ScanStageView::Failed {
                failure: io_failure("could not make a root at "@, scan.root, detail),
            },
            _ => ScanStageView::Failed { failure: unexpected() },
        },
        ScanStageView::Listing => match event {
            EventView::Listed { paths } => scan_after_reading(paths, Seq::empty(), scan.search),
            EventView::Failed { detail } => ScanStageView::Failed {
                failure: io_failure(
                    "could not scan description dir at "@,
                    description_dir(scan.root),
                    detail,
                ),
            },
            _ => ScanStageView::Failed { failure: unexpected() },
        },
        ScanStageView::Reading { paths, entries } => match event {
            EventView::Text { text } => scan_after_reading(
                paths,
                entries.push(EntryView { path: paths[entries.len() as int], text }),
                scan.search,
            ),
            EventView::Failed { detail } => ScanStageView::Failed {
                failure: io_failure(
                    "could not scan description at "@,
                    paths[entries.len() as int],
                    detail,
                ),
            },
            _ => ScanStageView::Failed { failure: unexpected() },
        },
        ScanStageView::Reporting { matches } => match event {
            EventView::Done => ScanStageView::Finished,
            EventView::Failed { detail } => ScanStageView::Failed {
                failure: io_failure("could not report the matches"@, Seq::empty(), detail),
            },
            _ => ScanStageView::Failed { failure: unexpected() },
        },
        ScanStageView::Finished => ScanStageView::Finished,
        ScanStageView::Failed { failure } => ScanStageView::Failed { failure },
    }
}

/// The scan after its driver answered `event`.
pub open spec fn scan_step(scan: ScanView, event: EventView) -> ScanView {
    ScanView { root: scan.root, search: scan.search, stage: scan_next_stage(scan, event) }
}

/// The scan after its driver answered each of `events` in turn.
pub open spec fn scan_run(scan: ScanView, events: Seq<EventView>) -> ScanView
    decreases events.len(),
{
    if events.len() == 0 {
        scan
    } else {
        scan_step(scan_run(scan, events.drop_last()), events.last())
    }
}

enum ScanStage {
    MakingDataDir,
    MakingDescriptionDir,
    Listing,
    Reading { paths: Vec<String>, entries: Vec<Entry> },
    Reporting { matches: Vec<String> },
    Finished,
    Failed { failure: Failure },
}

impl View for ScanStage {
    type V = ScanStageView;

    closed spec fn view(&self) -> ScanStageView {
        match self {
            ScanStage::MakingDataDir => ScanStageView::MakingDataDir,
            ScanStage::MakingDescriptionDir => ScanStageView::MakingDescriptionDir,
            ScanStage::Listing => ScanStageView::Listing,
            ScanStage::Reading { paths, entries } => ScanStageView::Reading {
                paths: texts(paths@),
                entries: entry_views(entries@),
            },
            ScanStage::Reporting { matches } => ScanStageView::Reporting {
                matches: texts(matches@),
            },
            ScanStage::Finished => ScanStageView::Finished,
            ScanStage::Failed { failure } => ScanStageView::Failed { failure: failure@ },
        }
    }
}

/// A scan of one repository for one text, run step by step by a driver.
pub struct ScanWorkflow {
    root: String,
    search: String,
    stage: ScanStage,
}

impl View for ScanWorkflow {
    type V = ScanView;

    closed spec fn view(&self) -> ScanView {
        ScanView { root: self.root@, search: self.search@, stage: self.stage@ }
    }
}

/// Starts a scan of the repository at `root` for the records that hold
/// `search`.
pub fn run_scan(root: &str, search: &str) -> (scan: ScanWorkflow)
    ensures
        scan@ == (ScanView {
            root: root@,
            search: search@,
            stage: ScanStageView::MakingDataDir,
        }),
{
    ScanWorkflow {
        root: String::from_str(root),
        search: String::from_str(search),
        stage: ScanStage::MakingDataDir,
    }
}

/// The stage once `entries` of the records at `paths` have been read.
fn after_reading(paths: Vec<String>, entries: Vec<Entry>, search: &str) -> (stage: ScanStage)
    ensures
        stage@ == scan_after_reading(texts(paths@), entry_views(entries@), search@),
        stage matches ScanStage::Reading { paths: p, entries: e } ==> e.len() < p.len(),
{
    if entries.len() < paths.len() {
        ScanStage::Reading { paths, entries }
    } else {
        ScanStage::Reporting { matches: scan_entries(&entries, search) }
    }
}

impl ScanWorkflow {
    #[verifier::type_invariant]
    spec fn well_formed(&self) -> bool {
        match self.stage {
            ScanStage::Reading { paths, entries } => entries.len() < paths.len(),
            _ => true,
        }
    }

    /// What the driver is to do now.
    pub fn action(&self) -> (action: Action)
        ensures
            action@ == scan_action(self@),
    {
        proof {
            use_type_invariant(self);
        }
        match &self.stage {
            ScanStage::MakingDataDir => Action::CreateDirAll {
                path: join_text(self.root.as_str(), "/data"),
            },
            ScanStage::MakingDescriptionDir => Action::CreateDirAll {
                path: join_text(self.root.as_str(), "/description"),
            },
            ScanStage::Listing => Action::ListDir {
                path: join_text(self.root.as_str(), "/description"),
            },
            ScanStage::Reading { paths, entries } => Action::ReadText {
                path: paths[entries.len()].clone(),
            },
            ScanStage::Reporting { matches } => Action::Print { lines: report_lines(matches) },
            ScanStage::Finished => Action::Finish,
            ScanStage::Failed { failure } => Action::Fail { failure: failure.duplicate() },
        }
    }

    /// The scan after the driver answered `event` to its action.
    pub fn step(self, event: Event) -> (next: ScanWorkflow)
        ensures
            next@ == scan_step(self@, event@),
    {
        proof {
            use_type_invariant(&self);
        }
        let ScanWorkflow { root, search, stage } = self;
        let stage = match stage {
            ScanStage::MakingDataDir => match event {
                Event::Done => ScanStage::MakingDescriptionDir,
                Event::Failed { detail } => ScanStage::Failed {
                    failure: failure_at(
                        FailureKind::Io,
                        "could not make a root at ",
                        root.as_str(),
                        detail,
                    ),
                },
                _ => ScanStage::Failed { failure: unexpected_answer() },
            },
            ScanStage::MakingDescriptionDir => match event {
                Event::Done => ScanStage::Listing,
                Event::Failed { detail } => ScanStage::Failed {
                    failure: failure_at(
                        FailureKind::Io,
                        "could not make a root at ",
                        root.as_str(),
                        detail,
                    ),
                },
                _ => ScanStage::Failed { failure: unexpected_answer() },
            },
            ScanStage::Listing => match event {
                Event::Listed { paths } => {
                    let entries: Vec<Entry> = Vec::new();
                    assert(entry_views(entries@) == Seq::<EntryView>::empty());
                    after_reading(paths, entries, search.as_str())
                },
                Event::Failed { detail } => {
                    let tree = make_roottree(root.as_str());
                    ScanStage::Failed {
                        failure: failure_at(
                            FailureKind::Io,
                            "could not scan description dir at ",
                            tree.description_path(),
                            detail,
                        ),
                    }
                },
                _ => ScanStage::Failed { failure: unexpected_answer() },
            },
            ScanStage::Reading { paths, entries } => match event {
                Event::Text { text } => {
                    let mut entries = entries;
                    let ghost before = entries@;
                    let path = paths[entries.len()].clone();
                    entries.push(Entry { path, text });
                    assert(entry_views(entries@) == entry_views(before).push(
                        EntryView { path: texts(paths@)[before.len() as int], text: text@ },
                    ));
                    after_reading(paths, entries, search.as_str())
                },
                Event::Failed { detail } => {
                    assert(paths@[entries@.len() as int]@ == texts(paths@)[entries@.len() as int]);
                    ScanStage::Failed {
                        failure: failure_at(
                            FailureKind::Io,
                            "could not scan description at ",
                            paths[entries.len()].as_str(),
                            detail,
                        ),
                    }
                },
                _ => ScanStage::Failed { failure: unexpected_answer() },
            },
            ScanStage::Reporting { matches } => match event {
                Event::Done => ScanStage::Finished,
                Event::Failed { detail } => {
                    proof {
                        reveal_strlit("");
                        assert("could not report the matches"@ + ""@
                            == "could not report the matches"@ + Seq::<char>::empty());
                    }
                    ScanStage::Failed {
                        failure: failure_at(
                            FailureKind::Io,
                            "could not report the matches",
                            "",
                            detail,
                        ),
                    }
                },
                _ => ScanStage::Failed { failure: unexpected_answer() },
            },
            ScanStage::Finished => ScanStage::Finished,
            ScanStage::Failed { failure } => ScanStage::Failed { failure },
        };
        ScanWorkflow { root, search, stage }
    }
}

/// The same scan at another stage.
pub open spec fn scan_at_stage(scan: ScanView, stage: ScanStageView) -> ScanView {
    ScanView { root: scan.root, search: scan.search, stage }
}

/// The records kept at `paths` when the record at each path holds the text
/// at the same place of `contents`.
pub open spec fn records(paths: Seq<Seq<char>>, contents: Seq<Seq<char>>) -> Seq<EntryView> {
    Seq::new(paths.len(), |i: int| EntryView { path: paths[i], text: contents[i] })
}

/// The answers of a driver that listed `paths` and then read, record by
/// record, the first `count` of `contents`.
pub open spec fn reading_events(paths: Seq<Seq<char>>, contents: Seq<Seq<char>>, count: int)
    -> Seq<EventView> {
    seq![EventView::Listed { paths }] + contents.take(count).map_values(
        |text: Seq<char>| EventView::Text { text },
    )
}

/// A run over one more event is one more step.
pub proof fn lemma_scan_run_push(scan: ScanView, events: Seq<EventView>, event: EventView)
    ensures
        scan_run(scan, events.push(event)) == scan_step(scan_run(scan, events), event),
{
    assert(events.push(event).drop_last() == events);
}

/// Whatever its stage, a scan asks for no directory but the two subtrees of
/// its root: run any number of times on one root, it asks for the same two.
pub proof fn lemma_scan_makes_the_subtrees_only(scan: ScanView)
    ensures
        scan_action(scan) matches ActionView::CreateDirAll { path } ==> path == data_dir(
            scan.root,
        ) || path == description_dir(scan.root),
{
}

/// A scan makes sure of the two subtrees before it looks into them, `data`
/// before `description`, and then lists the description records.
pub proof fn lemma_scan_makes_root_first(scan: ScanView)
    requires
        scan.stage is MakingDataDir,
    ensures
        ({
            let second = scan_step(scan, EventView::Done);
            let third = scan_step(second, EventView::Done);
            &&& scan_action(scan) == (ActionView::CreateDirAll { path: data_dir(scan.root) })
            &&& scan_action(second) == (ActionView::CreateDirAll {
                path: description_dir(scan.root),
            })
            &&& third == scan_at_stage(scan, ScanStageView::Listing)
            &&& scan_action(third) == (ActionView::ListDir { path: description_dir(scan.root) })
        }),
{
}

/// After the listing, a scan reads the records in the order of the listing
/// and keeps what it read.
pub proof fn lemma_scan_reads_in_order(
    scan: ScanView,
    paths: Seq<Seq<char>>,
    contents: Seq<Seq<char>>,
    count: int,
)
    requires
        scan.stage is Listing,
        paths.len() == contents.len(),
        0 <= count <= paths.len(),
    ensures
        scan_run(scan, reading_events(paths, contents, count)) == scan_at_stage(
            scan,
            scan_after_reading(paths, records(paths, contents).take(count), scan.search),
        ),
    decreases count,
{
    let listed = EventView::Listed { paths };
    if count == 0 {
        assert(reading_events(paths, contents, 0) == Seq::<EventView>::empty().push(listed));
        lemma_scan_run_push(scan, Seq::empty(), listed);
        assert(records(paths, contents).take(0) == Seq::<EntryView>::empty());
    } else {
        let read = EventView::Text { text: contents[count - 1] };
        lemma_scan_reads_in_order(scan, paths, contents, count - 1);
        assert(reading_events(paths, contents, count) == reading_events(
            paths,
            contents,
            count - 1,
        ).push(read));
        lemma_scan_run_push(scan, reading_events(paths, contents, count - 1), read);
        assert(records(paths, contents).take(count) == records(paths, contents).take(
            count - 1,
        ).push(EntryView { path: paths[count - 1], text: contents[count - 1] }));
    }
}

/// A scan that listed and read every record reports exactly the records
/// that hold the text searched for, in the order of the listing: it asks
/// for one line to be printed for each of them, and for no other.
pub proof fn lemma_scan_reports_matches(
    scan: ScanView,
    paths: Seq<Seq<char>>,
    contents: Seq<Seq<char>>,
)
    requires
        scan.stage is Listing,
        paths.len() == contents.len(),
    ensures
        ({
            let end = scan_run(scan, reading_events(paths, contents, paths.len() as int));
            let matches = matching_paths(records(paths, contents), scan.search);
            &&& end == scan_at_stage(scan, ScanStageView::Reporting { matches })
            &&& scan_action(end) == (ActionView::Print { lines: match_lines(matches) })
            &&& scan_step(end, EventView::Done) == scan_at_stage(scan, ScanStageView::Finished)
        }),
{
    lemma_scan_reads_in_order(scan, paths, contents, paths.len() as int);
    assert(records(paths, contents).take(paths.len() as int) == records(paths, contents));
}

/// Once a scan has ended, in success or in failure, no event moves it.
pub proof fn lemma_scan_halts(scan: ScanView, event: EventView)
    requires
        scan.stage is Finished || scan.stage is Failed,
    ensures
        scan_step(scan, event) == scan,
{
}

/// Any failure ends a scan at once, as a failure of the file system with
/// the driver's detail kept: one unreadable record ends the whole scan, and
/// nothing is reported.
pub proof fn lemma_scan_fails_fast(scan: ScanView, detail: Seq<char>)
    requires
        !(scan.stage is Finished),
        !(scan.stage is Failed),
    ensures
        scan_step(scan, EventView::Failed { detail }).stage matches ScanStageView::Failed {
            failure,
        } && failure.detail == detail && failure.kind == FailureKind::Io,
        !(scan_action(scan_step(scan, EventView::Failed { detail })) is Print),
{
}

/// Matches are reported at the end only: nothing is printed before every
/// record has been read.
pub proof fn lemma_scan_prints_last(scan: ScanView, event: EventView)
    ensures
        scan_action(scan) is Print <==> scan.stage is Reporting,
        scan.stage is Reporting ==> scan_step(scan, event).stage is Finished || scan_step(
            scan,
            event,
        ).stage is Failed,
{
}

} // verus!
