//! Adding a dataset: the file is fingerprinted, the repository's subtrees are
//! made, a description record is created unless there is one, the operator
//! edits the record, and the file is moved into the store.
//!
//! Adding content that is stored already is no failure. The record that is
//! there is kept and opened in the editor again, and the file is moved over
//! the payload of the same fingerprint: the workflow does not look whether a
//! payload is there before it asks for the move.

use crate::description::{format_tags, join_tags, render_template, tag_texts, template_text};
use crate::fingerprint::{md5_hex, Fingerprinter, CHUNK_SIZE};
use crate::layout::{
    data_dir, description_dir, make_roottree, payload_path, record_path, resolve, DataSet,
};
use crate::protocol::{
    failure_at, io_failure, unexpected, unexpected_answer, Action, ActionView, Event, EventView,
    Failure, FailureKind, FailureView,
};
use vstd::prelude::*;
use vstd::string::*;

verus! {

/// Where the adding of a dataset stands, as a mathematical value. From the
/// second stage on the fingerprint of the file is known.
pub enum AddStageView {
    Hashing { absorbed: Seq<u8> },
    MakingDataDir { hexmd5: Seq<char> },
    MakingDescriptionDir { hexmd5: Seq<char> },
    CreatingRecord { hexmd5: Seq<char> },
    WritingTemplate { hexmd5: Seq<char> },
    Editing { hexmd5: Seq<char> },
    Moving { hexmd5: Seq<char> },
    Finished { hexmd5: Seq<char> },
    Failed { failure: FailureView },
}

/// The adding of a dataset as a mathematical value: what it was started
/// with, the tags as one line, and where it stands.
pub struct AddView {
    pub root: Seq<char>,
    pub path: Seq<char>,
    pub tags: Seq<char>,
    pub stage: AddStageView,
}

/// The failure of a file that is longer than the digest can count.
pub open spec fn too_large(path: Seq<char>) -> FailureView {
    FailureView {
        kind: FailureKind::TooLarge,
        operation: "could not compute md5 at "@ + path,
        detail: Seq::empty(),
    }
}

/// The failure of the editor on the record at `path`.
pub open spec fn editor_failure(path: Seq<char>, detail: Seq<char>) -> FailureView {
    FailureView {
        kind: FailureKind::CollaboratorLaunch,
        operation: "failed to finish the editor on "@ + path,
        detail,
    }
}

/// What the adding of a dataset asks of its driver in each stage.
pub open spec fn add_action(add: AddView) -> ActionView {
    match add.stage {
        AddStageView::Hashing { absorbed } => ActionView::ReadChunk {
            path: add.path,
            limit: CHUNK_SIZE as nat,
        },
        AddStageView::MakingDataDir { hexmd5 } => ActionView::CreateDirAll {
            path: data_dir(add.root),
        },
        AddStageView::MakingDescriptionDir { hexmd5 } => ActionView::CreateDirAll {
            path: description_dir(add.root),
        },
        AddStageView::CreatingRecord { hexmd5 } => ActionView::CreateNew {
            path: record_path(add.root, hexmd5),
        },
        AddStageView::WritingTemplate { hexmd5 } => ActionView::Write {
            path: record_path(add.root, hexmd5),
            text: template_text(add.path, add.path, add.tags, hexmd5),
        },
        AddStageView::Editing { hexmd5 } => ActionView::Edit {
            path: record_path(add.root, hexmd5),
        },
        AddStageView::Moving { hexmd5 } => ActionView::Rename {
            from: add.path,
            to: payload_path(add.root, hexmd5),
        },
        AddStageView::Finished { hexmd5 } => ActionView::Finish,
        AddStageView::Failed { failure } => ActionView::Fail { failure },
    }
}

/// Reading the file: each chunk is absorbed after those before, and the chunk
/// without bytes, which marks the end of the file, makes the fingerprint.
pub open spec fn hashing_next(path: Seq<char>, absorbed: Seq<u8>, event: EventView)
    -> AddStageView {
    match event {
        EventView::Chunk { bytes } => if bytes.len() == 0 {
            AddStageView::MakingDataDir { hexmd5: md5_hex(absorbed) }
        } else if absorbed.len() + bytes.len() <= u64::MAX {
            AddStageView::Hashing { absorbed: absorbed + bytes }
        } else {
            AddStageView::Failed { failure: too_large(path) }
        },
        EventView::Failed { detail } => AddStageView::Failed {
            failure: io_failure("could not compute md5 at "@, path, detail),
        },
        _ => AddStageView::Failed { failure: unexpected() },
    }
}

/// Making one of the two subtrees of `root`: once it is there the work goes
/// on with `then`.
pub open spec fn root_next(root: Seq<char>, then: AddStageView, event: EventView)
    -> AddStageView {
    match event {
        EventView::Done => then,
        EventView::Failed { detail } => AddStageView::Failed {
            failure: io_failure("could not make a root at "@, root, detail),
        },
        _ => AddStageView::Failed { failure: unexpected() },
    }
}

/// Obtaining the description record at `record`. A record that was created
/// is filled with the template; one that was there is left as it is. The
/// editor is run on the record either way, and the work goes on when it
/// ended, whatever it ended with.
pub open spec fn description_next(record: Seq<char>, stage: AddStageView, event: EventView)
    -> AddStageView {
    match stage {
        AddStageView::CreatingRecord { hexmd5 } => match event {
            EventView::Done => AddStageView::WritingTemplate { hexmd5 },
            EventView::Exists => AddStageView::Editing { hexmd5 },
            EventView::Failed { detail } => AddStageView::Failed {
                failure: io_failure("could not create description at "@, record, detail),
            },
            _ => AddStageView::Failed { failure: unexpected() },
        },
        AddStageView::WritingTemplate { hexmd5 } => match event {
            EventView::Done => AddStageView::Editing { hexmd5 },
            EventView::Failed { detail } => AddStageView::Failed {
                failure: io_failure("could not write description at "@, record, detail),
            },
            _ => AddStageView::Failed { failure: unexpected() },
        },
        AddStageView::Editing { hexmd5 } => match event {
            EventView::Done => AddStageView::Moving { hexmd5 },
            EventView::Failed { detail } => AddStageView::Failed {
                failure: editor_failure(record, detail),
            },
            _ => AddStageView::Failed { failure: unexpected() },
        },
        _ => stage,
    }
}

/// Moving the file to `payload`: the last step, after which the work has
/// ended either way.
pub open spec fn moving_next(payload: Seq<char>, hexmd5: Seq<char>, event: EventView)
    -> AddStageView {
    match event {
        EventView::Done => AddStageView::Finished { hexmd5 },
        EventView::Failed { detail } => AddStageView::Failed {
            failure: io_failure("could not move file to "@, payload, detail),
        },
        _ => AddStageView::Failed { failure: unexpected() },
    }
}

/// The stage that the adding of a dataset moves to when its driver answers
/// `event`.
///
/// The file is read to its end and fingerprinted. The two subtrees are made,
/// `data` before `description`. The description record is obtained and
/// edited. Last, the file is moved to its place among the payloads. Any
/// failure ends the work at once: nothing is retried and nothing is undone.
pub open spec fn add_next_stage(add: AddView, event: EventView) -> AddStageView {
    match add.stage {
        AddStageView::Hashing { absorbed } => hashing_next(add.path, absorbed, event),
        AddStageView::MakingDataDir { hexmd5 } => root_next(
            add.root,
            AddStageView::MakingDescriptionDir { hexmd5 },
            event,
        ),
        AddStageView::MakingDescriptionDir { hexmd5 } => root_next(
            add.root,
            AddStageView::CreatingRecord { hexmd5 },
            event,
        ),
        AddStageView::CreatingRecord { hexmd5 } => description_next(
            record_path(add.root, hexmd5),
            add.stage,
            event,
        ),
        AddStageView::WritingTemplate { hexmd5 } => description_next(
            record_path(add.root, hexmd5),
            add.stage,
            event,
        ),
        AddStageView::Editing { hexmd5 } => description_next(
            record_path(add.root, hexmd5),
            add.stage,
            event,
        ),
        AddStageView::Moving { hexmd5 } => moving_next(
            payload_path(add.root, hexmd5),
            hexmd5,
            event,
        ),
        AddStageView::Finished { hexmd5 } => AddStageView::Finished { hexmd5 },
        AddStageView::Failed { failure } => AddStageView::Failed { failure },
    }
}

/// The adding of a dataset after its driver answered `event`.
pub open spec fn add_step(add: AddView, event: EventView) -> AddView {
    AddView { root: add.root, path: add.path, tags: add.tags, stage: add_next_stage(add, event) }
}

/// The adding of a dataset after its driver answered each of `events` in
/// turn.
pub open spec fn add_run(add: AddView, events: Seq<EventView>) -> AddView
    decreases events.len(),
{
    if events.len() == 0 {
        add
    } else {
        add_step(add_run(add, events.drop_last()), events.last())
    }
}

enum AddStage {
    Hashing { hasher: Fingerprinter },
    MakingDataDir { hexmd5: String },
    MakingDescriptionDir { hexmd5: String },
    CreatingRecord { hexmd5: String },
    WritingTemplate { hexmd5: String },
    Editing { hexmd5: String },
    Moving { hexmd5: String },
    Finished { hexmd5: String },
    Failed { failure: Failure },
}

impl View for AddStage {
    type V = AddStageView;

    closed spec fn view(&self) -> AddStageView {
        match self {
            AddStage::Hashing { hasher } => AddStageView::Hashing { absorbed: hasher@ },
            AddStage::MakingDataDir { hexmd5 } => AddStageView::MakingDataDir { hexmd5: hexmd5@ },
            AddStage::MakingDescriptionDir { hexmd5 } => AddStageView::MakingDescriptionDir {
                hexmd5: hexmd5@,
            },
            AddStage::CreatingRecord { hexmd5 } => AddStageView::CreatingRecord {
                hexmd5: hexmd5@,
            },
            AddStage::WritingTemplate { hexmd5 } => AddStageView::WritingTemplate {
                hexmd5: hexmd5@,
            },
            AddStage::Editing { hexmd5 } => AddStageView::Editing { hexmd5: hexmd5@ },
            AddStage::Moving { hexmd5 } => AddStageView::Moving { hexmd5: hexmd5@ },
            AddStage::Finished { hexmd5 } => AddStageView::Finished { hexmd5: hexmd5@ },
            AddStage::Failed { failure } => AddStageView::Failed { failure: failure@ },
        }
    }
}

/// The adding of one file to one repository, run step by step by a driver.
pub struct AddWorkflow {
    root: String,
    path: String,
    tags: String,
    stage: AddStage,
}

impl View for AddWorkflow {
    type V = AddView;

    closed spec fn view(&self) -> AddView {
        AddView { root: self.root@, path: self.path@, tags: self.tags@, stage: self.stage@ }
    }
}

/// Starts to add the file at `path`, described by `tags`, to the repository
/// at `root`. Nothing of the file has been read yet.
pub fn run_add(root: &str, path: &str, tags: Vec<&str>) -> (add: AddWorkflow)
    ensures
        add@ == (AddView {
            root: root@,
            path: path@,
            tags: join_tags(tag_texts(tags@)),
            stage: AddStageView::Hashing { absorbed: Seq::empty() },
        }),
{
    AddWorkflow {
        root: String::from_str(root),
        path: String::from_str(path),
        tags: format_tags(&tags),
        stage: AddStage::Hashing { hasher: Fingerprinter::new() },
    }
}

impl AddWorkflow {
    /// The fingerprint of the file, once the file has been read to its end.
    pub fn fingerprint(&self) -> (known: Option<String>)
        ensures
            match known {
                Some(hexmd5) => stage_fingerprint(self@.stage) == Some(hexmd5@),
                None => stage_fingerprint(self@.stage) is None,
            },
    {
        match &self.stage {
            AddStage::Hashing { hasher } => None,
            AddStage::MakingDataDir { hexmd5 } => Some(hexmd5.clone()),
            AddStage::MakingDescriptionDir { hexmd5 } => Some(hexmd5.clone()),
            AddStage::CreatingRecord { hexmd5 } => Some(hexmd5.clone()),
            AddStage::WritingTemplate { hexmd5 } => Some(hexmd5.clone()),
            AddStage::Editing { hexmd5 } => Some(hexmd5.clone()),
            AddStage::Moving { hexmd5 } => Some(hexmd5.clone()),
            AddStage::Finished { hexmd5 } => Some(hexmd5.clone()),
            AddStage::Failed { failure } => None,
        }
    }

    /// What the driver is to do now.
    pub fn action(&self) -> (action: Action)
        ensures
            action@ == add_action(self@),
    {
        match &self.stage {
            AddStage::Hashing { hasher } => Action::ReadChunk {
                path: self.path.clone(),
                limit: CHUNK_SIZE,
            },
            AddStage::MakingDataDir { hexmd5 } => Action::CreateDirAll {
                path: String::from_str(make_roottree(self.root.as_str()).data_path()),
            },
            AddStage::MakingDescriptionDir { hexmd5 } => Action::CreateDirAll {
                path: String::from_str(make_roottree(self.root.as_str()).description_path()),
            },
            AddStage::CreatingRecord { hexmd5 } => Action::CreateNew {
                path: String::from_str(
                    resolve(self.root.as_str(), hexmd5.as_str()).description_path(),
                ),
            },
            AddStage::WritingTemplate { hexmd5 } => Action::Write {
                path: String::from_str(
                    resolve(self.root.as_str(), hexmd5.as_str()).description_path(),
                ),
                text: render_template(
                    self.path.as_str(),
                    self.path.as_str(),
                    self.tags.as_str(),
                    hexmd5.as_str(),
                ),
            },
            AddStage::Editing { hexmd5 } => Action::Edit {
                path: String::from_str(
                    resolve(self.root.as_str(), hexmd5.as_str()).description_path(),
                ),
            },
            AddStage::Moving { hexmd5 } => Action::Rename {
                from: self.path.clone(),
                to: String::from_str(resolve(self.root.as_str(), hexmd5.as_str()).data_path()),
            },
            AddStage::Finished { hexmd5 } => Action::Finish,
            AddStage::Failed { failure } => Action::Fail { failure: failure.duplicate() },
        }
    }

    /// The work after the driver answered `event` to its action.
    pub fn step(self, event: Event) -> (next: AddWorkflow)
        ensures
            next@ == add_step(self@, event@),
    {
        let AddWorkflow { root, path, tags, stage } = self;
        let stage = match stage {
            AddStage::Hashing { hasher } => hash_chunk(hasher, event, path.as_str()),
            AddStage::MakingDataDir { hexmd5 } => make_subtree(
                root.as_str(),
                AddStage::MakingDescriptionDir { hexmd5 },
                event,
            ),
            AddStage::MakingDescriptionDir { hexmd5 } => make_subtree(
                root.as_str(),
                AddStage::CreatingRecord { hexmd5 },
                event,
            ),
            AddStage::CreatingRecord { hexmd5 } => {
                let set = resolve(root.as_str(), hexmd5.as_str());
                edit_description(&set, AddStage::CreatingRecord { hexmd5 }, event)
            },
            AddStage::WritingTemplate { hexmd5 } => {
                let set = resolve(root.as_str(), hexmd5.as_str());
                edit_description(&set, AddStage::WritingTemplate { hexmd5 }, event)
            },
            AddStage::Editing { hexmd5 } => {
                let set = resolve(root.as_str(), hexmd5.as_str());
                edit_description(&set, AddStage::Editing { hexmd5 }, event)
            },
            AddStage::Moving { hexmd5 } => {
                let set = resolve(root.as_str(), hexmd5.as_str());
                move_datafile(&set, hexmd5, event)
            },
            AddStage::Finished { hexmd5 } => AddStage::Finished { hexmd5 },
            AddStage::Failed { failure } => AddStage::Failed { failure },
        };
        AddWorkflow { root, path, tags, stage }
    }
}

/// The stage after the driver answered `event` to the reading of a chunk of
/// the file at `path`.
fn hash_chunk(hasher: Fingerprinter, event: Event, path: &str) -> (stage: AddStage)
    ensures
        stage@ == hashing_next(path@, hasher@, event@),
{
    match event {
        Event::Chunk { bytes } => {
            let mut hasher = hasher;
            if bytes.len() == 0 {
                AddStage::MakingDataDir { hexmd5: hasher.finish() }
            } else if hasher.update(bytes.as_slice()) {
                AddStage::Hashing { hasher }
            } else {
                AddStage::Failed {
                    failure: failure_at(
                        FailureKind::TooLarge,
                        "could not compute md5 at ",
                        path,
                        String::new(),
                    ),
                }
            }
        },
        Event::Failed { detail } => AddStage::Failed {
            failure: failure_at(FailureKind::Io, "could not compute md5 at ", path, detail),
        },
        _ => AddStage::Failed { failure: unexpected_answer() },
    }
}

/// The stage after the driver answered `event` to the making of a subtree of
/// `root`: `then`, if the subtree is there.
fn make_subtree(root: &str, then: AddStage, event: Event) -> (stage: AddStage)
    ensures
        stage@ == root_next(root@, then@, event@),
{
    match event {
        Event::Done => then,
        Event::Failed { detail } => AddStage::Failed {
            failure: failure_at(FailureKind::Io, "could not make a root at ", root, detail),
        },
        _ => AddStage::Failed { failure: unexpected_answer() },
    }
}

/// The stage after the driver answered `event` while the description record
/// of `set` was obtained: created, filled with the template, or edited.
fn edit_description(set: &DataSet, stage: AddStage, event: Event) -> (next: AddStage)
    ensures
        next@ == description_next(set@.description_path, stage@, event@),
{
    match stage {
        AddStage::CreatingRecord { hexmd5 } => match event {
            Event::Done => AddStage::WritingTemplate { hexmd5 },
            Event::Exists => AddStage::Editing { hexmd5 },
            Event::Failed { detail } => AddStage::Failed {
                failure: failure_at(
                    FailureKind::Io,
                    "could not create description at ",
                    set.description_path(),
                    detail,
                ),
            },
            _ => AddStage::Failed { failure: unexpected_answer() },
        },
        AddStage::WritingTemplate { hexmd5 } => match event {
            Event::Done => AddStage::Editing { hexmd5 },
            Event::Failed { detail } => AddStage::Failed {
                failure: failure_at(
                    FailureKind::Io,
                    "could not write description at ",
                    set.description_path(),
                    detail,
                ),
            },
            _ => AddStage::Failed { failure: unexpected_answer() },
        },
        AddStage::Editing { hexmd5 } => match event {
            Event::Done => AddStage::Moving { hexmd5 },
            Event::Failed { detail } => AddStage::Failed {
                failure: failure_at(
                    FailureKind::CollaboratorLaunch,
                    "failed to finish the editor on ",
                    set.description_path(),
                    detail,
                ),
            },
            _ => AddStage::Failed { failure: unexpected_answer() },
        },
        other => other,
    }
}

/// The stage after the driver answered `event` to the moving of the file to
/// the payload path of `set`.
fn move_datafile(set: &DataSet, hexmd5: String, event: Event) -> (stage: AddStage)
    ensures
        stage@ == moving_next(set@.data_path, hexmd5@, event@),
{
    match event {
        Event::Done => AddStage::Finished { hexmd5 },
        Event::Failed { detail } => AddStage::Failed {
            failure: failure_at(
                FailureKind::Io,
                "could not move file to ",
                set.data_path(),
                detail,
            ),
        },
        _ => AddStage::Failed { failure: unexpected_answer() },
    }
}

/// The fingerprint that a stage knows, if it knows one.
pub open spec fn stage_fingerprint(stage: AddStageView) -> Option<Seq<char>> {
    match stage {
        AddStageView::Hashing { absorbed } => None,
        AddStageView::MakingDataDir { hexmd5 } => Some(hexmd5),
        AddStageView::MakingDescriptionDir { hexmd5 } => Some(hexmd5),
        AddStageView::CreatingRecord { hexmd5 } => Some(hexmd5),
        AddStageView::WritingTemplate { hexmd5 } => Some(hexmd5),
        AddStageView::Editing { hexmd5 } => Some(hexmd5),
        AddStageView::Moving { hexmd5 } => Some(hexmd5),
        AddStageView::Finished { hexmd5 } => Some(hexmd5),
        AddStageView::Failed { failure } => None,
    }
}

/// The place of a stage in the order of the work.
pub open spec fn stage_rank(stage: AddStageView) -> nat {
    match stage {
        AddStageView::Hashing { absorbed } => 0,
        AddStageView::MakingDataDir { hexmd5 } => 1,
        AddStageView::MakingDescriptionDir { hexmd5 } => 2,
        AddStageView::CreatingRecord { hexmd5 } => 3,
        AddStageView::WritingTemplate { hexmd5 } => 4,
        AddStageView::Editing { hexmd5 } => 5,
        AddStageView::Moving { hexmd5 } => 6,
        AddStageView::Finished { hexmd5 } => 7,
        AddStageView::Failed { failure } => 8,
    }
}

/// The same work at another stage.
pub open spec fn at_stage(add: AddView, stage: AddStageView) -> AddView {
    AddView { root: add.root, path: add.path, tags: add.tags, stage }
}

/// The answers of a driver that read a file in these chunks.
pub open spec fn chunk_events(chunks: Seq<Seq<u8>>) -> Seq<EventView> {
    chunks.map_values(|bytes: Seq<u8>| EventView::Chunk { bytes })
}

/// The actions that the work asks for while its driver answers `events`: the
/// one before each event.
pub open spec fn add_trace(add: AddView, events: Seq<EventView>) -> Seq<ActionView> {
    Seq::new(events.len(), |i: int| add_action(add_run(add, events.take(i))))
}

/// A run over one more event is one more step.
pub proof fn lemma_add_run_push(add: AddView, events: Seq<EventView>, event: EventView)
    ensures
        add_run(add, events.push(event)) == add_step(add_run(add, events), event),
{
    assert(events.push(event).drop_last() == events);
}

/// While the file is read, the work absorbs each chunk after those before.
pub proof fn lemma_add_absorbs_chunks(add: AddView, chunks: Seq<Seq<u8>>)
    requires
        add.stage == (AddStageView::Hashing { absorbed: Seq::empty() }),
        forall|i: int| 0 <= i < chunks.len() ==> (#[trigger] chunks[i]).len() > 0,
        chunks.flatten().len() <= u64::MAX,
    ensures
        add_run(add, chunk_events(chunks)) == at_stage(
            add,
            AddStageView::Hashing { absorbed: chunks.flatten() },
        ),
    decreases chunks.len(),
{
    if chunks.len() == 0 {
        assert(chunks.flatten() == Seq::<u8>::empty());
    } else {
        let rest = chunks.drop_last();
        assert(chunks == rest.push(chunks.last()));
        rest.lemma_flatten_push(chunks.last());
        lemma_add_absorbs_chunks(add, rest);
        assert(chunk_events(chunks).drop_last() == chunk_events(rest));
    }
}

/// The fingerprint under which a file is added is the digest of its bytes,
/// however the driver cut the file into chunks.
pub proof fn lemma_add_fingerprints_content(add: AddView, chunks: Seq<Seq<u8>>)
    requires
        add.stage == (AddStageView::Hashing { absorbed: Seq::empty() }),
        forall|i: int| 0 <= i < chunks.len() ==> (#[trigger] chunks[i]).len() > 0,
        chunks.flatten().len() <= u64::MAX,
    ensures
        add_run(add, chunk_events(chunks).push(EventView::Chunk { bytes: Seq::empty() }))
            == at_stage(add, AddStageView::MakingDataDir { hexmd5: md5_hex(chunks.flatten()) }),
{
    lemma_add_absorbs_chunks(add, chunks);
    lemma_add_run_push(add, chunk_events(chunks), EventView::Chunk { bytes: Seq::empty() });
}

/// Two readings of one unmodified file give one fingerprint: chunks that
/// make up the same bytes lead to the same stage.
pub proof fn lemma_add_fingerprint_deterministic(
    add: AddView,
    first: Seq<Seq<u8>>,
    second: Seq<Seq<u8>>,
)
    requires
        add.stage == (AddStageView::Hashing { absorbed: Seq::empty() }),
        forall|i: int| 0 <= i < first.len() ==> (#[trigger] first[i]).len() > 0,
        forall|i: int| 0 <= i < second.len() ==> (#[trigger] second[i]).len() > 0,
        first.flatten() == second.flatten(),
        first.flatten().len() <= u64::MAX,
    ensures
        add_run(add, chunk_events(first).push(EventView::Chunk { bytes: Seq::empty() }))
            == add_run(add, chunk_events(second).push(EventView::Chunk { bytes: Seq::empty() })),
{
    lemma_add_fingerprints_content(add, first);
    lemma_add_fingerprints_content(add, second);
}

/// Whatever its stage, the work asks for no directory but the two subtrees
/// of its root: run any number of times on one root, it asks for the same
/// two.
pub proof fn lemma_add_makes_the_subtrees_only(add: AddView)
    ensures
        add_action(add) matches ActionView::CreateDirAll { path } ==> path == data_dir(add.root)
            || path == description_dir(add.root),
{
}

/// Once the work has ended, in success or in failure, no event moves it.
pub proof fn lemma_add_halts(add: AddView, event: EventView)
    requires
        add.stage is Finished || add.stage is Failed,
    ensures
        add_step(add, event) == add,
{
}

/// Any failure ends the work at once, with the driver's detail kept. The
/// failure of the editor is told apart from a failure of the file system.
pub proof fn lemma_add_fails_fast(add: AddView, detail: Seq<char>)
    requires
        !(add.stage is Finished),
        !(add.stage is Failed),
    ensures
        add_step(add, EventView::Failed { detail }).stage matches AddStageView::Failed { failure }
            && failure.detail == detail && failure.kind == if add.stage is Editing {
            FailureKind::CollaboratorLaunch
        } else {
            FailureKind::Io
        },
{
}

/// The work goes through its stages in order and one at a time. The one
/// stage that can be passed over is the writing of the template, when the
/// record exists; the one stage that can last is the reading of the file.
pub proof fn lemma_add_in_order(add: AddView, event: EventView)
    requires
        !(add.stage is Finished),
        !(add_step(add, event).stage is Failed),
    ensures
        ({
            let before = stage_rank(add.stage);
            let after = stage_rank(add_step(add, event).stage);
            ||| after == before + 1
            ||| after == before && add.stage is Hashing
            ||| after == before + 2 && add.stage is CreatingRecord && event is Exists
        }),
{
}

/// The fingerprint, once known, stays the same to the end of the work.
pub proof fn lemma_add_keeps_fingerprint(add: AddView, event: EventView)
    requires
        stage_fingerprint(add.stage) is Some,
        !(add_step(add, event).stage is Failed),
    ensures
        stage_fingerprint(add_step(add, event).stage) == stage_fingerprint(add.stage),
{
}

/// The template is written once: only a record that the work has just
/// created is written to. A record that exists is handed to the editor as
/// it is.
pub proof fn lemma_add_template_once(add: AddView, event: EventView)
    ensures
        add_action(add) is Write <==> add.stage is WritingTemplate,
        add_step(add, event).stage is WritingTemplate <==> add.stage is CreatingRecord
            && event is Done,
        add.stage is CreatingRecord && event is Exists ==> add_action(add_step(add, event))
            == (ActionView::Edit {
            path: record_path(add.root, stage_fingerprint(add.stage).unwrap()),
        }),
{
}

/// With no record under the fingerprint yet, the work asks for the two
/// subtrees, the new record, the template in it, the editor and the move,
/// in this order, and ends in success when each was carried out.
pub proof fn lemma_add_new_record(add: AddView, hexmd5: Seq<char>)
    requires
        add.stage == (AddStageView::MakingDataDir { hexmd5 }),
    ensures
        ({
            let done = EventView::Done;
            let events = seq![done, done, done, done, done, done];
            &&& add_run(add, events) == at_stage(add, AddStageView::Finished { hexmd5 })
            &&& add_trace(add, events) == seq![
                ActionView::CreateDirAll { path: data_dir(add.root) },
                ActionView::CreateDirAll { path: description_dir(add.root) },
                ActionView::CreateNew { path: record_path(add.root, hexmd5) },
                ActionView::Write {
                    path: record_path(add.root, hexmd5),
                    text: template_text(add.path, add.path, add.tags, hexmd5),
                },
                ActionView::Edit { path: record_path(add.root, hexmd5) },
                ActionView::Rename { from: add.path, to: payload_path(add.root, hexmd5) },
            ]
        }),
{
    let done = EventView::Done;
    let events = seq![done, done, done, done, done, done];
    let e0 = Seq::<EventView>::empty();
    let e1 = e0.push(done);
    let e2 = e1.push(done);
    let e3 = e2.push(done);
    let e4 = e3.push(done);
    let e5 = e4.push(done);
    let e6 = e5.push(done);
    lemma_add_run_push(add, e0, done);
    lemma_add_run_push(add, e1, done);
    lemma_add_run_push(add, e2, done);
    lemma_add_run_push(add, e3, done);
    lemma_add_run_push(add, e4, done);
    lemma_add_run_push(add, e5, done);
    assert(events == e6);
    assert(events.take(0) == e0);
    assert(events.take(1) == e1);
    assert(events.take(2) == e2);
    assert(events.take(3) == e3);
    assert(events.take(4) == e4);
    assert(events.take(5) == e5);
    assert(add_run(add, e0) == add);
}

/// With a record under the fingerprint already, the work asks for the two
/// subtrees, finds the record, and asks for the editor and the move: the
/// record is not written to.
pub proof fn lemma_add_existing_record(add: AddView, hexmd5: Seq<char>)
    requires
        add.stage == (AddStageView::MakingDataDir { hexmd5 }),
    ensures
        ({
            let done = EventView::Done;
            let events = seq![done, done, EventView::Exists, done, done];
            &&& add_run(add, events) == at_stage(add, AddStageView::Finished { hexmd5 })
            &&& add_trace(add, events) == seq![
                ActionView::CreateDirAll { path: data_dir(add.root) },
                ActionView::CreateDirAll { path: description_dir(add.root) },
                ActionView::CreateNew { path: record_path(add.root, hexmd5) },
                ActionView::Edit { path: record_path(add.root, hexmd5) },
                ActionView::Rename { from: add.path, to: payload_path(add.root, hexmd5) },
            ]
        }),
{
    let done = EventView::Done;
    let events = seq![done, done, EventView::Exists, done, done];
    let e0 = Seq::<EventView>::empty();
    let e1 = e0.push(done);
    let e2 = e1.push(done);
    let e3 = e2.push(EventView::Exists);
    let e4 = e3.push(done);
    let e5 = e4.push(done);
    lemma_add_run_push(add, e0, done);
    lemma_add_run_push(add, e1, done);
    lemma_add_run_push(add, e2, EventView::Exists);
    lemma_add_run_push(add, e3, done);
    lemma_add_run_push(add, e4, done);
    assert(events == e5);
    assert(events.take(0) == e0);
    assert(events.take(1) == e1);
    assert(events.take(2) == e2);
    assert(events.take(3) == e3);
    assert(events.take(4) == e4);
    assert(add_run(add, e0) == add);
}

/// In the run over `events`, the driver was asked for `action` and answered
/// `event`.
pub open spec fn answered(
    add: AddView,
    events: Seq<EventView>,
    action: ActionView,
    event: EventView,
) -> bool {
    exists|i: int|
        0 <= i < events.len() && #[trigger] add_trace(add, events)[i] == action && events[i]
            == event
}

/// What a successful end of the work rests on, stage by stage: the record
/// was created or found, then the editor ended, then the file was moved.
pub open spec fn add_history(add: AddView, events: Seq<EventView>) -> bool {
    let now = add_run(add, events).stage;
    match stage_fingerprint(now) {
        None => true,
        Some(hexmd5) => {
            let record = record_path(add.root, hexmd5);
            let payload = payload_path(add.root, hexmd5);
            &&& stage_rank(now) >= 4 ==> answered(
                add,
                events,
                ActionView::CreateNew { path: record },
                EventView::Done,
            ) || answered(add, events, ActionView::CreateNew { path: record }, EventView::Exists)
            &&& stage_rank(now) >= 6 ==> answered(
                add,
                events,
                ActionView::Edit { path: record },
                EventView::Done,
            )
            &&& stage_rank(now) >= 7 ==> answered(
                add,
                events,
                ActionView::Rename { from: add.path, to: payload },
                EventView::Done,
            )
        },
    }
}

/// What was asked and answered in a run stays so when the run goes on.
pub proof fn lemma_answered_push(
    add: AddView,
    events: Seq<EventView>,
    last: EventView,
    action: ActionView,
    event: EventView,
)
    ensures
        answered(add, events, action, event) ==> answered(add, events.push(last), action, event),
        add_action(add_run(add, events)) == action && last == event ==> answered(
            add,
            events.push(last),
            action,
            event,
        ),
{
    let longer = events.push(last);
    if answered(add, events, action, event) {
        let i = choose|i: int|
            0 <= i < events.len() && #[trigger] add_trace(add, events)[i] == action && events[i]
                == event;
        assert(longer.take(i) == events.take(i));
        assert(add_trace(add, longer)[i] == action);
    }
    if add_action(add_run(add, events)) == action && last == event {
        let i = events.len() as int;
        assert(longer.take(i) == events);
        assert(add_trace(add, longer)[i] == action);
    }
}

/// Every run of the work from its start has gone through what its stage
/// rests on.
pub proof fn lemma_add_history(add: AddView, events: Seq<EventView>)
    requires
        add.stage is Hashing,
    ensures
        add_history(add, events),
        add_run(add, events).root == add.root,
        add_run(add, events).path == add.path,
        add_run(add, events).tags == add.tags,
    decreases events.len(),
{
    if events.len() > 0 {
        let earlier = events.drop_last();
        let last = events.last();
        let before = add_run(add, earlier);
        lemma_add_history(add, earlier);
        assert(events == earlier.push(last));
        lemma_add_run_push(add, earlier, last);
        let now = add_step(before, last);
        if stage_fingerprint(now.stage) is Some {
            let hexmd5 = stage_fingerprint(now.stage).unwrap();
            let record = record_path(add.root, hexmd5);
            let payload = payload_path(add.root, hexmd5);
            let create = ActionView::CreateNew { path: record };
            let edit = ActionView::Edit { path: record };
            let rename = ActionView::Rename { from: add.path, to: payload };
            lemma_answered_push(add, earlier, last, create, EventView::Done);
            lemma_answered_push(add, earlier, last, create, EventView::Exists);
            lemma_answered_push(add, earlier, last, edit, EventView::Done);
            lemma_answered_push(add, earlier, last, rename, EventView::Done);
        }
    }
}

/// The work ends in success only when the driver answered that the record
/// was created or is there, that the editor ended, and that the file was
/// moved from where it was to its place among the payloads.
pub proof fn lemma_add_commit(add: AddView, events: Seq<EventView>, hexmd5: Seq<char>)
    requires
        add.stage is Hashing,
        add_run(add, events).stage == (AddStageView::Finished { hexmd5 }),
    ensures
        answered(
            add,
            events,
            ActionView::CreateNew { path: record_path(add.root, hexmd5) },
            EventView::Done,
        ) || answered(
            add,
            events,
            ActionView::CreateNew { path: record_path(add.root, hexmd5) },
            EventView::Exists,
        ),
        answered(
            add,
            events,
            ActionView::Edit { path: record_path(add.root, hexmd5) },
            EventView::Done,
        ),
        answered(
            add,
            events,
            ActionView::Rename { from: add.path, to: payload_path(add.root, hexmd5) },
            EventView::Done,
        ),
{
    lemma_add_history(add, events);
}

/// In every run of the work, the template is written only to a record that
/// the driver has just created: the action before is the creating, and its
/// answer is that it was done.
pub proof fn lemma_add_writes_new_records_only(add: AddView, events: Seq<EventView>, i: int)
    requires
        add.stage is Hashing,
        0 <= i < events.len(),
        add_trace(add, events)[i] is Write,
    ensures
        i > 0,
        add_trace(add, events)[i - 1] is CreateNew,
        events[i - 1] is Done,
{
    let upto = events.take(i);
    if i == 0 {
        assert(add_run(add, upto) == add);
    } else {
        assert(upto == events.take(i - 1).push(events[i - 1]));
        lemma_add_run_push(add, events.take(i - 1), events[i - 1]);
        lemma_add_template_once(add_run(add, events.take(i - 1)), events[i - 1]);
    }
}

} // verus!
