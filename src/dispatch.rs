//! Carrying out a [`Command`]: the decisions of each command as a machine
//! that is handed the outcome of one filesystem operation at a time and
//! answers with the next one. The caller performs the operations.

use vstd::prelude::*;

use crate::command::{Command, CommandView};
use crate::listing::{count_adrs_except_init_md, get_all_adr_files_at_location, name_views, record_names, DirEntryInfo};
use crate::text::{next_record_path, record_path, slug, title_slug};

verus! {

/// A failure that ends a command.
#[derive(Debug, Clone, Copy, PartialEq, Eq, Structural)]
pub enum DispatchError {
    /// `init` was asked for while the marker file exists.
    AlreadyInitialized,
    /// The marker file could not be written.
    MarkerWriteError,
    /// The marker file is missing or could not be read.
    MarkerMissingOrUnreadable,
    /// The storage directory could not be listed.
    DirectoryListError,
    /// The outcome handed in does not belong to the operation asked for.
    UnexpectedEvent,
}

impl DispatchError {
    /// A human-readable description of the failure.
    pub fn message(&self) -> String {
        match self {
            DispatchError::AlreadyInitialized => {
                "Wow adr_file found! You're already tracking adrs!".to_owned()
            },
            DispatchError::MarkerWriteError => "Unable to create adr_file".to_owned(),
            DispatchError::MarkerMissingOrUnreadable => "Unable to read .adr_file".to_owned(),
            DispatchError::DirectoryListError => "Unable to list the adr location".to_owned(),
            DispatchError::UnexpectedEvent => "Outcome does not match the operation".to_owned(),
        }
    }
}

/// The outcome of the operation last asked for.
#[derive(Debug, Clone)]
pub enum Event {
    /// Nothing has been done yet.
    Started,
    /// Whether the marker file exists.
    MarkerChecked { exists: bool },
    /// Whether the marker file was written in full.
    MarkerWritten { ok: bool },
    /// The content of the marker file, or `None` when it could not be read.
    MarkerRead { content: Option<String> },
    /// The entries of the directory, or `None` when it could not be listed.
    DirListed { entries: Option<Vec<DirEntryInfo>> },
    /// A directory creation, copy or print was carried out; its failure, if
    /// any, has been reported and does not change what follows.
    EffectDone,
}

/// The next operation for the caller to perform.
#[derive(Debug, Clone)]
pub enum Action {
    /// Report whether the marker file exists.
    CheckMarker,
    /// Write the marker file with `content` as its whole content.
    WriteMarker { content: String },
    /// Create the directory `path` and its parents.
    CreateDirAll { path: String },
    /// Copy the bundled file `from` to `to`.
    CopyResource { from: String, to: String },
    /// Read the marker file.
    ReadMarker,
    /// List the entries directly inside `path`.
    ListDir { path: String },
    /// Print each line.
    Print { lines: Vec<String> },
    /// Stop with a failure.
    Abort { error: DispatchError },
    /// Stop: the command is complete.
    Finish,
}

/// Where a command stands.
#[derive(Debug, Clone)]
pub enum Stage {
    /// The command has not begun.
    Begin { command: Command },
    /// `init` waits to learn whether the marker file exists.
    InitCheck { path: String },
    /// `init` waits for the marker file to be written.
    InitWrite { path: String },
    /// `init` waits for the storage directory to be created.
    InitCreate { path: String },
    /// `new` waits for the storage location.
    NewLocate { title: String },
    /// `new` waits for the listing of the storage location.
    NewCount { location: String, title: String },
    /// `list` waits for the storage location.
    ListLocate,
    /// `list` waits for the listing of the storage location.
    ListEntries,
    /// The last effect of the command is under way.
    Closing,
    /// The command has ended.
    Done,
}

pub enum EventView {
    Started,
    MarkerChecked { exists: bool },
    MarkerWritten { ok: bool },
    MarkerRead { content: Option<Seq<char>> },
    DirListed { entries: Option<Seq<DirEntryInfo>> },
    EffectDone,
}

pub enum ActionView {
    CheckMarker,
    WriteMarker { content: Seq<char> },
    CreateDirAll { path: Seq<char> },
    CopyResource { from: Seq<char>, to: Seq<char> },
    ReadMarker,
    ListDir { path: Seq<char> },
    Print { lines: Seq<Seq<char>> },
    Abort { error: DispatchError },
    Finish,
}

pub enum StageView {
    Begin { command: CommandView },
    InitCheck { path: Seq<char> },
    InitWrite { path: Seq<char> },
    InitCreate { path: Seq<char> },
    NewLocate { title: Seq<char> },
    NewCount { location: Seq<char>, title: Seq<char> },
    ListLocate,
    ListEntries,
    Closing,
    Done,
}

impl View for Event {
    type V = EventView;

    open spec fn view(&self) -> EventView {
        match self {
            Event::Started => EventView::Started,
            Event::MarkerChecked { exists } => EventView::MarkerChecked { exists: *exists },
            Event::MarkerWritten { ok } => EventView::MarkerWritten { ok: *ok },
            Event::MarkerRead { content } => EventView::MarkerRead {
                content: match content {
                    Some(c) => Some(c@),
                    None => None,
                },
            },
            Event::DirListed { entries } => EventView::DirListed {
                entries: match entries {
                    Some(es) => Some(es@),
                    None => None,
                },
            },
            Event::EffectDone => EventView::EffectDone,
        }
    }
}

impl View for Action {
    type V = ActionView;

    open spec fn view(&self) -> ActionView {
        match self {
            Action::CheckMarker => ActionView::CheckMarker,
            Action::WriteMarker { content } => ActionView::WriteMarker { content: content@ },
            Action::CreateDirAll { path } => ActionView::CreateDirAll { path: path@ },
            Action::CopyResource { from, to } => ActionView::CopyResource { from: from@, to: to@ },
            Action::ReadMarker => ActionView::ReadMarker,
            Action::ListDir { path } => ActionView::ListDir { path: path@ },
            Action::Print { lines } => ActionView::Print { lines: name_views(lines@) },
            Action::Abort { error } => ActionView::Abort { error: *error },
            Action::Finish => ActionView::Finish,
        }
    }
}

impl View for Stage {
    type V = StageView;

    open spec fn view(&self) -> StageView {
        match self {
            Stage::Begin { command } => StageView::Begin { command: command@ },
            Stage::InitCheck { path } => StageView::InitCheck { path: path@ },
            Stage::InitWrite { path } => StageView::InitWrite { path: path@ },
            Stage::InitCreate { path } => StageView::InitCreate { path: path@ },
            Stage::NewLocate { title } => StageView::NewLocate { title: title@ },
            Stage::NewCount { location, title } => StageView::NewCount {
                location: location@,
                title: title@,
            },
            Stage::ListLocate => StageView::ListLocate,
            Stage::ListEntries => StageView::ListEntries,
            Stage::Closing => StageView::Closing,
            Stage::Done => StageView::Done,
        }
    }
}

/// The bundled file copied into a freshly initialised storage directory.
pub open spec fn init_resource() -> Seq<char> {
    "resources/init.md"@
}

/// The bundled file each new record is copied from.
pub open spec fn template_resource() -> Seq<char> {
    "resources/template.md"@
}

/// Stopping with `error`.
pub open spec fn abort(error: DispatchError) -> (StageView, ActionView) {
    (StageView::Done, ActionView::Abort { error })
}

/// The next stage and operation, given the current stage and the outcome of
/// the operation last asked for.
///
/// `init` checks for the marker file and stops if it exists; else it writes
/// the marker file (stopping if that fails), creates the storage directory
/// and copies `init.md` into it. `new` and `list` read the location from the
/// marker file and list it, stopping if either fails; `new` then copies the
/// template to the path that follows the records counted, `list` prints
/// their names. A failed directory creation, copy or print changes nothing.
pub open spec fn next(stage: StageView, event: EventView) -> (StageView, ActionView) {
    match (stage, event) {
        (StageView::Begin { command: CommandView::Init { path } }, EventView::Started) => {
            (StageView::InitCheck { path }, ActionView::CheckMarker)
        },
        (StageView::Begin { command: CommandView::New { title } }, EventView::Started) => {
            (StageView::NewLocate { title }, ActionView::ReadMarker)
        },
        (StageView::Begin { command: CommandView::List }, EventView::Started) => {
            (StageView::ListLocate, ActionView::ReadMarker)
        },
        (StageView::InitCheck { path }, EventView::MarkerChecked { exists }) => {
            if exists {
                abort(DispatchError::AlreadyInitialized)
            } else {
                (StageView::InitWrite { path }, ActionView::WriteMarker { content: path })
            }
        },
        (StageView::InitWrite { path }, EventView::MarkerWritten { ok }) => {
            if ok {
                (StageView::InitCreate { path }, ActionView::CreateDirAll { path })
            } else {
                abort(DispatchError::MarkerWriteError)
            }
        },
        (StageView::InitCreate { path }, EventView::EffectDone) => {
            (
                StageView::Closing,
                ActionView::CopyResource { from: init_resource(), to: path + "/init.md"@ },
            )
        },
        (StageView::NewLocate { title }, EventView::MarkerRead { content }) => {
            match content {
                Some(location) => (
                    StageView::NewCount { location, title },
                    ActionView::ListDir { path: location },
                ),
                None => abort(DispatchError::MarkerMissingOrUnreadable),
            }
        },
        (StageView::NewCount { location, title }, EventView::DirListed { entries }) => {
            match entries {
                Some(es) => (
                    StageView::Closing,
                    ActionView::CopyResource {
                        from: template_resource(),
                        to: record_path(location, record_names(es).len() + 1, slug(title)),
                    },
                ),
                None => abort(DispatchError::DirectoryListError),
            }
        },
        (StageView::ListLocate, EventView::MarkerRead { content }) => {
            match content {
                Some(location) => (StageView::ListEntries, ActionView::ListDir { path: location }),
                None => abort(DispatchError::MarkerMissingOrUnreadable),
            }
        },
        (StageView::ListEntries, EventView::DirListed { entries }) => {
            match entries {
                Some(es) => (StageView::Closing, ActionView::Print { lines: record_names(es) }),
                None => abort(DispatchError::DirectoryListError),
            }
        },
        (StageView::Closing, EventView::EffectDone) => (StageView::Done, ActionView::Finish),
        (StageView::Done, _) => (StageView::Done, ActionView::Finish),
        _ => abort(DispatchError::UnexpectedEvent),
    }
}

fn fail(error: DispatchError) -> (r: (Stage, Action))
    ensures
        (r.0@, r.1@) == abort(error),
{
    (Stage::Done, Action::Abort { error })
}

/// Takes a command one operation further: given where it stands and the
/// outcome of the operation last asked for, returns where it stands next and
/// the operation to perform next.
pub fn handle_command(stage: Stage, event: Event) -> (r: (Stage, Action))
    ensures
        (r.0@, r.1@) == next(stage@, event@),
{
    match stage {
        Stage::Begin { command } => match event {
            Event::Started => match command {
                Command::Init { path } => (Stage::InitCheck { path }, Action::CheckMarker),
                Command::New { title } => (Stage::NewLocate { title }, Action::ReadMarker),
                Command::List => (Stage::ListLocate, Action::ReadMarker),
            },
            _ => fail(DispatchError::UnexpectedEvent),
        },
        Stage::InitCheck { path } => match event {
            Event::MarkerChecked { exists } => {
                if exists {
                    fail(DispatchError::AlreadyInitialized)
                } else {
                    let content = path.clone();
                    (Stage::InitWrite { path }, Action::WriteMarker { content })
                }
            },
            _ => fail(DispatchError::UnexpectedEvent),
        },
        Stage::InitWrite { path } => match event {
            Event::MarkerWritten { ok } => {
                if ok {
                    let dir = path.clone();
                    (Stage::InitCreate { path }, Action::CreateDirAll { path: dir })
                } else {
                    fail(DispatchError::MarkerWriteError)
                }
            },
            _ => fail(DispatchError::UnexpectedEvent),
        },
        Stage::InitCreate { path } => match event {
            Event::EffectDone => {
                let mut to = path;
                to.append("/init.md");
                let from = "resources/init.md".to_owned();
                (Stage::Closing, Action::CopyResource { from, to })
            },
            _ => fail(DispatchError::UnexpectedEvent),
        },
        Stage::NewLocate { title } => match event {
            Event::MarkerRead { content } => match content {
                Some(location) => {
                    let path = location.clone();
                    (Stage::NewCount { location, title }, Action::ListDir { path })
                },
                None => fail(DispatchError::MarkerMissingOrUnreadable),
            },
            _ => fail(DispatchError::UnexpectedEvent),
        },
        Stage::NewCount { location, title } => match event {
            Event::DirListed { entries } => match entries {
                Some(es) => {
                    let count = count_adrs_except_init_md(&es);
                    let slug_part = title_slug(&title);
                    let to = next_record_path(&location, count, &slug_part);
                    let from = "resources/template.md".to_owned();
                    (Stage::Closing, Action::CopyResource { from, to })
                },
                None => fail(DispatchError::DirectoryListError),
            },
            _ => fail(DispatchError::UnexpectedEvent),
        },
        Stage::ListLocate => match event {
            Event::MarkerRead { content } => match content {
                Some(path) => (Stage::ListEntries, Action::ListDir { path }),
                None => fail(DispatchError::MarkerMissingOrUnreadable),
            },
            _ => fail(DispatchError::UnexpectedEvent),
        },
        Stage::ListEntries => match event {
            Event::DirListed { entries } => match entries {
                Some(es) => {
                    let lines = get_all_adr_files_at_location(&es);
                    (Stage::Closing, Action::Print { lines })
                },
                None => fail(DispatchError::DirectoryListError),
            },
            _ => fail(DispatchError::UnexpectedEvent),
        },
        Stage::Closing => match event {
            Event::EffectDone => (Stage::Done, Action::Finish),
            _ => fail(DispatchError::UnexpectedEvent),
        },
        Stage::Done => (Stage::Done, Action::Finish),
    }
}

/// The stage reached and the operations asked for when `events` are handed
/// in, in order, from `stage`.
pub open spec fn run(stage: StageView, events: Seq<EventView>) -> (StageView, Seq<ActionView>)
    decreases events.len(),
{
    if events.len() == 0 {
        (stage, Seq::empty())
    } else {
        let (after, action) = next(stage, events[0]);
        let (end, rest) = run(after, events.drop_first());
        (end, seq![action] + rest)
    }
}

/// Whether an operation changes the filesystem.
pub open spec fn changes_files(action: ActionView) -> bool {
    ||| action is WriteMarker
    ||| action is CreateDirAll
    ||| action is CopyResource
}

/// Once a command has ended, every outcome handed in is answered by
/// `Finish`.
pub proof fn lemma_done_only_finishes(events: Seq<EventView>)
    ensures
        run(StageView::Done, events).0 == StageView::Done,
        run(StageView::Done, events).1.len() == events.len(),
        forall|i: int|
            0 <= i < events.len() ==> #[trigger] run(StageView::Done, events).1[i]
                == ActionView::Finish,
    decreases events.len(),
{
    if events.len() > 0 {
        lemma_done_only_finishes(events.drop_first());
    }
}

/// The operations that `command` asks for when `events` are handed in, in
/// order, from its beginning.
pub open spec fn trace(command: CommandView, events: Seq<EventView>) -> Seq<ActionView> {
    run(StageView::Begin { command }, events).1
}

/// Round trip through the marker file: `init` writes its path as the whole
/// content of the marker file, and `new` or `list`, handed that content
/// back, lists exactly that path.
pub proof fn lemma_marker_round_trip(path: Seq<char>, command: CommandView)
    requires
        command !is Init,
    ensures
        trace(
            (CommandView::Init { path }),
            seq![EventView::Started, (EventView::MarkerChecked { exists: false })],
        ) == seq![ActionView::CheckMarker, (ActionView::WriteMarker { content: path })],
        trace(command, seq![EventView::Started, (EventView::MarkerRead { content: Some(path) })])
            == seq![ActionView::ReadMarker, (ActionView::ListDir { path })],
{
    reveal_with_fuel(run, 3);
    let init_events = seq![EventView::Started, EventView::MarkerChecked { exists: false }];
    assert(init_events.drop_first().drop_first() =~= Seq::<EventView>::empty());
    let read_events = seq![EventView::Started, EventView::MarkerRead { content: Some(path) }];
    assert(read_events.drop_first().drop_first() =~= Seq::<EventView>::empty());
    assert(trace(CommandView::Init { path }, init_events) =~= seq![
        ActionView::CheckMarker,
        ActionView::WriteMarker { content: path },
    ]);
    assert(trace(command, read_events) =~= seq![
        ActionView::ReadMarker,
        ActionView::ListDir { path },
    ]);
}

/// `new`, handed back the location `path` and then its listing, copies the
/// template to the record path inside `path` that follows the records
/// listed.
pub proof fn lemma_new_record_in_location(
    path: Seq<char>,
    title: Seq<char>,
    entries: Seq<DirEntryInfo>,
)
    ensures
        trace(
            (CommandView::New { title }),
            seq![
                EventView::Started,
                (EventView::MarkerRead { content: Some(path) }),
                (EventView::DirListed { entries: Some(entries) }),
            ],
        ) == seq![
            ActionView::ReadMarker,
            (ActionView::ListDir { path }),
            (ActionView::CopyResource {
                from: template_resource(),
                to: record_path(path, record_names(entries).len() + 1, slug(title)),
            }),
        ],
{
    reveal_with_fuel(run, 4);
    let events = seq![
        EventView::Started,
        EventView::MarkerRead { content: Some(path) },
        EventView::DirListed { entries: Some(entries) },
    ];
    assert(events.drop_first().drop_first().drop_first() =~= Seq::<EventView>::empty());
    assert(trace(CommandView::New { title }, events) =~= seq![
        ActionView::ReadMarker,
        ActionView::ListDir { path },
        ActionView::CopyResource {
            from: template_resource(),
            to: record_path(path, record_names(entries).len() + 1, slug(title)),
        },
    ]);
}

/// The outcomes of `init` finding the marker file present, followed by
/// `later`.
pub open spec fn guarded_init_events(later: Seq<EventView>) -> Seq<EventView> {
    seq![EventView::Started, EventView::MarkerChecked { exists: true }] + later
}

/// `init` with the marker file present stops at once with
/// `AlreadyInitialized`: whatever outcomes are handed in afterwards, it asks
/// for no operation that writes the marker file, creates a directory or
/// copies a file.
pub proof fn lemma_init_guard(path: Seq<char>, later: Seq<EventView>)
    ensures
        trace((CommandView::Init { path }), guarded_init_events(later)).len() == later.len() + 2,
        trace((CommandView::Init { path }), guarded_init_events(later))[0]
            == ActionView::CheckMarker,
        trace((CommandView::Init { path }), guarded_init_events(later))[1]
            == (ActionView::Abort { error: DispatchError::AlreadyInitialized }),
        forall|i: int|
            0 <= i < later.len() + 2 ==> !changes_files(
                #[trigger] trace((CommandView::Init { path }), guarded_init_events(later))[i],
            ),
{
    let events = guarded_init_events(later);
    assert(events.drop_first().drop_first() =~= later);
    lemma_done_only_finishes(later);
    let start = StageView::Begin { command: CommandView::Init { path } };
    let ops = run(start, events).1;
    let tail = run(StageView::Done, later).1;
    assert(run(StageView::InitCheck { path }, events.drop_first()).1 =~= seq![
        ActionView::Abort { error: DispatchError::AlreadyInitialized },
    ] + tail);
    assert(ops =~= seq![ActionView::CheckMarker] + (seq![
        ActionView::Abort { error: DispatchError::AlreadyInitialized },
    ] + tail));
    assert forall|i: int| 0 <= i < ops.len() implies !changes_files(#[trigger] ops[i]) by {
        if i >= 2 {
            assert(ops[i] == tail[i - 2]);
        }
    }
}

} // verus!
