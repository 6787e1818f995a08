//! The run of an export: which entry of the archive is written when, and what ends the run early.
//!
//! A run hands out one action at a time. What came of it is handed back as an event, which decides
//! the next action.

use vstd::prelude::*;
use crate::error::DbFailure;
use crate::ids::Uuid;
use crate::routes::export;
use crate::routes::export::{
    CommentExport,
    ExportAttachment,
    ExportComment,
    ExportFailure,
    FileStep,
    attachment_listing,
    file_step,
    next_file,
    open_failed,
    profile_file,
    write_closing,
};
use crate::text;
use crate::text::join4;
use crate::time::Timestamp;

verus! {

/// What a run waits for.
#[derive(Clone, Copy, Debug, PartialEq, Eq, Structural)]
pub enum Phase {
    /// `profile.json` is being written.
    Profile,
    /// `comments.json` is being begun.
    Comments,
    /// A page of comments was asked for.
    Paging,
    /// The comments of a page are being written.
    Chunk,
    /// The end of the listing of comments is being written.
    Closing,
    /// `comments.json` is being ended.
    Closed,
    /// The JSON of the files was asked for.
    Encoding,
    /// `attachments.json` is being written.
    Listing,
    /// The size of a file was asked for.
    Sizing,
    /// The entry of an empty file is being written.
    Empty,
    /// A file is being opened.
    Opening,
    /// The size of a file that could not be opened was asked for.
    Missing,
    /// The entry of a file is being begun.
    Naming,
    /// A piece of a file is being copied.
    Copying,
    /// The entry of a file is being ended.
    Filed,
    /// The archive is being ended.
    Finishing,
    /// Nothing more.
    Done,
}

/// What is done next.
#[derive(Debug)]
pub enum ExportAction {
    /// Write a whole entry.
    File { name: String, text: String },
    /// Begin an entry.
    Begin { name: String },
    /// Write text into the entry that was begun.
    Data { text: String },
    /// End the entry that was begun.
    End,
    /// Fetch comments of a workspace, behind one of them.
    Fetch { workspace: Uuid, after: Option<(Timestamp, Uuid)> },
    /// Write each file as JSON.
    Encode,
    /// Ask the storage for the size of a file.
    AskSize { file: usize },
    /// Open a file, from its start to `last`.
    Open { file: usize, last: u64 },
    /// Copy a piece of the file that was opened.
    Copy,
    /// End the archive.
    Finish,
    /// The archive is complete.
    Stop,
}

/// What came of an action.
#[derive(Debug)]
pub enum ExportEvent {
    /// Something was written, begun or ended.
    Written(Result<(), ExportFailure>),
    /// The comments that were fetched, with the JSON of each.
    Page(Result<(Vec<ExportComment>, Vec<String>), ExportFailure>),
    /// The JSON of each file.
    Encoded(Result<Vec<String>, ExportFailure>),
    /// The size of the file; none where it is gone.
    Size(Result<Option<u64>, DbFailure>),
    /// Whether the file could be opened.
    Opened(bool),
    /// Whether a piece was copied; false at the end of the file.
    Copied(Result<bool, ExportFailure>),
}

/// An action with its texts as sequences.
pub enum ActionView {
    File(Seq<char>, Seq<char>),
    Begin(Seq<char>),
    Data(Seq<char>),
    End,
    Fetch(Uuid, Option<(Timestamp, Uuid)>),
    Encode,
    AskSize(int),
    Open(int, int),
    Copy,
    Finish,
    Stop,
}

impl View for ExportAction {
    type V = ActionView;

    open spec fn view(&self) -> ActionView {
        match self {
            ExportAction::File { name, text } => ActionView::File(name@, text@),
            ExportAction::Begin { name } => ActionView::Begin(name@),
            ExportAction::Data { text } => ActionView::Data(text@),
            ExportAction::End => ActionView::End,
            ExportAction::Fetch { workspace, after } => ActionView::Fetch(*workspace, *after),
            ExportAction::Encode => ActionView::Encode,
            ExportAction::AskSize { file } => ActionView::AskSize(*file as int),
            ExportAction::Open { file, last } => ActionView::Open(*file as int, *last as int),
            ExportAction::Copy => ActionView::Copy,
            ExportAction::Finish => ActionView::Finish,
            ExportAction::Stop => ActionView::Stop,
        }
    }
}

/// The run of an export.
#[derive(Debug)]
pub struct ExportRun {
    pub phase: Phase,
    pub comments: CommentExport,
    pub files: Vec<ExportAttachment>,
    /// The name of each file, as an archive may hold it.
    pub names: Vec<String>,
    /// The file that the run is at.
    pub at: usize,
}

/// An event answers the action that a run handed out last.
pub open spec fn answers(run: ExportRun, event: ExportEvent) -> bool {
    match run.phase {
        Phase::Paging => event matches ExportEvent::Page(page) && (page matches Ok(p)
            ==> p.0@.len() == p.1@.len()),
        Phase::Encoding => event matches ExportEvent::Encoded(listing) && (listing matches Ok(l)
            ==> l@.len() == run.files@.len()),
        Phase::Sizing | Phase::Missing => event is Size,
        Phase::Opening => event is Opened,
        Phase::Copying => event is Copied,
        Phase::Done => false,
        _ => event is Written,
    }
}

impl ExportRun {
    pub open spec fn wf(&self) -> bool {
        &&& self.names@.len() == self.files@.len()
        &&& self.phase is Paging ==> self.comments.awaited() is Some
        &&& (self.phase is Sizing || self.phase is Empty || self.phase is Opening
            || self.phase is Missing || self.phase is Naming || self.phase is Copying
            || self.phase is Filed) ==> self.at < self.files@.len() && export::packed(
            self.files@[self.at as int],
        )
    }

    /// The name of the entry of a file.
    pub open spec fn entry(&self, file: int) -> Seq<char> {
        export::entry_name(self.files@[file].id, self.names@[file]@)
    }

    /// On to the next page of comments, or to the end of their listing.
    pub open spec fn to_comments(&self) -> (ExportRun, ActionView) {
        match self.comments.awaited() {
            Some((workspace, after)) => (
                ExportRun { phase: Phase::Paging, ..*self },
                ActionView::Fetch(workspace, after),
            ),
            None => (
                ExportRun { phase: Phase::Closing, ..*self },
                ActionView::Data(export::closing(self.comments.first)),
            ),
        }
    }

    /// On to the first file from `from` on that is packed, or to the end of the archive.
    pub open spec fn to_file(&self, from: int) -> (ExportRun, ActionView) {
        match export::next_packed(self.files@, from) {
            Some(file) => (
                ExportRun { phase: Phase::Sizing, at: file as usize, ..*self },
                ActionView::AskSize(file),
            ),
            None => (ExportRun { phase: Phase::Finishing, ..*self }, ActionView::Finish),
        }
    }

    /// A run behind an event, with the action that it hands out; or why it ends early.
    pub open spec fn behind(&self, event: ExportEvent) -> Result<
        (ExportRun, ActionView),
        ExportFailure,
    > {
        match event {
            ExportEvent::Written(Err(e)) => Err(e),
            ExportEvent::Page(Err(e)) => Err(e),
            ExportEvent::Encoded(Err(e)) => Err(e),
            ExportEvent::Copied(Err(e)) => Err(e),
            ExportEvent::Written(Ok(_)) => Ok(
                match self.phase {
                    Phase::Profile => (
                        ExportRun { phase: Phase::Comments, ..*self },
                        ActionView::Begin("comments.json"@),
                    ),
                    Phase::Comments | Phase::Chunk => self.to_comments(),
                    Phase::Closing => (
                        ExportRun { phase: Phase::Closed, ..*self },
                        ActionView::End,
                    ),
                    Phase::Closed => (
                        ExportRun { phase: Phase::Encoding, ..*self },
                        ActionView::Encode,
                    ),
                    Phase::Listing => self.to_file(0),
                    Phase::Naming => (
                        ExportRun { phase: Phase::Copying, ..*self },
                        ActionView::Copy,
                    ),
                    Phase::Empty | Phase::Filed => self.to_file(self.at + 1),
                    _ => (ExportRun { phase: Phase::Done, ..*self }, ActionView::Stop),
                },
            ),
            ExportEvent::Page(Ok((page, elements))) => Ok(
                {
                    let next = ExportRun { comments: self.comments.behind(page@), ..*self };
                    if page@.len() == 0 {
                        next.to_comments()
                    } else {
                        (
                            ExportRun { phase: Phase::Chunk, ..next },
                            ActionView::Data(
                                export::chunk_text(self.comments.first, text::views(elements@)),
                            ),
                        )
                    }
                },
            ),
            ExportEvent::Encoded(Ok(listing)) => Ok(
                (
                    ExportRun { phase: Phase::Listing, ..*self },
                    ActionView::File(
                        "attachments.json"@,
                        export::array_text(text::views(listing@)),
                    ),
                ),
            ),
            ExportEvent::Size(size) => if self.phase is Sizing {
                match size {
                    Err(_) => Err(ExportFailure::Storage),
                    Ok(None) => Ok(self.to_file(self.at + 1)),
                    Ok(Some(n)) => Ok(
                        if n == 0 {
                            (
                                ExportRun { phase: Phase::Empty, ..*self },
                                ActionView::File(self.entry(self.at as int), Seq::empty()),
                            )
                        } else {
                            (
                                ExportRun { phase: Phase::Opening, ..*self },
                                ActionView::Open(self.at as int, n - 1),
                            )
                        },
                    ),
                }
            } else if size matches Ok(Some(_)) {
                Err(ExportFailure::Storage)
            } else {
                Ok(self.to_file(self.at + 1))
            },
            ExportEvent::Opened(done) => Ok(
                if done {
                    (
                        ExportRun { phase: Phase::Naming, ..*self },
                        ActionView::Begin(self.entry(self.at as int)),
                    )
                } else {
                    (
                        ExportRun { phase: Phase::Missing, ..*self },
                        ActionView::AskSize(self.at as int),
                    )
                },
            ),
            ExportEvent::Copied(Ok(more)) => Ok(
                if more {
                    (*self, ActionView::Copy)
                } else {
                    (ExportRun { phase: Phase::Filed, ..*self }, ActionView::End)
                },
            ),
        }
    }

    /// Starts a run with `profile.json`, whose JSON is `profile`.
    pub fn start(
        profile: &str,
        comments: CommentExport,
        files: Vec<ExportAttachment>,
        names: Vec<String>,
    ) -> (r: (Self, ExportAction))
        requires
            names@.len() == files@.len(),
        ensures
            r.0.wf(),
            r.0 == (ExportRun { phase: Phase::Profile, comments, files, names, at: 0 }),
            r.1@ == ActionView::File("profile.json"@, profile@ + "\n"@),
    {
        let action = ExportAction::File {
            name: "profile.json".to_string(),
            text: profile_file(profile),
        };
        (ExportRun { phase: Phase::Profile, comments, files, names, at: 0 }, action)
    }

    fn next_comments(&mut self) -> (r: ExportAction)
        requires
            old(self).wf(),
        ensures
            final(self).wf(),
            (*final(self), r@) == old(self).to_comments(),
    {
        match self.comments.request() {
            Some((workspace, after)) => {
                self.phase = Phase::Paging;
                ExportAction::Fetch { workspace, after }
            },
            None => {
                let text = write_closing(self.comments.first).to_string();
                self.phase = Phase::Closing;
                ExportAction::Data { text }
            },
        }
    }

    fn next_entry(&mut self, from: usize) -> (r: ExportAction)
        requires
            old(self).wf(),
        ensures
            final(self).wf(),
            (*final(self), r@) == old(self).to_file(from as int),
    {
        proof {
            export::law_infected_files_stay_out(self.files@, from as int);
        }
        match next_file(self.files.as_slice(), from) {
            Some(file) => {
                self.at = file;
                self.phase = Phase::Sizing;
                ExportAction::AskSize { file }
            },
            None => {
                self.phase = Phase::Finishing;
                ExportAction::Finish
            },
        }
    }

    fn written(&mut self) -> (r: ExportAction)
        requires
            old(self).wf(),
            answers(*old(self), ExportEvent::Written(Ok(()))),
        ensures
            final(self).wf(),
            old(self).behind(ExportEvent::Written(Ok(()))) == Ok::<_, ExportFailure>(
                (*final(self), r@),
            ),
    {
        match self.phase {
            Phase::Profile => {
                self.phase = Phase::Comments;
                ExportAction::Begin { name: "comments.json".to_string() }
            },
            Phase::Comments | Phase::Chunk => self.next_comments(),
            Phase::Closing => {
                self.phase = Phase::Closed;
                ExportAction::End
            },
            Phase::Closed => {
                self.phase = Phase::Encoding;
                ExportAction::Encode
            },
            Phase::Listing => self.next_entry(0),
            Phase::Naming => {
                self.phase = Phase::Copying;
                ExportAction::Copy
            },
            Phase::Empty | Phase::Filed => {
                assert(self.at < self.files.len());
                self.next_entry(self.at + 1)
            },
            _ => {
                self.phase = Phase::Done;
                ExportAction::Stop
            },
        }
    }

    fn sized(&mut self, size: Result<Option<u64>, DbFailure>) -> (r: Result<
        ExportAction,
        ExportFailure,
    >)
        requires
            old(self).wf(),
            old(self).phase is Sizing || old(self).phase is Missing,
        ensures
            final(self).wf(),
            match old(self).behind(ExportEvent::Size(size)) {
                Ok((next, action)) => *final(self) == next && r is Ok && r->Ok_0@ == action,
                Err(e) => *final(self) == *old(self) && r == Err::<ExportAction, _>(e),
            },
    {
        let at: usize = self.at;
        assert(at < self.files.len());
        if self.phase == Phase::Missing {
            return match open_failed(size) {
                Err(e) => Err(e),
                Ok(_) => Ok(self.next_entry(at + 1)),
            };
        }
        let step = file_step(&self.files[at], size, self.names[at].as_str());
        match step {
            Err(e) => Err(e),
            Ok(FileStep::Skip) => Ok(self.next_entry(at + 1)),
            Ok(FileStep::Empty { name }) => {
                self.phase = Phase::Empty;
                let text: String = String::new();
                Ok(ExportAction::File { name, text })
            },
            Ok(FileStep::Stream { name: _, last }) => {
                self.phase = Phase::Opening;
                Ok(ExportAction::Open { file: at, last })
            },
        }
    }

    /// Goes on behind an event: hands out the next action, or says why the run ends early.
    pub fn step(&mut self, event: ExportEvent) -> (r: Result<ExportAction, ExportFailure>)
        requires
            old(self).wf(),
            answers(*old(self), event),
        ensures
            final(self).wf(),
            match old(self).behind(event) {
                Ok((next, action)) => *final(self) == next && r is Ok && r->Ok_0@ == action,
                Err(e) => *final(self) == *old(self) && r == Err::<ExportAction, _>(e),
            },
    {
        match event {
            ExportEvent::Written(Err(e)) => Err(e),
            ExportEvent::Page(Err(e)) => Err(e),
            ExportEvent::Encoded(Err(e)) => Err(e),
            ExportEvent::Copied(Err(e)) => Err(e),
            ExportEvent::Written(Ok(_)) => Ok(self.written()),
            ExportEvent::Page(Ok((page, elements))) => {
                match self.comments.take_page(page.as_slice(), elements.as_slice()) {
                    Some(text) => {
                        self.phase = Phase::Chunk;
                        Ok(ExportAction::Data { text })
                    },
                    None => {
                        self.phase = Phase::Chunk;
                        Ok(self.next_comments())
                    },
                }
            },
            ExportEvent::Encoded(Ok(listing)) => {
                let text = attachment_listing(listing.as_slice());
                self.phase = Phase::Listing;
                Ok(ExportAction::File { name: "attachments.json".to_string(), text })
            },
            ExportEvent::Size(size) => self.sized(size),
            ExportEvent::Opened(done) => {
                if done {
                    let file = &self.files[self.at];
                    let id = file.id.text();
                    let name = join4("attachments/", id.as_str(), "-", self.names[self.at].as_str());
                    self.phase = Phase::Naming;
                    Ok(ExportAction::Begin { name })
                } else {
                    self.phase = Phase::Missing;
                    Ok(ExportAction::AskSize { file: self.at })
                }
            },
            ExportEvent::Copied(Ok(more)) => {
                if more {
                    Ok(ExportAction::Copy)
                } else {
                    self.phase = Phase::Filed;
                    Ok(ExportAction::End)
                }
            },
        }
    }
}

/// A run behind some events, with the actions that it handed out; none where an event does not
/// answer an action or ends the run early.
pub open spec fn behind_all(run: ExportRun, events: Seq<ExportEvent>) -> Option<
    (ExportRun, Seq<ActionView>),
>
    decreases events.len(),
{
    if events.len() == 0 {
        Some((run, Seq::empty()))
    } else {
        match behind_all(run, events.drop_last()) {
            Some((before, actions)) => if answers(before, events.last()) {
                match before.behind(events.last()) {
                    Ok((next, action)) => Some((next, actions.push(action))),
                    Err(_) => None,
                }
            } else {
                None
            },
            None => None,
        }
    }
}

/// The entries that are begun or written whole, in their order.
pub open spec fn entries(actions: Seq<ActionView>) -> Seq<Seq<char>>
    decreases actions.len(),
{
    if actions.len() == 0 {
        Seq::empty()
    } else {
        let before = entries(actions.drop_last());
        match actions.last() {
            ActionView::File(name, _) => before.push(name),
            ActionView::Begin(name) => before.push(name),
            _ => before,
        }
    }
}

/// The files whose entries are begun or written whole, in their order.
pub open spec fn files_packed(run: ExportRun, events: Seq<ExportEvent>) -> Seq<int>
    decreases events.len(),
{
    match behind_all(run, events) {
        Some((next, actions)) => if events.len() == 0 {
            Seq::empty()
        } else {
            let before = files_packed(run, events.drop_last());
            if next.phase is Empty || next.phase is Naming {
                before.push(next.at as int)
            } else {
                before
            }
        },
        None => Seq::empty(),
    }
}

/// The entries behind `profile.json` that hold no file and were begun by then.
pub open spec fn listings(phase: Phase) -> Seq<Seq<char>> {
    match phase {
        Phase::Profile => Seq::empty(),
        Phase::Comments | Phase::Paging | Phase::Chunk | Phase::Closing | Phase::Closed
        | Phase::Encoding => seq!["comments.json"@],
        _ => seq!["comments.json"@, "attachments.json"@],
    }
}

/// The run is in the middle of an entry.
pub open spec fn inside(phase: Phase) -> bool {
    phase is Comments || phase is Paging || phase is Chunk || phase is Closing || phase is Naming
        || phase is Copying
}

/// What an event leaves as it is, and where the run goes.
proof fn lemma_behind(run: ExportRun, event: ExportEvent)
    requires
        run.wf(),
        answers(run, event),
    ensures
        run.behind(event) matches Ok((next, _)) ==> next.wf() && next.files == run.files
            && next.names == run.names && (next.at != run.at
            || next.phase is Sizing ==> next.phase is Sizing && (run.phase is Listing || run.at
            < next.at)),
{
    assert(run.files@.len() == run.files.len());
    export::law_infected_files_stay_out(run.files@, 0);
    export::law_infected_files_stay_out(run.files@, run.at + 1);
}

/// Behind `profile.json`, with which a run starts, an archive holds `comments.json` and
/// `attachments.json`, in this order, and behind them files that may be packed, none twice and each
/// in its place, under its name. An archive that is cut off holds the first entries of these.
pub proof fn law_entries_in_order(run: ExportRun, events: Seq<ExportEvent>)
    requires
        run.wf(),
        run.phase is Profile,
        behind_all(run, events) is Some,
    ensures
        ({
            let (next, actions) = behind_all(run, events)->0;
            let files = files_packed(run, events);
            &&& entries(actions) == listings(next.phase) + files.map_values(
                |file: int| run.entry(file),
            )
            &&& files.len() > 0 ==> listings(next.phase).len() == 2
            &&& forall|i: int|
                0 <= i < files.len() ==> 0 <= #[trigger] files[i] < run.files@.len()
                    && export::packed(run.files@[files[i]])
            &&& forall|i: int, j: int| 0 <= i < j < files.len() ==> files[i] < files[j]
        }),
{
    lemma_entries(run, events);
}

/// The law, with what carries it from one event to the next.
proof fn lemma_entries(run: ExportRun, events: Seq<ExportEvent>)
    requires
        run.wf(),
        run.phase is Profile,
        behind_all(run, events) is Some,
    ensures
        ({
            let (next, actions) = behind_all(run, events)->0;
            let files = files_packed(run, events);
            &&& next.wf() && next.files == run.files && next.names == run.names
            &&& entries(actions) == listings(next.phase) + files.map_values(
                |file: int| run.entry(file),
            )
            &&& files.len() > 0 ==> listings(next.phase).len() == 2 && !(next.phase is Listing)
            &&& forall|i: int|
                0 <= i < files.len() ==> 0 <= #[trigger] files[i] < run.files@.len()
                    && export::packed(run.files@[files[i]])
            &&& forall|i: int, j: int| 0 <= i < j < files.len() ==> files[i] < files[j]
            &&& forall|i: int|
                0 <= i < files.len() ==> #[trigger] files[i] <= next.at && (files[i] == next.at
                    ==> next.phase is Empty || next.phase is Naming || next.phase is Copying
                    || next.phase is Filed || next.phase is Finishing || next.phase is Done)
        }),
    decreases events.len(),
{
    let f = |file: int| run.entry(file);
    if events.len() > 0 {
        let earlier = events.drop_last();
        lemma_entries(run, earlier);
        let (before, acts) = behind_all(run, earlier)->0;
        let (next, actions) = behind_all(run, events)->0;
        lemma_behind(before, events.last());
        assert(actions.drop_last() == acts);
        let old_files = files_packed(run, earlier);
        let files = files_packed(run, events);
        if next.phase is Empty || next.phase is Naming {
            assert(files.map_values(f) == old_files.map_values(f).push(run.entry(next.at as int)));
            assert(next.entry(next.at as int) == run.entry(next.at as int));
            assert(entries(actions) == entries(acts).push(run.entry(next.at as int)));
        } else {
            assert(files == old_files);
            if old_files.len() == 0 {
                assert(files.map_values(f) == Seq::<Seq<char>>::empty());
            }
        }
        assert(entries(actions) == listings(next.phase) + files.map_values(f));
    } else {
        assert(files_packed(run, events).map_values(f) == Seq::<Seq<char>>::empty());
    }
}

/// Before an event, a run learns from it that the storage has no longer the file that it is at.
pub open spec fn gone(phase: Phase, event: ExportEvent) -> bool {
    match phase {
        Phase::Sizing => event matches ExportEvent::Size(Ok(None)),
        Phase::Missing => event matches ExportEvent::Size(size) && !(size matches Ok(Some(_))),
        _ => false,
    }
}

/// The storage had no longer the file, by what the events say.
pub open spec fn found_gone(run: ExportRun, events: Seq<ExportEvent>, file: int) -> bool
    decreases events.len(),
{
    events.len() > 0 && (found_gone(run, events.drop_last(), file) || match behind_all(
        run,
        events.drop_last(),
    ) {
        Some((before, _)) => before.at == file && gone(before.phase, events.last()),
        None => false,
    })
}

/// The storage was asked for the size of a file.
pub open spec fn asked_for(actions: Seq<ActionView>, file: int) -> bool {
    actions.contains(ActionView::AskSize(file))
}

/// The files before this one are done with.
pub open spec fn done_before(run: ExportRun) -> int {
    match run.phase {
        Phase::Sizing | Phase::Opening | Phase::Missing => run.at as int,
        Phase::Empty | Phase::Naming | Phase::Copying | Phase::Filed => run.at + 1,
        Phase::Finishing | Phase::Done => run.files@.len() as int,
        _ => 0,
    }
}

/// What became of the files by then.
spec fn accounted(run: ExportRun, events: Seq<ExportEvent>) -> bool {
    let (next, actions) = behind_all(run, events)->0;
    let files = files_packed(run, events);
    &&& next.wf() && next.files == run.files
    &&& forall|f: int|
        0 <= f < done_before(next) && export::packed(#[trigger] run.files@[f]) ==> asked_for(
            actions,
            f,
        ) && (files.contains(f) <==> !found_gone(run, events, f))
    &&& forall|f: int| #[trigger] files.contains(f) ==> f < done_before(next)
    &&& forall|f: int| #[trigger] found_gone(run, events, f) ==> f < done_before(next)
    &&& next.phase is Sizing || next.phase is Opening || next.phase is Missing ==> asked_for(
        actions,
        next.at as int,
    )
}

proof fn lemma_accounted(run: ExportRun, events: Seq<ExportEvent>)
    requires
        run.wf(),
        run.phase is Profile,
        behind_all(run, events) is Some,
    ensures
        accounted(run, events),
    decreases events.len(),
{
    if events.len() > 0 {
        let earlier = events.drop_last();
        lemma_accounted(run, earlier);
        let (before, acts) = behind_all(run, earlier)->0;
        let (next, actions) = behind_all(run, events)->0;
        lemma_behind(before, events.last());
        export::law_infected_files_stay_out(run.files@, 0);
        export::law_infected_files_stay_out(run.files@, before.at + 1);
        let files = files_packed(run, events);
        let old_files = files_packed(run, earlier);
        assert forall|f: int| asked_for(acts, f) implies asked_for(actions, f) by {
            let i = choose|i: int| 0 <= i < acts.len() && acts[i] == ActionView::AskSize(f);
            assert(actions[i] == ActionView::AskSize(f));
        }
        assert(actions[actions.len() - 1] == actions.last());
        assert(actions.contains(actions.last()));
        assert forall|f: int| old_files.contains(f) implies files.contains(f) by {
            let i = choose|i: int| 0 <= i < old_files.len() && old_files[i] == f;
            assert(files[i] == f);
        }
        assert forall|f: int| files.contains(f) implies old_files.contains(f) || ((
        next.phase is Empty || next.phase is Naming) && f == next.at) by {
            let i = choose|i: int| 0 <= i < files.len() && files[i] == f;
            if i < old_files.len() {
                assert(old_files[i] == f);
            }
        }
        if next.phase is Empty || next.phase is Naming {
            assert(files.last() == next.at);
            assert(files[files.len() - 1] == next.at);
            assert(files.contains(next.at as int));
        }
        let last = events.last();
        assert forall|f: int| #[trigger] found_gone(run, events, f) implies f < done_before(
            next,
        ) by {
            if !found_gone(run, earlier, f) {
                assert(before.at == f && gone(before.phase, last));
            }
        }
        assert forall|f: int| #[trigger] files.contains(f) implies f < done_before(next) by {}
        assert forall|f: int|
            0 <= f < done_before(next) && export::packed(
                #[trigger] run.files@[f],
            ) implies asked_for(actions, f) && (files.contains(f) <==> !found_gone(run, events, f)) by {
            if f >= done_before(before) {
                assert(f == before.at);
                assert(!old_files.contains(f) && !found_gone(run, earlier, f));
                assert(asked_for(actions, f));
                assert(files.contains(f) <==> next.phase is Empty || next.phase is Naming);
                assert(found_gone(run, events, f) <==> gone(before.phase, last));
            } else {
                assert(asked_for(acts, f));
                assert(found_gone(run, events, f) <==> found_gone(run, earlier, f));
                assert(files.contains(f) <==> old_files.contains(f));
            }
        }
    }
}

/// A run that comes to its end has asked the storage for every file that may be packed, and has
/// packed each of them but those that the storage no longer had.
pub proof fn law_no_file_is_forgotten(run: ExportRun, events: Seq<ExportEvent>, file: int)
    requires
        run.wf(),
        run.phase is Profile,
        behind_all(run, events) matches Some((next, _)) && (next.phase is Finishing
            || next.phase is Done),
        0 <= file < run.files@.len(),
        export::packed(run.files@[file]),
    ensures
        behind_all(run, events) matches Some((_, actions)) && asked_for(actions, file),
        files_packed(run, events).contains(file) <==> !found_gone(run, events, file),
{
    lemma_accounted(run, events);
}

/// How many entries are begun and not ended.
pub open spec fn open_entries(actions: Seq<ActionView>) -> int
    decreases actions.len(),
{
    if actions.len() == 0 {
        0
    } else {
        open_entries(actions.drop_last()) + match actions.last() {
            ActionView::Begin(_) => 1int,
            ActionView::End => -1int,
            _ => 0int,
        }
    }
}

/// The entries of an archive do not overlap: one that is begun is ended before the next is begun
/// or written whole, text and pieces of files are written into an entry that was begun, and the
/// archive ends outside of every entry.
pub proof fn law_entries_do_not_overlap(run: ExportRun, events: Seq<ExportEvent>)
    requires
        run.phase is Profile,
        behind_all(run, events) is Some,
    ensures
        ({
            let (next, actions) = behind_all(run, events)->0;
            &&& open_entries(actions) == if inside(next.phase) {
                1int
            } else {
                0int
            }
            &&& actions.len() > 0 ==> match actions.last() {
                ActionView::File(_, _) | ActionView::Begin(_) => open_entries(
                    actions.drop_last(),
                ) == 0,
                ActionView::Data(_) | ActionView::Copy | ActionView::End => open_entries(
                    actions.drop_last(),
                ) == 1,
                ActionView::Finish | ActionView::Stop => open_entries(actions) == 0,
                _ => true,
            }
        }),
    decreases events.len(),
{
    if events.len() > 0 {
        law_entries_do_not_overlap(run, events.drop_last());
        let (before, acts) = behind_all(run, events.drop_last())->0;
        let (next, actions) = behind_all(run, events)->0;
        assert(actions.drop_last() == acts);
    }
}

/// The texts that are written into entries that were begun, one after the other.
pub open spec fn data_of(actions: Seq<ActionView>) -> Seq<char>
    decreases actions.len(),
{
    if actions.len() == 0 {
        Seq::empty()
    } else {
        data_of(actions.drop_last()) + match actions.last() {
            ActionView::Data(s) => s,
            _ => Seq::empty(),
        }
    }
}

/// The JSON of all comments that were fetched, in turn.
pub open spec fn elements_of(events: Seq<ExportEvent>) -> Seq<Seq<char>>
    decreases events.len(),
{
    if events.len() == 0 {
        Seq::empty()
    } else {
        elements_of(events.drop_last()) + match events.last() {
            ExportEvent::Page(Ok((_, elements))) => text::views(elements@),
            _ => Seq::empty(),
        }
    }
}

/// The comments are still being written.
pub open spec fn before_closing(phase: Phase) -> bool {
    phase is Profile || phase is Comments || phase is Paging || phase is Chunk
}

/// What was written of the comments by then.
proof fn lemma_comments_written(run: ExportRun, events: Seq<ExportEvent>)
    requires
        run.wf(),
        run.phase is Profile,
        run.comments.first,
        behind_all(run, events) is Some,
    ensures
        ({
            let (next, actions) = behind_all(run, events)->0;
            let elements = elements_of(events);
            &&& next.wf()
            &&& before_closing(next.phase) ==> next.comments.first == (elements.len() == 0)
                && data_of(actions) == export::chunk_text(true, elements)
            &&& !before_closing(next.phase) ==> data_of(actions) == export::array_text(elements)
        }),
    decreases events.len(),
{
    if events.len() > 0 {
        let earlier = events.drop_last();
        lemma_comments_written(run, earlier);
        let (before, acts) = behind_all(run, earlier)->0;
        let (next, actions) = behind_all(run, events)->0;
        lemma_behind(before, events.last());
        let old_elements = elements_of(earlier);
        let elements = elements_of(events);
        assert(actions.drop_last() =~= acts);
        if before.phase is Paging {
            if let ExportEvent::Page(Ok((page, more))) = events.last() {
                assert(text::views(more@).len() == more@.len());
                export::lemma_chunks_join(old_elements, text::views(more@));
                if page@.len() == 0 {
                    assert(elements =~= old_elements);
                    if !before_closing(next.phase) {
                        assert(data_of(actions) =~= export::array_text(elements));
                    } else {
                        assert(data_of(actions) =~= data_of(acts));
                    }
                } else {
                    assert(data_of(actions) =~= export::chunk_text(true, elements));
                }
            }
        } else {
            assert(elements =~= old_elements);
            if before_closing(before.phase) && !before_closing(next.phase) {
                assert(data_of(actions) =~= export::array_text(elements));
            } else {
                assert(data_of(actions) =~= data_of(acts));
            }
        }
    } else {
        assert(export::chunk_text(true, elements_of(events)) =~= Seq::<char>::empty());
    }
}

/// In an archive that comes to its end, `comments.json` is one listing of all comments that were
/// fetched, in the order in which they came.
pub proof fn law_comments_are_one_listing(run: ExportRun, events: Seq<ExportEvent>)
    requires
        run.wf(),
        run.phase is Profile,
        run.comments.first,
        behind_all(run, events) matches Some((next, _)) && next.phase is Done,
    ensures
        behind_all(run, events) matches Some((_, actions)) && data_of(actions) == if elements_of(
            events,
        ).len() == 0 {
            "[]\n"@
        } else {
            "[\n"@ + text::joined(elements_of(events), ",\n"@) + "\n]\n"@
        },
{
    lemma_comments_written(run, events);
    export::law_listing_is_a_bracketed_list(elements_of(events));
}

/// A file that the storage has is read whole, from its first byte to its last, and written under
/// its name, piece by piece until there is none left; one without bytes is written as an empty
/// entry.
pub proof fn law_file_is_written_whole(run: ExportRun, n: u64, more: bool)
    requires
        run.wf(),
    ensures
        run.phase is Sizing && n > 0 ==> (run.behind(ExportEvent::Size(Ok(Some(n)))) matches Ok(
            (next, action),
        ) && next.phase is Opening && next.at == run.at && action == ActionView::Open(
            run.at as int,
            n - 1,
        )),
        run.phase is Sizing ==> (run.behind(ExportEvent::Size(Ok(Some(0)))) matches Ok(
            (next, action),
        ) && next.phase is Empty && action == ActionView::File(
            run.entry(run.at as int),
            Seq::empty(),
        )),
        run.phase is Opening ==> (run.behind(ExportEvent::Opened(true)) matches Ok((next, action))
            && next.phase is Naming && next.at == run.at && action == ActionView::Begin(
            run.entry(run.at as int),
        )),
        run.phase is Naming ==> (run.behind(ExportEvent::Written(Ok(()))) matches Ok((next, action))
            && next.phase is Copying && action is Copy),
        run.phase is Copying ==> (run.behind(ExportEvent::Copied(Ok(more))) matches Ok(
            (next, action),
        ) && (more ==> next == run && action is Copy) && (!more ==> next.phase is Filed && action
            is End)),
{
}

/// Any failure ends a run with that failure, and with none of it passed over; one of the storage
/// ends it as such.
pub proof fn law_failures_end_a_run(run: ExportRun, failure: ExportFailure, err: DbFailure)
    ensures
        run.behind(ExportEvent::Written(Err(failure))) == Err::<(ExportRun, ActionView), _>(
            failure,
        ),
        run.behind(ExportEvent::Page(Err(failure))) == Err::<(ExportRun, ActionView), _>(failure),
        run.behind(ExportEvent::Encoded(Err(failure))) == Err::<(ExportRun, ActionView), _>(
            failure,
        ),
        run.behind(ExportEvent::Copied(Err(failure))) == Err::<(ExportRun, ActionView), _>(failure),
        run.phase is Sizing ==> run.behind(ExportEvent::Size(Err(err))) == Err::<
            (ExportRun, ActionView),
            _,
        >(ExportFailure::Storage),
{
}

/// The listing of the files holds the JSON of each of them, in their order.
pub proof fn law_files_are_listed(run: ExportRun, listing: Vec<String>)
    ensures
        run.behind(ExportEvent::Encoded(Ok(listing))) matches Ok((_, action)) && action
            == ActionView::File(
            "attachments.json"@,
            if listing@.len() == 0 {
                "[]\n"@
            } else {
                "[\n"@ + text::joined(text::views(listing@), ",\n"@) + "\n]\n"@
            },
        ),
{
    assert(text::views(listing@).len() == listing@.len());
    export::law_listing_is_a_bracketed_list(text::views(listing@));
}

} // verus!
