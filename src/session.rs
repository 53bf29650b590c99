//! One run of the downloader as a state machine. The caller performs each
//! action the session asks for (fetch the listing, test whether a file
//! exists, download and save a picture) and hands the outcome back as an
//! event; the session decides what comes next and keeps the counts.
use vstd::prelude::*;
use vstd::string::*;
use crate::naming::{
    file_name, file_name_of, image_url, image_url_of, join, joined, listing_address, listing_url,
    wallpaper_dir, wallpaper_dir_of,
};

verus! {

/// Why a run stopped before its end.
#[derive(Clone, Copy, Debug, PartialEq, Eq, Structural)]
pub enum RunError {
    /// The home directory is not known.
    Configuration,
    /// A directory or file could not be created or written.
    Io,
    /// A request failed on the way.
    Network,
    /// The listing did not have the expected shape.
    Parse,
}

/// Where a session stands.
#[derive(Clone, Copy, Debug, PartialEq, Eq, Structural)]
pub enum Phase {
    /// Waiting for the listing of pictures.
    Listing,
    /// Waiting to learn whether the current picture's file exists.
    Checking,
    /// Waiting for the current picture to be downloaded and saved.
    Saving,
    /// Every picture has been handled.
    Done,
    /// The run stopped for good.
    Aborted(RunError),
}

/// One entry of the listing.
#[derive(Debug)]
pub struct ImageDescriptor {
    pub relative_url: String,
    pub date_stamp: String,
    pub attribution: String,
}

pub struct ImageModel {
    pub relative_url: Seq<char>,
    pub date_stamp: Seq<char>,
    pub attribution: Seq<char>,
}

impl View for ImageDescriptor {
    type V = ImageModel;

    open spec fn view(&self) -> ImageModel {
        ImageModel {
            relative_url: self.relative_url@,
            date_stamp: self.date_stamp@,
            attribution: self.attribution@,
        }
    }
}

pub open spec fn images_view(v: Seq<ImageDescriptor>) -> Seq<ImageModel> {
    v.map_values(|d: ImageDescriptor| d@)
}

/// What the caller reports back after performing an action.
#[derive(Debug)]
pub enum Event {
    /// The listing was fetched and read: its entries, in order.
    Listed(Vec<ImageDescriptor>),
    /// Whether the file asked about exists.
    Exists(bool),
    /// The picture was downloaded and written.
    Saved,
    /// The action failed.
    Failed(RunError),
}

pub enum EventModel {
    Listed(Seq<ImageModel>),
    Exists(bool),
    Saved,
    Failed(RunError),
}

impl View for Event {
    type V = EventModel;

    open spec fn view(&self) -> EventModel {
        match self {
            Event::Listed(v) => EventModel::Listed(images_view(v@)),
            Event::Exists(b) => EventModel::Exists(*b),
            Event::Saved => EventModel::Saved,
            Event::Failed(e) => EventModel::Failed(*e),
        }
    }
}

/// Counts reported at the end of a run.
#[derive(Clone, Copy, Debug, PartialEq, Eq, Structural)]
pub struct Summary {
    pub total: usize,
    pub downloaded: usize,
    pub skipped: usize,
}

/// What the caller is asked to do next.
#[derive(Debug)]
pub enum Action {
    /// Fetch and read the listing at this address.
    FetchListing { url: String },
    /// Tell whether a file exists at this path.
    CheckExists { path: String },
    /// Download the picture at `url` and write it to `path`.
    Save { url: String, path: String },
    /// The run is over: report the counts.
    Finish(Summary),
    /// The run stopped: report the error.
    Abort(RunError),
}

pub enum ActionModel {
    FetchListing { url: Seq<char> },
    CheckExists { path: Seq<char> },
    Save { url: Seq<char>, path: Seq<char> },
    Finish { total: nat, downloaded: nat, skipped: nat },
    Abort(RunError),
}

impl View for Action {
    type V = ActionModel;

    open spec fn view(&self) -> ActionModel {
        match self {
            Action::FetchListing { url } => ActionModel::FetchListing { url: url@ },
            Action::CheckExists { path } => ActionModel::CheckExists { path: path@ },
            Action::Save { url, path } => ActionModel::Save { url: url@, path: path@ },
            Action::Finish(s) => ActionModel::Finish {
                total: s.total as nat,
                downloaded: s.downloaded as nat,
                skipped: s.skipped as nat,
            },
            Action::Abort(e) => ActionModel::Abort(*e),
        }
    }
}

/// A line for the log about one picture.
#[derive(Debug)]
pub enum Note {
    /// The file at this path existed, so the picture was not fetched.
    Skipped(String),
    /// The picture was saved at this path.
    Downloaded(String),
}

pub enum NoteModel {
    Skipped(Seq<char>),
    Downloaded(Seq<char>),
}

impl View for Note {
    type V = NoteModel;

    open spec fn view(&self) -> NoteModel {
        match self {
            Note::Skipped(p) => NoteModel::Skipped(p@),
            Note::Downloaded(p) => NoteModel::Downloaded(p@),
        }
    }
}

pub open spec fn note_view(n: Option<Note>) -> Option<NoteModel> {
    match n {
        Some(n) => Some(n@),
        None => None,
    }
}

/// The outcome of one step: an optional log line and the next action.
#[derive(Debug)]
pub struct Step {
    pub note: Option<Note>,
    pub action: Action,
}

/// The state of a session, as the contracts speak of it.
pub struct SessionModel {
    pub dir: Seq<char>,
    pub images: Seq<ImageModel>,
    pub index: nat,
    pub downloaded: nat,
    pub skipped: nat,
    pub phase: Phase,
}

impl SessionModel {
    pub open spec fn wf(self) -> bool {
        &&& self.index <= self.images.len()
        &&& self.downloaded + self.skipped == self.index
        &&& (self.phase is Listing ==> self.images.len() == 0 && self.index == 0)
        &&& (self.phase is Checking || self.phase is Saving ==> self.index < self.images.len())
        &&& (self.phase is Done ==> self.index == self.images.len())
    }

    /// The path the picture at position `k` is saved under.
    pub open spec fn path_of(self, k: int) -> Seq<char> {
        joined(self.dir, file_name_of(self.images[k].date_stamp, self.images[k].attribution))
    }

    /// The address the picture at position `k` is downloaded from.
    pub open spec fn url_of(self, k: int) -> Seq<char> {
        image_url_of(self.images[k].relative_url)
    }

    /// The action the session waits on.
    pub open spec fn pending(self) -> ActionModel {
        match self.phase {
            Phase::Listing => ActionModel::FetchListing { url: listing_url() },
            Phase::Checking => ActionModel::CheckExists { path: self.path_of(self.index as int) },
            Phase::Saving => ActionModel::Save {
                url: self.url_of(self.index as int),
                path: self.path_of(self.index as int),
            },
            Phase::Done => ActionModel::Finish {
                total: self.images.len(),
                downloaded: self.downloaded,
                skipped: self.skipped,
            },
            Phase::Aborted(e) => ActionModel::Abort(e),
        }
    }

    /// Checking the next picture, or done when none is left.
    pub open spec fn settled(self) -> SessionModel {
        SessionModel {
            phase: if self.index < self.images.len() { Phase::Checking } else { Phase::Done },
            ..self
        }
    }

    /// The state after an event. An event that does not answer the pending
    /// action leaves the state as it is.
    pub open spec fn after(self, e: EventModel) -> SessionModel {
        match (self.phase, e) {
            (Phase::Listing, EventModel::Listed(images)) => SessionModel {
                images,
                index: 0,
                downloaded: 0,
                skipped: 0,
                ..self
            }.settled(),
            (Phase::Checking, EventModel::Exists(true)) => SessionModel {
                index: self.index + 1,
                skipped: self.skipped + 1,
                ..self
            }.settled(),
            (Phase::Checking, EventModel::Exists(false)) => SessionModel {
                phase: Phase::Saving,
                ..self
            },
            (Phase::Saving, EventModel::Saved) => SessionModel {
                index: self.index + 1,
                downloaded: self.downloaded + 1,
                ..self
            }.settled(),
            (Phase::Listing, EventModel::Failed(err)) => SessionModel {
                phase: Phase::Aborted(err),
                ..self
            },
            (Phase::Checking, EventModel::Failed(err)) => SessionModel {
                phase: Phase::Aborted(err),
                ..self
            },
            (Phase::Saving, EventModel::Failed(err)) => SessionModel {
                phase: Phase::Aborted(err),
                ..self
            },
            _ => self,
        }
    }

    /// The log line an event gives rise to.
    pub open spec fn note(self, e: EventModel) -> Option<NoteModel> {
        match (self.phase, e) {
            (Phase::Checking, EventModel::Exists(true)) => Some(
                NoteModel::Skipped(self.path_of(self.index as int)),
            ),
            (Phase::Saving, EventModel::Saved) => Some(
                NoteModel::Downloaded(self.path_of(self.index as int)),
            ),
            _ => None,
        }
    }
}

/// A session that saves pictures in one directory.
pub struct Session {
    dir: String,
    images: Vec<ImageDescriptor>,
    index: usize,
    downloaded: usize,
    skipped: usize,
    phase: Phase,
}

impl View for Session {
    type V = SessionModel;

    closed spec fn view(&self) -> SessionModel {
        SessionModel {
            dir: self.dir@,
            images: images_view(self.images@),
            index: self.index as nat,
            downloaded: self.downloaded as nat,
            skipped: self.skipped as nat,
            phase: self.phase,
        }
    }
}

/// A fresh session: it waits for the listing.
pub open spec fn initial(dir: Seq<char>) -> SessionModel {
    SessionModel {
        dir,
        images: Seq::empty(),
        index: 0,
        downloaded: 0,
        skipped: 0,
        phase: Phase::Listing,
    }
}

impl Session {
    pub closed spec fn wf(&self) -> bool {
        self@.wf()
    }

    /// A session that will save pictures in `dir`.
    pub fn new(dir: String) -> (r: Session)
        ensures
            r.wf(),
            r@ == initial(dir@),
    {
        let r = Session {
            dir,
            images: Vec::new(),
            index: 0,
            downloaded: 0,
            skipped: 0,
            phase: Phase::Listing,
        };
        assert(images_view(r.images@) =~= Seq::empty());
        r
    }

    /// Where the current picture is saved.
    fn current_path(&self) -> (r: String)
        requires
            self.wf(),
            self.index < self.images@.len(),
        ensures
            r@ == self@.path_of(self.index as int),
    {
        let d = &self.images[self.index];
        let name = file_name(d.date_stamp.as_str(), d.attribution.as_str());
        join(self.dir.as_str(), name.as_str())
    }

    /// The action the session waits on.
    pub fn pending_action(&self) -> (r: Action)
        requires
            self.wf(),
        ensures
            r@ == self@.pending(),
    {
        match self.phase {
            Phase::Listing => Action::FetchListing { url: listing_address() },
            Phase::Checking => Action::CheckExists { path: self.current_path() },
            Phase::Saving => {
                let url = image_url(self.images[self.index].relative_url.as_str());
                Action::Save { url, path: self.current_path() }
            },
            Phase::Done => Action::Finish(
                Summary {
                    total: self.images.len(),
                    downloaded: self.downloaded,
                    skipped: self.skipped,
                },
            ),
            Phase::Aborted(e) => Action::Abort(e),
        }
    }

    fn settle(&mut self)
        requires
            old(self).index <= old(self).images@.len(),
        ensures
            final(self)@ == old(self)@.settled(),
    {
        if self.index < self.images.len() {
            self.phase = Phase::Checking;
        } else {
            self.phase = Phase::Done;
        }
    }

    /// Takes the outcome of the pending action and returns the next one,
    /// with a log line when a picture was skipped or saved.
    pub fn step(&mut self, event: Event) -> (r: Step)
        requires
            old(self).wf(),
        ensures
            final(self).wf(),
            final(self)@ == old(self)@.after(event@),
            note_view(r.note) == old(self)@.note(event@),
            r.action@ == final(self)@.pending(),
    {
        let note = match (self.phase, event) {
            (Phase::Listing, Event::Listed(images)) => {
                self.images = images;
                self.index = 0;
                self.downloaded = 0;
                self.skipped = 0;
                self.settle();
                None
            },
            (Phase::Checking, Event::Exists(true)) => {
                let count = self.images.len();
                assert(self@.images.len() == count);
                let path = self.current_path();
                self.index = self.index + 1;
                self.skipped = self.skipped + 1;
                self.settle();
                Some(Note::Skipped(path))
            },
            (Phase::Checking, Event::Exists(false)) => {
                self.phase = Phase::Saving;
                None
            },
            (Phase::Saving, Event::Saved) => {
                let count = self.images.len();
                assert(self@.images.len() == count);
                let path = self.current_path();
                self.index = self.index + 1;
                self.downloaded = self.downloaded + 1;
                self.settle();
                Some(Note::Downloaded(path))
            },
            (Phase::Listing, Event::Failed(err))
            | (Phase::Checking, Event::Failed(err))
            | (Phase::Saving, Event::Failed(err)) => {
                self.phase = Phase::Aborted(err);
                None
            },
            _ => None,
        };
        Step { note, action: self.pending_action() }
    }
}

/// The save directory below the home directory, or a configuration error
/// when the home directory is not known.
pub fn resolve_dir(home: Option<String>) -> (r: Result<String, RunError>)
    ensures
        home is None <==> r == Err::<String, RunError>(RunError::Configuration),
        home is Some ==> r is Ok && r->Ok_0@ == wallpaper_dir_of(home->Some_0@),
{
    match home {
        Some(h) => Ok(wallpaper_dir(h.as_str())),
        None => Err(RunError::Configuration),
    }
}

} // verus!
