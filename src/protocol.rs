use vstd::prelude::*;
use crate::store::{
    data_dir_of, path_view, root_file_of, PathView, StoreError, StoreFault, StoreLayout,
};

verus! {

/// What the file system reported for the last request.
pub enum IoEvent {
    /// Whether something exists at the probed path.
    Exists(bool),
    /// The outcome of creating directories, creating a file or writing.
    Done(Result<(), String>),
    /// The outcome of reading a whole file as text.
    Text(Result<String, String>),
}

/// The mathematical value of an `IoEvent`.
pub enum IoReport {
    Exists(bool),
    Done(Result<(), Seq<char>>),
    Text(Result<Seq<char>, Seq<char>>),
}

impl View for IoEvent {
    type V = IoReport;

    open spec fn view(&self) -> IoReport {
        match self {
            IoEvent::Exists(b) => IoReport::Exists(*b),
            IoEvent::Done(Ok(())) => IoReport::Done(Ok(())),
            IoEvent::Done(Err(e)) => IoReport::Done(Err(e@)),
            IoEvent::Text(Ok(t)) => IoReport::Text(Ok(t@)),
            IoEvent::Text(Err(e)) => IoReport::Text(Err(e@)),
        }
    }
}

// ---------------------------------------------------------------- save

/// How far a save has got.
#[derive(PartialEq, Eq, Structural, Clone, Copy)]
pub enum SavePhase {
    ProbingDir,
    CreatingDir,
    CreatingFile,
    Writing,
    Finished,
}

/// What a save asks of the file system next, or how it ended.
pub enum SaveAction {
    /// Report whether the data directory exists.
    ProbeDir(Vec<String>),
    /// Create the directory and every missing ancestor.
    CreateDirAll(Vec<String>),
    /// Create the file, truncating it if it exists, and keep it open.
    CreateFile(Vec<String>),
    /// Write all of these characters' bytes to the open file.
    WriteAll(String),
    /// The save is over.
    Finish(Result<(), StoreError>),
}

/// The mathematical value of a `SaveAction`.
pub enum SaveCmd {
    ProbeDir(PathView),
    CreateDirAll(PathView),
    CreateFile(PathView),
    WriteAll(Seq<char>),
    Finish(Result<(), StoreFault>),
}

impl View for SaveAction {
    type V = SaveCmd;

    open spec fn view(&self) -> SaveCmd {
        match self {
            SaveAction::ProbeDir(p) => SaveCmd::ProbeDir(path_view(*p)),
            SaveAction::CreateDirAll(p) => SaveCmd::CreateDirAll(path_view(*p)),
            SaveAction::CreateFile(p) => SaveCmd::CreateFile(path_view(*p)),
            SaveAction::WriteAll(d) => SaveCmd::WriteAll(d@),
            SaveAction::Finish(Ok(())) => SaveCmd::Finish(Ok(())),
            SaveAction::Finish(Err(e)) => SaveCmd::Finish(Err(e@)),
        }
    }
}

/// Whether a save in `phase` can take `ev` as the answer to its last request.
pub open spec fn save_accepts(phase: SavePhase, ev: IoReport) -> bool {
    match phase {
        SavePhase::ProbingDir => ev is Exists,
        SavePhase::CreatingDir | SavePhase::CreatingFile | SavePhase::Writing => ev is Done,
        SavePhase::Finished => false,
    }
}

/// The decision a save of `data` under `documents` makes in `phase` on `ev`:
/// the next phase and the next command.
pub open spec fn save_next(documents: Seq<char>, data: Seq<char>, phase: SavePhase, ev: IoReport)
    -> (SavePhase, SaveCmd) {
    match (phase, ev) {
        (SavePhase::ProbingDir, IoReport::Exists(true)) => (
            SavePhase::CreatingFile,
            SaveCmd::CreateFile(root_file_of(documents)),
        ),
        (SavePhase::ProbingDir, IoReport::Exists(false)) => (
            SavePhase::CreatingDir,
            SaveCmd::CreateDirAll(data_dir_of(documents)),
        ),
        (SavePhase::CreatingDir, IoReport::Done(Ok(()))) => (
            SavePhase::CreatingFile,
            SaveCmd::CreateFile(root_file_of(documents)),
        ),
        (SavePhase::CreatingDir, IoReport::Done(Err(e))) => (
            SavePhase::Finished,
            SaveCmd::Finish(Err(StoreFault::DirectoryCreate(e))),
        ),
        (SavePhase::CreatingFile, IoReport::Done(Ok(()))) => (
            SavePhase::Writing,
            SaveCmd::WriteAll(data),
        ),
        (SavePhase::CreatingFile, IoReport::Done(Err(e))) => (
            SavePhase::Finished,
            SaveCmd::Finish(Err(StoreFault::FileCreate(e))),
        ),
        (SavePhase::Writing, IoReport::Done(Ok(()))) => (
            SavePhase::Finished,
            SaveCmd::Finish(Ok(())),
        ),
        (SavePhase::Writing, IoReport::Done(Err(e))) => (
            SavePhase::Finished,
            SaveCmd::Finish(Err(StoreFault::Write(e))),
        ),
        _ => (phase, SaveCmd::Finish(Ok(()))),
    }
}

/// A save of one payload in progress.
pub struct SaveOp {
    pub layout: StoreLayout,
    pub data: String,
    pub phase: SavePhase,
}

impl SaveOp {
    /// Starts saving `data`: the first request is to probe the data directory.
    pub fn begin(layout: StoreLayout, data: String) -> (r: (SaveOp, SaveAction))
        ensures
            r.0.layout == layout,
            r.0.data == data,
            r.0.phase == SavePhase::ProbingDir,
            r.1@ == SaveCmd::ProbeDir(data_dir_of(layout.documents@)),
    {
        let dir = layout.data_dir();
        (SaveOp { layout, data, phase: SavePhase::ProbingDir }, SaveAction::ProbeDir(dir))
    }

    /// Whether `ev` answers the request this save made last.
    pub fn accepts(&self, ev: &IoEvent) -> (r: bool)
        ensures
            r == save_accepts(self.phase, ev@),
    {
        match self.phase {
            SavePhase::ProbingDir => matches!(ev, IoEvent::Exists(_)),
            SavePhase::CreatingDir | SavePhase::CreatingFile | SavePhase::Writing => matches!(
                ev,
                IoEvent::Done(_)
            ),
            SavePhase::Finished => false,
        }
    }

    /// Takes the answer to the last request and decides what comes next.
    pub fn step(&mut self, ev: IoEvent) -> (a: SaveAction)
        requires
            save_accepts(old(self).phase, ev@),
        ensures
            final(self).layout == old(self).layout,
            final(self).data == old(self).data,
            (final(self).phase, a@) == save_next(
                old(self).layout.documents@,
                old(self).data@,
                old(self).phase,
                ev@,
            ),
    {
        match ev {
            IoEvent::Exists(true) => {
                self.phase = SavePhase::CreatingFile;
                SaveAction::CreateFile(self.layout.root_file())
            },
            IoEvent::Exists(false) => {
                self.phase = SavePhase::CreatingDir;
                SaveAction::CreateDirAll(self.layout.data_dir())
            },
            IoEvent::Done(Ok(())) => {
                match self.phase {
                    SavePhase::CreatingDir => {
                        self.phase = SavePhase::CreatingFile;
                        SaveAction::CreateFile(self.layout.root_file())
                    },
                    SavePhase::CreatingFile => {
                        self.phase = SavePhase::Writing;
                        SaveAction::WriteAll(self.data.clone())
                    },
                    _ => {
                        self.phase = SavePhase::Finished;
                        SaveAction::Finish(Ok(()))
                    },
                }
            },
            IoEvent::Done(Err(e)) => {
                let err = match self.phase {
                    SavePhase::CreatingDir => StoreError::DirectoryCreate(e),
                    SavePhase::CreatingFile => StoreError::FileCreate(e),
                    _ => StoreError::Write(e),
                };
                self.phase = SavePhase::Finished;
                SaveAction::Finish(Err(err))
            },
            IoEvent::Text(_) => SaveAction::Finish(Ok(())),
        }
    }
}

// ---------------------------------------------------------------- load

/// How far a load has got.
#[derive(PartialEq, Eq, Structural, Clone, Copy)]
pub enum LoadPhase {
    ProbingFile,
    Reading,
    Finished,
}

/// What a load asks of the file system next, or how it ended.
pub enum LoadAction {
    /// Report whether the payload file exists.
    ProbeFile(Vec<String>),
    /// Open the file and read all of it as text.
    ReadToString(Vec<String>),
    /// The load is over.
    Finish(Result<String, StoreError>),
}

/// The mathematical value of a `LoadAction`.
pub enum LoadCmd {
    ProbeFile(PathView),
    ReadToString(PathView),
    Finish(Result<Seq<char>, StoreFault>),
}

impl View for LoadAction {
    type V = LoadCmd;

    open spec fn view(&self) -> LoadCmd {
        match self {
            LoadAction::ProbeFile(p) => LoadCmd::ProbeFile(path_view(*p)),
            LoadAction::ReadToString(p) => LoadCmd::ReadToString(path_view(*p)),
            LoadAction::Finish(Ok(t)) => LoadCmd::Finish(Ok(t@)),
            LoadAction::Finish(Err(e)) => LoadCmd::Finish(Err(e@)),
        }
    }
}

/// Whether a load in `phase` can take `ev` as the answer to its last request.
pub open spec fn load_accepts(phase: LoadPhase, ev: IoReport) -> bool {
    match phase {
        LoadPhase::ProbingFile => ev is Exists,
        LoadPhase::Reading => ev is Text,
        LoadPhase::Finished => false,
    }
}

/// The decision a load under `documents` makes in `phase` on `ev`: a missing
/// file is an empty payload, not an error.
pub open spec fn load_next(documents: Seq<char>, phase: LoadPhase, ev: IoReport) -> (
    LoadPhase,
    LoadCmd,
) {
    match (phase, ev) {
        (LoadPhase::ProbingFile, IoReport::Exists(true)) => (
            LoadPhase::Reading,
            LoadCmd::ReadToString(root_file_of(documents)),
        ),
        (LoadPhase::ProbingFile, IoReport::Exists(false)) => (
            LoadPhase::Finished,
            LoadCmd::Finish(Ok(Seq::empty())),
        ),
        (LoadPhase::Reading, IoReport::Text(Ok(t))) => (LoadPhase::Finished, LoadCmd::Finish(Ok(t))),
        (LoadPhase::Reading, IoReport::Text(Err(e))) => (
            LoadPhase::Finished,
            LoadCmd::Finish(Err(StoreFault::Read(e))),
        ),
        _ => (phase, LoadCmd::Finish(Ok(Seq::empty()))),
    }
}

/// A load of the payload in progress.
pub struct LoadOp {
    pub layout: StoreLayout,
    pub phase: LoadPhase,
}

impl LoadOp {
    /// Starts a load: the first request is to probe the payload file.
    pub fn begin(layout: StoreLayout) -> (r: (LoadOp, LoadAction))
        ensures
            r.0.layout == layout,
            r.0.phase == LoadPhase::ProbingFile,
            r.1@ == LoadCmd::ProbeFile(root_file_of(layout.documents@)),
    {
        let file = layout.root_file();
        (LoadOp { layout, phase: LoadPhase::ProbingFile }, LoadAction::ProbeFile(file))
    }

    /// Whether `ev` answers the request this load made last.
    pub fn accepts(&self, ev: &IoEvent) -> (r: bool)
        ensures
            r == load_accepts(self.phase, ev@),
    {
        match self.phase {
            LoadPhase::ProbingFile => matches!(ev, IoEvent::Exists(_)),
            LoadPhase::Reading => matches!(ev, IoEvent::Text(_)),
            LoadPhase::Finished => false,
        }
    }

    /// Takes the answer to the last request and decides what comes next.
    pub fn step(&mut self, ev: IoEvent) -> (a: LoadAction)
        requires
            load_accepts(old(self).phase, ev@),
        ensures
            final(self).layout == old(self).layout,
            (final(self).phase, a@) == load_next(old(self).layout.documents@, old(self).phase, ev@),
    {
        match ev {
            IoEvent::Exists(true) => {
                self.phase = LoadPhase::Reading;
                LoadAction::ReadToString(self.layout.root_file())
            },
            IoEvent::Exists(false) => {
                self.phase = LoadPhase::Finished;
                LoadAction::Finish(Ok(String::new()))
            },
            IoEvent::Text(Ok(t)) => {
                self.phase = LoadPhase::Finished;
                LoadAction::Finish(Ok(t))
            },
            IoEvent::Text(Err(e)) => {
                self.phase = LoadPhase::Finished;
                LoadAction::Finish(Err(StoreError::Read(e)))
            },
            IoEvent::Done(_) => LoadAction::Finish(Ok(String::new())),
        }
    }
}

} // verus!
