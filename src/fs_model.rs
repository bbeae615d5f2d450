use vstd::prelude::*;
use crate::protocol::{load_next, save_next, IoReport, LoadCmd, LoadPhase, SaveCmd, SavePhase};
use crate::store::{data_dir_of, root_file_of, PathView, StoreFault};

verus! {

/// A file system as std::fs documents it, seen through the paths the store
/// uses: a set of directories and a map from file paths to their text.
pub struct FsModel {
    pub dirs: Set<PathView>,
    pub files: Map<PathView, Seq<char>>,
}

/// `q` is `p` or one of its ancestors (never the empty path).
pub open spec fn is_prefix_path(q: PathView, p: PathView) -> bool {
    1 <= q.len() <= p.len() && q == p.take(q.len() as int)
}

/// Description the model gives for a failed request.
pub open spec fn failure_text() -> Seq<char> {
    seq!['e', 'r', 'r', 'o', 'r']
}

impl FsModel {
    /// No path is both a file and a directory, and every ancestor of a
    /// directory is a directory.
    pub open spec fn wf(self) -> bool {
        &&& forall|p: PathView| #[trigger] self.dirs.contains(p) ==> !self.files.contains_key(p)
        &&& forall|p: PathView, q: PathView|
            #[trigger] self.dirs.contains(p) && #[trigger] is_prefix_path(q, p)
                ==> self.dirs.contains(q)
    }

    /// Something, a file or a directory, is at `p`.
    pub open spec fn exists_at(self, p: PathView) -> bool {
        self.dirs.contains(p) || self.files.contains_key(p)
    }

    /// A file sits at `p` or at one of its ancestors.
    pub open spec fn blocks(self, p: PathView) -> bool {
        exists|q: PathView| #[trigger] is_prefix_path(q, p) && self.files.contains_key(q)
    }

    /// The store cannot work here: a file is in the way of the data directory,
    /// or a directory sits where the payload file goes.
    pub open spec fn obstructs(self, documents: Seq<char>) -> bool {
        self.blocks(data_dir_of(documents)) || self.dirs.contains(root_file_of(documents))
    }

    /// `create_dir_all(p)`: fails where a file is in the way, else makes `p`
    /// and all its ancestors directories.
    pub open spec fn create_dir_all(self, p: PathView) -> (FsModel, IoReport) {
        if self.blocks(p) {
            (self, IoReport::Done(Err(failure_text())))
        } else {
            (
                FsModel {
                    dirs: self.dirs.union(Set::new(|q: PathView| is_prefix_path(q, p))),
                    files: self.files,
                },
                IoReport::Done(Ok(())),
            )
        }
    }

    /// `File::create(p)`: needs the parent to be a directory and `p` not to be
    /// one; makes `p` an empty file, truncating what it held.
    pub open spec fn create_file(self, p: PathView) -> (FsModel, IoReport) {
        if p.len() < 2 || !self.dirs.contains(p.drop_last()) || self.dirs.contains(p) {
            (self, IoReport::Done(Err(failure_text())))
        } else {
            (FsModel { dirs: self.dirs, files: self.files.insert(p, Seq::empty()) }, IoReport::Done(Ok(())))
        }
    }

    /// `write_all` on the file opened at `p`: the file holds `data` after it.
    pub open spec fn write_all(self, p: PathView, data: Seq<char>) -> (FsModel, IoReport) {
        (FsModel { dirs: self.dirs, files: self.files.insert(p, data) }, IoReport::Done(Ok(())))
    }

    /// `read_to_string(p)`: the text of the file at `p`.
    pub open spec fn read_to_string(self, p: PathView) -> IoReport {
        if self.files.contains_key(p) {
            IoReport::Text(Ok(self.files[p]))
        } else {
            IoReport::Text(Err(failure_text()))
        }
    }
}

/// A save driven against the model: the file system, the save's phase, its
/// pending command, and the file it has open.
pub struct SaveRun {
    pub fs: FsModel,
    pub phase: SavePhase,
    pub cmd: SaveCmd,
    pub open: PathView,
}

/// Carries out the pending command of a save on the model and lets the save
/// decide on the answer; a finished save stays as it is.
pub open spec fn save_advance(documents: Seq<char>, data: Seq<char>, r: SaveRun) -> SaveRun {
    let (fs, ev, open) = match r.cmd {
        SaveCmd::ProbeDir(p) => (r.fs, IoReport::Exists(r.fs.exists_at(p)), r.open),
        SaveCmd::CreateDirAll(p) => {
            let (fs, ev) = r.fs.create_dir_all(p);
            (fs, ev, r.open)
        },
        SaveCmd::CreateFile(p) => {
            let (fs, ev) = r.fs.create_file(p);
            (fs, ev, p)
        },
        SaveCmd::WriteAll(d) => {
            let (fs, ev) = r.fs.write_all(r.open, d);
            (fs, ev, r.open)
        },
        SaveCmd::Finish(_) => (r.fs, IoReport::Exists(false), r.open),
    };
    if r.cmd is Finish {
        r
    } else {
        let (phase, cmd) = save_next(documents, data, r.phase, ev);
        SaveRun { fs, phase, cmd, open }
    }
}

/// A save of `data` run on `fs` for as many requests as it can make.
pub open spec fn run_save(fs: FsModel, documents: Seq<char>, data: Seq<char>) -> SaveRun {
    let start = SaveRun {
        fs,
        phase: SavePhase::ProbingDir,
        cmd: SaveCmd::ProbeDir(data_dir_of(documents)),
        open: Seq::empty(),
    };
    save_advance(
        documents,
        data,
        save_advance(documents, data, save_advance(documents, data, save_advance(documents, data, start))),
    )
}

/// How a save run ended, if it did.
pub open spec fn save_outcome(r: SaveRun) -> Option<Result<(), StoreFault>> {
    match r.cmd {
        SaveCmd::Finish(res) => Some(res),
        _ => None,
    }
}

/// A load run on `fs`: its phase and pending command.
pub open spec fn load_advance(fs: FsModel, documents: Seq<char>, phase: LoadPhase, cmd: LoadCmd) -> (
    LoadPhase,
    LoadCmd,
) {
    match cmd {
        LoadCmd::ProbeFile(p) => load_next(documents, phase, IoReport::Exists(fs.exists_at(p))),
        LoadCmd::ReadToString(p) => load_next(documents, phase, fs.read_to_string(p)),
        LoadCmd::Finish(_) => (phase, cmd),
    }
}

/// How a load on `fs` ends, if it does.
pub open spec fn run_load(fs: FsModel, documents: Seq<char>) -> Option<Result<Seq<char>, StoreFault>> {
    let (p1, c1) = load_advance(
        fs,
        documents,
        LoadPhase::ProbingFile,
        LoadCmd::ProbeFile(root_file_of(documents)),
    );
    let (_p2, c2) = load_advance(fs, documents, p1, c1);
    match c2 {
        LoadCmd::Finish(res) => Some(res),
        _ => None,
    }
}

proof fn lemma_layout_shape(documents: Seq<char>)
    ensures
        root_file_of(documents).drop_last() == data_dir_of(documents),
        root_file_of(documents).len() == 4,
        data_dir_of(documents).len() == 3,
{
    assert(root_file_of(documents).drop_last() =~= data_dir_of(documents));
}

/// A save on a file system that does not obstruct the store succeeds and
/// leaves the data directory, its ancestors, and the payload file in place.
pub proof fn lemma_save_succeeds(fs: FsModel, documents: Seq<char>, data: Seq<char>)
    requires
        !fs.obstructs(documents),
    ensures
        save_outcome(run_save(fs, documents, data)) == Some(Ok::<(), StoreFault>(())),
        run_save(fs, documents, data).fs.files.contains_key(root_file_of(documents)),
        run_save(fs, documents, data).fs.files[root_file_of(documents)] == data,
        run_save(fs, documents, data).fs.dirs.contains(data_dir_of(documents)),
        !run_save(fs, documents, data).fs.obstructs(documents),
        fs.dirs.subset_of(run_save(fs, documents, data).fs.dirs),
{
    lemma_layout_shape(documents);
    let dir = data_dir_of(documents);
    let file = root_file_of(documents);
    assert(is_prefix_path(dir, dir)) by {
        assert(dir.take(3) =~= dir);
    }
    let end = run_save(fs, documents, data);
    assert(!end.fs.blocks(dir)) by {
        assert forall|q: PathView| #[trigger] is_prefix_path(q, dir) implies !end.fs.files.contains_key(q) by {
            assert(q != file);
            assert(!fs.files.contains_key(q));
        }
    }
}

/// Whatever a save stores, a load right after it returns exactly.
pub proof fn lemma_round_trip(fs: FsModel, documents: Seq<char>, s: Seq<char>)
    requires
        !fs.obstructs(documents),
    ensures
        save_outcome(run_save(fs, documents, s)) == Some(Ok::<(), StoreFault>(())),
        run_load(run_save(fs, documents, s).fs, documents) == Some(Ok::<Seq<char>, StoreFault>(s)),
{
    lemma_save_succeeds(fs, documents, s);
}

/// A load where no payload file exists yet returns the empty text, not an error.
pub proof fn lemma_first_run(fs: FsModel, documents: Seq<char>)
    requires
        !fs.exists_at(root_file_of(documents)),
    ensures
        run_load(fs, documents) == Some(Ok::<Seq<char>, StoreFault>(Seq::empty())),
{
}

/// Saving `a` and then `b` leaves `b`, all of it and nothing of `a`, for a load.
pub proof fn lemma_overwrite(fs: FsModel, documents: Seq<char>, a: Seq<char>, b: Seq<char>)
    requires
        !fs.obstructs(documents),
    ensures
        save_outcome(run_save(run_save(fs, documents, a).fs, documents, b)) == Some(
            Ok::<(), StoreFault>(()),
        ),
        run_load(run_save(run_save(fs, documents, a).fs, documents, b).fs, documents) == Some(
            Ok::<Seq<char>, StoreFault>(b),
        ),
{
    lemma_save_succeeds(fs, documents, a);
    lemma_round_trip(run_save(fs, documents, a).fs, documents, b);
}

/// A save where the data directory does not exist yet succeeds and creates it
/// together with every missing ancestor.
pub proof fn lemma_creates_directories(fs: FsModel, documents: Seq<char>, data: Seq<char>)
    requires
        !fs.obstructs(documents),
        !fs.exists_at(data_dir_of(documents)),
    ensures
        save_outcome(run_save(fs, documents, data)) == Some(Ok::<(), StoreFault>(())),
        forall|q: PathView|
            #[trigger] is_prefix_path(q, data_dir_of(documents)) ==> run_save(
                fs,
                documents,
                data,
            ).fs.dirs.contains(q),
{
    lemma_save_succeeds(fs, documents, data);
}

/// Where a file stands in the way of the data directory, a save reports an
/// error instead of succeeding.
pub proof fn lemma_blocked_save_fails(fs: FsModel, documents: Seq<char>, data: Seq<char>)
    requires
        fs.wf(),
        fs.blocks(data_dir_of(documents)),
    ensures
        save_outcome(run_save(fs, documents, data)) matches Some(Err(_)),
{
    lemma_layout_shape(documents);
    let dir = data_dir_of(documents);
    let q = choose|q: PathView| #[trigger] is_prefix_path(q, dir) && fs.files.contains_key(q);
    if fs.dirs.contains(dir) {
        assert(fs.dirs.contains(q));
    }
}

} // verus!
