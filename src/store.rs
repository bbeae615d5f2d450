use vstd::prelude::*;

verus! {

/// Name of the application's directory under the documents directory.
pub const APP_DIR: &'static str = "OneOkTodo";

/// Name of the data directory under the application's directory.
pub const DATA_DIR: &'static str = "data";

/// Name of the file that holds the payload.
pub const ROOT_FILE: &'static str = "root-data.json";

/// A path as a sequence of components; the first is the documents directory.
pub type PathView = Seq<Seq<char>>;

/// Where the store keeps its file: everything hangs off the documents directory.
pub struct StoreLayout {
    pub documents: String,
}

/// `<documents>/OneOkTodo/data`
pub open spec fn data_dir_of(documents: Seq<char>) -> PathView {
    seq![documents, APP_DIR@, DATA_DIR@]
}

/// `<documents>/OneOkTodo/data/root-data.json`
pub open spec fn root_file_of(documents: Seq<char>) -> PathView {
    data_dir_of(documents).push(ROOT_FILE@)
}

/// Why a store operation failed; each I/O kind carries the description that
/// the operating system gave.
pub enum StoreError {
    PathResolution,
    DirectoryCreate(String),
    FileCreate(String),
    Write(String),
    Read(String),
}

/// The mathematical value of a `StoreError`.
pub enum StoreFault {
    PathResolution,
    DirectoryCreate(Seq<char>),
    FileCreate(Seq<char>),
    Write(Seq<char>),
    Read(Seq<char>),
}

impl View for StoreError {
    type V = StoreFault;

    open spec fn view(&self) -> StoreFault {
        match self {
            StoreError::PathResolution => StoreFault::PathResolution,
            StoreError::DirectoryCreate(e) => StoreFault::DirectoryCreate(e@),
            StoreError::FileCreate(e) => StoreFault::FileCreate(e@),
            StoreError::Write(e) => StoreFault::Write(e@),
            StoreError::Read(e) => StoreFault::Read(e@),
        }
    }
}

/// Text reported when the documents directory cannot be resolved.
pub const PATH_RESOLUTION_TEXT: &'static str = "the documents directory could not be resolved";

/// The message a caller shows for a fault: the operating system's description
/// for I/O failures.
pub open spec fn fault_message(f: StoreFault) -> Seq<char> {
    match f {
        StoreFault::PathResolution => PATH_RESOLUTION_TEXT@,
        StoreFault::DirectoryCreate(e) => e,
        StoreFault::FileCreate(e) => e,
        StoreFault::Write(e) => e,
        StoreFault::Read(e) => e,
    }
}

impl StoreError {
    /// The human-readable message for this error.
    pub fn message(self) -> (r: String)
        ensures
            r@ == fault_message(self@),
    {
        match self {
            StoreError::PathResolution => String::from_str(PATH_RESOLUTION_TEXT),
            StoreError::DirectoryCreate(e) => e,
            StoreError::FileCreate(e) => e,
            StoreError::Write(e) => e,
            StoreError::Read(e) => e,
        }
    }
}

/// The components of `path`, as a path value.
pub open spec fn path_view(path: Vec<String>) -> PathView {
    path.deep_view()
}

impl StoreLayout {
    /// A layout rooted at the documents directory that the host reported;
    /// `None` means the host could not report one.
    pub fn new(documents: Option<String>) -> (r: Result<StoreLayout, StoreError>)
        ensures
            match documents {
                Some(d) => r matches Ok(l) && l.documents == d,
                None => r matches Err(e) && e@ == StoreFault::PathResolution,
            },
    {
        match documents {
            Some(d) => Ok(StoreLayout { documents: d }),
            None => Err(StoreError::PathResolution),
        }
    }

    /// The directory that holds the store's file.
    pub fn data_dir(&self) -> (r: Vec<String>)
        ensures
            path_view(r) == data_dir_of(self.documents@),
    {
        let mut r: Vec<String> = Vec::new();
        r.push(self.documents.clone());
        r.push(String::from_str(APP_DIR));
        r.push(String::from_str(DATA_DIR));
        assert(path_view(r) =~= data_dir_of(self.documents@));
        r
    }

    /// The file that holds the payload.
    pub fn root_file(&self) -> (r: Vec<String>)
        ensures
            path_view(r) == root_file_of(self.documents@),
    {
        let mut r = self.data_dir();
        r.push(String::from_str(ROOT_FILE));
        assert(path_view(r) =~= root_file_of(self.documents@));
        r
    }
}

} // verus!
