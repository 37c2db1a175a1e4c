use vstd::prelude::*;

verus! {

/// A read-only snapshot of one item of the remote store.
pub struct RemoteItem {
    pub id: String,
    pub name: String,
    /// Present for file-type items only.
    pub size: Option<String>,
    /// The item's permission identifiers, in the order the store gave them.
    pub permission_ids: Option<Vec<String>>,
}

/// What a `RemoteItem` holds, as mathematical values.
pub struct RemoteItemView {
    pub id: Seq<char>,
    pub name: Seq<char>,
    pub size: Option<Seq<char>>,
    /// An absent permission list reads as an empty one.
    pub perms: Seq<Seq<char>>,
}

impl View for RemoteItem {
    type V = RemoteItemView;

    open spec fn view(&self) -> RemoteItemView {
        RemoteItemView {
            id: self.id@,
            name: self.name@,
            size: match self.size {
                Some(s) => Some(s@),
                None => None,
            },
            perms: match self.permission_ids {
                Some(v) => v.deep_view(),
                None => Seq::empty(),
            },
        }
    }
}

impl RemoteItem {
    pub fn new(id: String, name: String, size: Option<String>, permission_ids: Option<Vec<String>>) -> (r: RemoteItem)
        ensures
            r.id == id,
            r.name == name,
            r.size == size,
            r.permission_ids == permission_ids,
    {
        RemoteItem { id, name, size, permission_ids }
    }
}

/// A file found by a scan or produced by an upload.
#[derive(Clone)]
pub struct FileInfo {
    pub id: String,
    pub size: String,
    pub name: String,
    pub shared: bool,
}

/// A folder found by a scan.
pub struct FolderInfo {
    pub id: String,
    pub name: String,
    pub shared: bool,
}

/// The inventory produced by one scan.
pub struct ScanResult {
    pub files: Vec<FileInfo>,
    pub folders: Vec<FolderInfo>,
}

/// The mathematical value of a `FileInfo`.
pub struct FileInfoView {
    pub id: Seq<char>,
    pub size: Seq<char>,
    pub name: Seq<char>,
    pub shared: bool,
}

/// The mathematical value of a `FolderInfo`.
pub struct FolderInfoView {
    pub id: Seq<char>,
    pub name: Seq<char>,
    pub shared: bool,
}

impl View for FileInfo {
    type V = FileInfoView;

    open spec fn view(&self) -> FileInfoView {
        FileInfoView { id: self.id@, size: self.size@, name: self.name@, shared: self.shared }
    }
}

impl View for FolderInfo {
    type V = FolderInfoView;

    open spec fn view(&self) -> FolderInfoView {
        FolderInfoView { id: self.id@, name: self.name@, shared: self.shared }
    }
}

/// The files of a sequence of `FileInfo`, as values.
pub open spec fn files_view(v: Seq<FileInfo>) -> Seq<FileInfoView> {
    v.map_values(|f: FileInfo| f@)
}

/// The folders of a sequence of `FolderInfo`, as values.
pub open spec fn folders_view(v: Seq<FolderInfo>) -> Seq<FolderInfoView> {
    v.map_values(|f: FolderInfo| f@)
}

impl ScanResult {
    pub fn new(files: Vec<FileInfo>, folders: Vec<FolderInfo>) -> (r: ScanResult)
        ensures
            r.files == files,
            r.folders == folders,
    {
        ScanResult { files, folders }
    }
}

impl FolderInfo {
    pub fn new(id: String, name: String, shared: bool) -> (r: FolderInfo)
        ensures
            r.id == id,
            r.name == name,
            r.shared == shared,
    {
        FolderInfo { id, name, shared }
    }
}

impl FileInfo {
    pub fn new(id: String, size: String, name: String, shared: bool) -> (r: FileInfo)
        ensures
            r.id == id,
            r.size == size,
            r.name == name,
            r.shared == shared,
    {
        FileInfo { id, size, name, shared }
    }
}

} // verus!
