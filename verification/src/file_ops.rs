use crate::folder_ops::{FolderDescriptor, FolderView};
use crate::pcloud_client::PCloudClient;
use crate::pcloud_model::{
    format_date_time_for_pcloud, pcloud_date_text, FileOrFolderStat, Metadata, PCloudResult,
    PCloudTime, UploadedFile,
};
use crate::request::{
    flag, id_list, opt_number, opt_signed, opt_text, Method, QueryView, Request, RequestView,
};
use vstd::prelude::*;
use vstd::string::*;

verus! {

/// Description of a file: by its id (preferred) or by its path.
#[derive(Debug)]
pub struct PCloudFile {
    /// Id of the file.
    pub file_id: Option<u64>,
    /// Path of the file.
    pub path: Option<String>,
}

/// A file description as mathematics.
pub struct FileView {
    pub file_id: Option<u64>,
    pub path: Option<Seq<char>>,
}

impl View for PCloudFile {
    type V = FileView;

    open spec fn view(&self) -> FileView {
        FileView { file_id: self.file_id, path: self.path.deep_view() }
    }
}

/// The view of a conversion's outcome.
pub open spec fn file_result(r: Result<PCloudFile, PCloudResult>) -> Result<FileView, PCloudResult> {
    match r {
        Ok(file) => Ok(file@),
        Err(e) => Err(e),
    }
}

/// The file that metadata describes; metadata of a folder describes none.
pub open spec fn file_of_metadata(metadata: Metadata) -> Result<FileView, PCloudResult> {
    if metadata.isfolder {
        Err(PCloudResult::InvalidFileOrFolderName)
    } else {
        Ok(FileView { file_id: metadata.fileid, path: None })
    }
}

/// The file that a metadata answer describes; a failed or empty answer describes none.
pub open spec fn file_of_stat(stat: FileOrFolderStat) -> Result<FileView, PCloudResult> {
    if stat.result == PCloudResult::Success && stat.metadata is Some {
        file_of_metadata(stat.metadata->0)
    } else {
        Err(PCloudResult::InvalidFileOrFolderName)
    }
}

/// Anything that describes a file: an id, a path, metadata, or a description itself.
pub trait FileDescriptor: Sized {
    /// The file this value describes, or why it describes none.
    spec fn spec_to_file(self) -> Result<FileView, PCloudResult>;

    /// Converts the descriptor into a file description.
    fn to_file(self) -> (file: Result<PCloudFile, PCloudResult>)
        ensures
            file_result(file) == self.spec_to_file(),
    ;
}

impl PCloudFile {
    /// Whether the description names nothing: neither an id nor a path.
    pub fn is_empty(&self) -> (empty: bool)
        ensures
            empty == (self.file_id is None && self.path is None),
    {
        self.file_id.is_none() && self.path.is_none()
    }

    /// The file that metadata describes.
    pub fn try_from_metadata(value: &Metadata) -> (file: Result<PCloudFile, PCloudResult>)
        ensures
            file_result(file) == file_of_metadata(*value),
    {
        if value.isfolder {
            Err(PCloudResult::InvalidFileOrFolderName)
        } else {
            Ok(PCloudFile { file_id: value.fileid, path: None })
        }
    }

    /// The file that a metadata answer describes.
    pub fn try_from_stat(value: &FileOrFolderStat) -> (file: Result<PCloudFile, PCloudResult>)
        ensures
            file_result(file) == file_of_stat(*value),
    {
        if value.result.is_ok() {
            match &value.metadata {
                Some(metadata) => PCloudFile::try_from_metadata(metadata),
                None => Err(PCloudResult::InvalidFileOrFolderName),
            }
        } else {
            Err(PCloudResult::InvalidFileOrFolderName)
        }
    }
}

/// The file with the given id.
pub open spec fn file_of_id(id: u64) -> FileView {
    FileView { file_id: Some(id), path: None }
}

/// The file at the given path.
pub open spec fn file_of_path(path: Seq<char>) -> FileView {
    FileView { file_id: None, path: Some(path) }
}

impl From<u64> for PCloudFile {
    fn from(value: u64) -> (file: PCloudFile)
        ensures
            file@ == file_of_id(value),
    {
        PCloudFile { file_id: Some(value), path: None }
    }
}

impl vstd::std_specs::convert::FromSpecImpl<u64> for PCloudFile {
    open spec fn obeys_from_spec() -> bool {
        true
    }

    open spec fn from_spec(value: u64) -> PCloudFile {
        PCloudFile { file_id: Some(value), path: None }
    }
}

impl<'a> From<&'a u64> for PCloudFile {
    fn from(value: &'a u64) -> (file: PCloudFile)
        ensures
            file@ == file_of_id(*value),
    {
        PCloudFile { file_id: Some(*value), path: None }
    }
}

impl<'a> vstd::std_specs::convert::FromSpecImpl<&'a u64> for PCloudFile {
    open spec fn obeys_from_spec() -> bool {
        true
    }

    open spec fn from_spec(value: &'a u64) -> PCloudFile {
        PCloudFile { file_id: Some(*value), path: None }
    }
}

impl From<String> for PCloudFile {
    fn from(value: String) -> (file: PCloudFile)
        ensures
            file@ == file_of_path(value@),
    {
        PCloudFile { file_id: None, path: Some(value) }
    }
}

impl vstd::std_specs::convert::FromSpecImpl<String> for PCloudFile {
    open spec fn obeys_from_spec() -> bool {
        true
    }

    open spec fn from_spec(value: String) -> PCloudFile {
        PCloudFile { file_id: None, path: Some(value) }
    }
}

impl<'a> From<&'a str> for PCloudFile {
    fn from(value: &'a str) -> (file: PCloudFile)
        ensures
            file@ == file_of_path(value@),
    {
        PCloudFile { file_id: None, path: Some(String::from_str(value)) }
    }
}

impl<'a> vstd::std_specs::convert::FromSpecImpl<&'a str> for PCloudFile {
    open spec fn obeys_from_spec() -> bool {
        false
    }

    open spec fn from_spec(value: &'a str) -> PCloudFile {
        arbitrary()
    }
}

impl<'a> TryFrom<&'a Metadata> for PCloudFile {
    type Error = PCloudResult;

    fn try_from(value: &'a Metadata) -> (file: Result<PCloudFile, PCloudResult>)
        ensures
            file_result(file) == file_of_metadata(*value),
    {
        PCloudFile::try_from_metadata(value)
    }
}

impl<'a> vstd::std_specs::convert::TryFromSpecImpl<&'a Metadata> for PCloudFile {
    open spec fn obeys_try_from_spec() -> bool {
        false
    }

    open spec fn try_from_spec(value: &'a Metadata) -> Result<PCloudFile, PCloudResult> {
        arbitrary()
    }
}

impl<'a> TryFrom<&'a FileOrFolderStat> for PCloudFile {
    type Error = PCloudResult;

    fn try_from(value: &'a FileOrFolderStat) -> (file: Result<PCloudFile, PCloudResult>)
        ensures
            file_result(file) == file_of_stat(*value),
    {
        PCloudFile::try_from_stat(value)
    }
}

impl<'a> vstd::std_specs::convert::TryFromSpecImpl<&'a FileOrFolderStat> for PCloudFile {
    open spec fn obeys_try_from_spec() -> bool {
        false
    }

    open spec fn try_from_spec(value: &'a FileOrFolderStat) -> Result<PCloudFile, PCloudResult> {
        arbitrary()
    }
}

impl FileDescriptor for u64 {
    open spec fn spec_to_file(self) -> Result<FileView, PCloudResult> {
        Ok(file_of_id(self))
    }

    fn to_file(self) -> (file: Result<PCloudFile, PCloudResult>) {
        Ok(PCloudFile { file_id: Some(self), path: None })
    }
}

impl FileDescriptor for &u64 {
    open spec fn spec_to_file(self) -> Result<FileView, PCloudResult> {
        Ok(file_of_id(*self))
    }

    fn to_file(self) -> (file: Result<PCloudFile, PCloudResult>) {
        Ok(PCloudFile { file_id: Some(*self), path: None })
    }
}

impl FileDescriptor for String {
    open spec fn spec_to_file(self) -> Result<FileView, PCloudResult> {
        Ok(file_of_path(self@))
    }

    fn to_file(self) -> (file: Result<PCloudFile, PCloudResult>) {
        Ok(PCloudFile { file_id: None, path: Some(self) })
    }
}

impl FileDescriptor for &str {
    open spec fn spec_to_file(self) -> Result<FileView, PCloudResult> {
        Ok(file_of_path(self@))
    }

    fn to_file(self) -> (file: Result<PCloudFile, PCloudResult>) {
        Ok(PCloudFile { file_id: None, path: Some(String::from_str(self)) })
    }
}

impl FileDescriptor for &Metadata {
    open spec fn spec_to_file(self) -> Result<FileView, PCloudResult> {
        file_of_metadata(*self)
    }

    fn to_file(self) -> (file: Result<PCloudFile, PCloudResult>) {
        PCloudFile::try_from_metadata(self)
    }
}

impl FileDescriptor for &FileOrFolderStat {
    open spec fn spec_to_file(self) -> Result<FileView, PCloudResult> {
        file_of_stat(*self)
    }

    fn to_file(self) -> (file: Result<PCloudFile, PCloudResult>) {
        PCloudFile::try_from_stat(self)
    }
}

impl FileDescriptor for PCloudFile {
    open spec fn spec_to_file(self) -> Result<FileView, PCloudResult> {
        Ok(self@)
    }

    fn to_file(self) -> (file: Result<PCloudFile, PCloudResult>) {
        Ok(self)
    }
}

/// The id a described file has to carry where only an id will do.
pub open spec fn file_id_of(described: Result<FileView, PCloudResult>) -> Result<u64, PCloudResult> {
    match described {
        Ok(file) => match file.file_id {
            Some(id) => Ok(id),
            None => Err(PCloudResult::InvalidFileId),
        },
        Err(e) => Err(e),
    }
}

/// The id a described folder has to carry where only an id will do.
pub open spec fn folder_id_of(described: Result<FolderView, PCloudResult>) -> Result<
    u64,
    PCloudResult,
> {
    match described {
        Ok(folder) => match folder.folder_id {
            Some(id) => Ok(id),
            None => Err(PCloudResult::InvalidFolderId),
        },
        Err(e) => Err(e),
    }
}

fn require_file_id<T: FileDescriptor>(file_like: T) -> (id: Result<u64, PCloudResult>)
    ensures
        id == file_id_of(file_like.spec_to_file()),
{
    match file_like.to_file() {
        Ok(file) => match file.file_id {
            Some(id) => Ok(id),
            None => Err(PCloudResult::InvalidFileId),
        },
        Err(e) => Err(e),
    }
}

fn require_folder_id<T: FolderDescriptor>(folder_like: T) -> (id: Result<u64, PCloudResult>)
    ensures
        id == folder_id_of(folder_like.spec_to_folder()),
{
    match folder_like.to_folder() {
        Ok(folder) => match folder.folder_id {
            Some(id) => Ok(id),
            None => Err(PCloudResult::InvalidFolderId),
        },
        Err(e) => Err(e),
    }
}

/// A set of files and folders for the calls that work on trees.
#[derive(Debug)]
pub struct Tree {
    /// The contents of this folder appear as the root elements of the tree.
    pub folder_id: Option<u64>,
    /// These folders appear as folders in the root of the tree.
    pub folder_ids: Vec<u64>,
    /// These files appear in the root of the tree.
    pub file_ids: Vec<u64>,
    /// These folders are left out of the tree.
    pub exclude_folder_ids: Vec<u64>,
    /// These files are left out of the tree.
    pub exclude_file_ids: Vec<u64>,
}

/// A tree as mathematics.
pub struct TreeView {
    pub folder_id: Option<u64>,
    pub folder_ids: Seq<u64>,
    pub file_ids: Seq<u64>,
    pub exclude_folder_ids: Seq<u64>,
    pub exclude_file_ids: Seq<u64>,
}

impl View for Tree {
    type V = TreeView;

    open spec fn view(&self) -> TreeView {
        TreeView {
            folder_id: self.folder_id,
            folder_ids: self.folder_ids@,
            file_ids: self.file_ids@,
            exclude_folder_ids: self.exclude_folder_ids@,
            exclude_file_ids: self.exclude_file_ids@,
        }
    }
}

impl TreeView {
    /// The pairs that describe the tree in a query: the root folder, then
    /// each non-empty id list, ids separated by commas.
    pub open spec fn query(self) -> QueryView {
        opt_number("folderid"@, self.folder_id) + id_list("folderids"@, self.folder_ids) + id_list(
            "fileids"@,
            self.file_ids,
        ) + id_list("excludefolderids"@, self.exclude_folder_ids) + id_list(
            "excludefileids"@,
            self.exclude_file_ids,
        )
    }
}

/// The outcome of changing a tree with an id that may be missing.
pub open spec fn tree_result(r: Result<Tree, PCloudResult>) -> Result<TreeView, PCloudResult> {
    match r {
        Ok(tree) => Ok(tree@),
        Err(e) => Err(e),
    }
}

impl Tree {
    /// The empty tree.
    pub fn create() -> (tree: Tree)
        ensures
            tree@ == (TreeView {
                folder_id: None,
                folder_ids: seq![],
                file_ids: seq![],
                exclude_folder_ids: seq![],
                exclude_file_ids: seq![],
            }),
    {
        Tree {
            folder_id: None,
            folder_ids: Vec::new(),
            file_ids: Vec::new(),
            exclude_folder_ids: Vec::new(),
            exclude_file_ids: Vec::new(),
        }
    }

    /// Appends the tree to a call.
    pub fn add_to_request(&self, r: Request) -> (with_tree: Request)
        ensures
            with_tree@ == r@.with(self@.query()),
    {
        let with_tree = r.opt_number("folderid", self.folder_id).id_list(
            "folderids",
            &self.folder_ids,
        ).id_list("fileids", &self.file_ids).id_list(
            "excludefolderids",
            &self.exclude_folder_ids,
        ).id_list("excludefileids", &self.exclude_file_ids);
        assert(with_tree@.query =~= r@.query + self@.query());
        with_tree
    }

    /// Adds the file or folder that metadata describes.
    pub fn with(self, source: &Metadata) -> (tree: Result<Tree, PCloudResult>)
        ensures
            tree_result(tree) == if source.isfolder {
                match source.folderid {
                    Some(id) => Ok(TreeView { folder_ids: self@.folder_ids.push(id), ..self@ }),
                    None => Err(PCloudResult::InvalidFolderId),
                }
            } else {
                match source.fileid {
                    Some(id) => Ok(TreeView { file_ids: self@.file_ids.push(id), ..self@ }),
                    None => Err(PCloudResult::InvalidFileId),
                }
            },
    {
        if source.isfolder {
            self.with_folder(source)
        } else {
            self.with_file(source)
        }
    }

    /// Excludes the file or folder that metadata describes.
    pub fn without(self, source: &Metadata) -> (tree: Result<Tree, PCloudResult>)
        ensures
            tree_result(tree) == if source.isfolder {
                match source.folderid {
                    Some(id) => Ok(
                        TreeView {
                            exclude_folder_ids: self@.exclude_folder_ids.push(id),
                            ..self@
                        },
                    ),
                    None => Err(PCloudResult::InvalidFolderId),
                }
            } else {
                match source.fileid {
                    Some(id) => Ok(
                        TreeView { exclude_file_ids: self@.exclude_file_ids.push(id), ..self@ },
                    ),
                    None => Err(PCloudResult::InvalidFileId),
                }
            },
    {
        if source.isfolder {
            self.without_folder(source)
        } else {
            self.without_file(source)
        }
    }

    /// Adds a file to the root of the tree. The description has to carry an id.
    pub fn with_file<T: FileDescriptor>(self, file_like: T) -> (tree: Result<Tree, PCloudResult>)
        ensures
            tree_result(tree) == match file_id_of(file_like.spec_to_file()) {
                Ok(id) => Ok(TreeView { file_ids: self@.file_ids.push(id), ..self@ }),
                Err(e) => Err(e),
            },
    {
        match require_file_id(file_like) {
            Ok(id) => {
                let mut tree = self;
                tree.file_ids.push(id);
                Ok(tree)
            },
            Err(e) => Err(e),
        }
    }

    /// Leaves a file out of the tree. The description has to carry an id.
    pub fn without_file<T: FileDescriptor>(self, file_like: T) -> (tree: Result<Tree, PCloudResult>)
        ensures
            tree_result(tree) == match file_id_of(file_like.spec_to_file()) {
                Ok(id) => Ok(
                    TreeView { exclude_file_ids: self@.exclude_file_ids.push(id), ..self@ },
                ),
                Err(e) => Err(e),
            },
    {
        match require_file_id(file_like) {
            Ok(id) => {
                let mut tree = self;
                tree.exclude_file_ids.push(id);
                Ok(tree)
            },
            Err(e) => Err(e),
        }
    }

    /// Adds a folder to the root of the tree. The description has to carry an id.
    pub fn with_folder<T: FolderDescriptor>(self, folder_like: T) -> (tree: Result<
        Tree,
        PCloudResult,
    >)
        ensures
            tree_result(tree) == match folder_id_of(folder_like.spec_to_folder()) {
                Ok(id) => Ok(TreeView { folder_ids: self@.folder_ids.push(id), ..self@ }),
                Err(e) => Err(e),
            },
    {
        match require_folder_id(folder_like) {
            Ok(id) => {
                let mut tree = self;
                tree.folder_ids.push(id);
                Ok(tree)
            },
            Err(e) => Err(e),
        }
    }

    /// Leaves a folder out of the tree. The description has to carry an id.
    pub fn without_folder<T: FolderDescriptor>(self, folder_like: T) -> (tree: Result<
        Tree,
        PCloudResult,
    >)
        ensures
            tree_result(tree) == match folder_id_of(folder_like.spec_to_folder()) {
                Ok(id) => Ok(
                    TreeView { exclude_folder_ids: self@.exclude_folder_ids.push(id), ..self@ },
                ),
                Err(e) => Err(e),
            },
    {
        match require_folder_id(folder_like) {
            Ok(id) => {
                let mut tree = self;
                tree.exclude_folder_ids.push(id);
                Ok(tree)
            },
            Err(e) => Err(e),
        }
    }

    /// Makes the contents of a folder the root elements of the tree,
    /// replacing an earlier choice. The description has to carry an id.
    pub fn with_content_of_folder<T: FolderDescriptor>(self, folder_like: T) -> (tree: Result<
        Tree,
        PCloudResult,
    >)
        ensures
            tree_result(tree) == match folder_id_of(folder_like.spec_to_folder()) {
                Ok(id) => Ok(TreeView { folder_id: Some(id), ..self@ }),
                Err(e) => Err(e),
            },
    {
        match require_folder_id(folder_like) {
            Ok(id) => {
                let mut tree = self;
                tree.folder_id = Some(id);
                Ok(tree)
            },
            Err(e) => Err(e),
        }
    }
}

/// The outcome of describing the file a call is about: the file, unless the
/// descriptor names none or names nothing.
pub open spec fn named_file(described: Result<FileView, PCloudResult>) -> Result<
    FileView,
    PCloudResult,
> {
    match described {
        Ok(file) => if file.file_id is None && file.path is None {
            Err(PCloudResult::NoFileIdOrPathProvided)
        } else {
            Ok(file)
        },
        Err(e) => Err(e),
    }
}

/// Converts a descriptor and rejects an empty description.
pub fn describe_file<T: FileDescriptor>(file_like: T) -> (file: Result<PCloudFile, PCloudResult>)
    ensures
        file_result(file) == named_file(file_like.spec_to_file()),
{
    match file_like.to_file() {
        Ok(file) => {
            if file.is_empty() {
                Err(PCloudResult::NoFileIdOrPathProvided)
            } else {
                Ok(file)
            }
        },
        Err(e) => Err(e),
    }
}

/// A described file and the described folder it goes to: both have to be named.
pub open spec fn named_transfer(
    source: Result<FileView, PCloudResult>,
    target: Result<FolderView, PCloudResult>,
) -> Result<(FileView, FolderView), PCloudResult> {
    match source {
        Err(e) => Err(e),
        Ok(s) => match target {
            Err(e) => Err(e),
            Ok(t) => if (s.file_id is None && s.path is None) || (t.folder_id is None
                && t.path is None) {
                Err(PCloudResult::NoFileIdOrPathProvided)
            } else {
                Ok((s, t))
            },
        },
    }
}

fn describe_transfer<S: FileDescriptor, T: FolderDescriptor>(
    file_like: S,
    target_folder_like: T,
) -> (pair: Result<(PCloudFile, crate::folder_ops::PCloudFolder), PCloudResult>)
    ensures
        match pair {
            Ok(p) => named_transfer(file_like.spec_to_file(), target_folder_like.spec_to_folder())
                == Ok::<(FileView, FolderView), PCloudResult>((p.0@, p.1@)),
            Err(e) => named_transfer(
                file_like.spec_to_file(),
                target_folder_like.spec_to_folder(),
            ) == Err::<(FileView, FolderView), PCloudResult>(e),
        },
{
    let source = match file_like.to_file() {
        Ok(s) => s,
        Err(e) => {
            return Err(e);
        },
    };
    let target = match target_folder_like.to_folder() {
        Ok(t) => t,
        Err(e) => {
            return Err(e);
        },
    };
    if !source.is_empty() && !target.is_empty() {
        Ok((source, target))
    } else {
        Err(PCloudResult::NoFileIdOrPathProvided)
    }
}

/// Source and destination of a file copy or move in a query.
pub open spec fn file_transfer(
    from_path: Option<Seq<char>>,
    from_file_id: Option<u64>,
    to_path: Option<Seq<char>>,
    to_folder_id: Option<u64>,
) -> QueryView {
    opt_text("path"@, from_path) + opt_number("fileid"@, from_file_id) + opt_text(
        "topath"@,
        to_path,
    ) + opt_number("tofolderid"@, to_folder_id)
}

/// Copies a file into a folder.
#[derive(Debug)]
pub struct CopyFileRequestBuilder {
    pub client: PCloudClient,
    /// Path of the source file.
    pub from_path: Option<String>,
    /// Id of the source file.
    pub from_file_id: Option<u64>,
    /// Path of the destination folder.
    pub to_path: Option<String>,
    /// Id of the destination folder.
    pub to_folder_id: Option<u64>,
    /// New name of the copy.
    pub to_name: Option<String>,
    /// Overwrite a file of the same name.
    pub overwrite: bool,
    /// Modification time of the copy, in seconds since the epoch.
    pub mtime: Option<i64>,
    /// Creation time of the copy, in seconds since the epoch. Needs `mtime`.
    pub ctime: Option<i64>,
    /// Revision of the file to copy.
    pub revision_id: Option<u64>,
}

impl CopyFileRequestBuilder {
    /// A copy of the file that `file_like` describes into the folder that
    /// `target_folder_like` describes. A file of the same name is
    /// overwritten unless that is switched off.
    pub fn copy_file<S: FileDescriptor, T: FolderDescriptor>(
        client: &PCloudClient,
        file_like: S,
        target_folder_like: T,
    ) -> (b: Result<CopyFileRequestBuilder, PCloudResult>)
        ensures
            match b {
                Ok(b) => named_transfer(
                    file_like.spec_to_file(),
                    target_folder_like.spec_to_folder(),
                ) == Ok::<(FileView, FolderView), PCloudResult>(
                    (
                        FileView { file_id: b.from_file_id, path: b.from_path.deep_view() },
                        FolderView { folder_id: b.to_folder_id, path: b.to_path.deep_view() },
                    ),
                ) && b.client == *client && b.to_name is None && b.overwrite && b.mtime is None
                    && b.ctime is None && b.revision_id is None,
                Err(e) => named_transfer(
                    file_like.spec_to_file(),
                    target_folder_like.spec_to_folder(),
                ) == Err::<(FileView, FolderView), PCloudResult>(e),
            },
    {
        match describe_transfer(file_like, target_folder_like) {
            Ok((source, target)) => Ok(
                CopyFileRequestBuilder {
                    from_path: source.path,
                    from_file_id: source.file_id,
                    to_path: target.path,
                    to_folder_id: target.folder_id,
                    client: client.clone(),
                    to_name: None,
                    overwrite: true,
                    mtime: None,
                    ctime: None,
                    revision_id: None,
                },
            ),
            Err(e) => Err(e),
        }
    }

    /// Overwrite a file of the same name (the default) or fail on it.
    pub fn overwrite(self, value: bool) -> (b: CopyFileRequestBuilder)
        ensures
            b == (CopyFileRequestBuilder { overwrite: value, ..self }),
    {
        let mut b = self;
        b.overwrite = value;
        b
    }

    /// Sets the modification time of the copy.
    pub fn mtime(self, value: &PCloudTime) -> (b: CopyFileRequestBuilder)
        ensures
            b == (CopyFileRequestBuilder { mtime: Some(value.seconds), ..self }),
    {
        let mut b = self;
        b.mtime = Some(value.timestamp());
        b
    }

    /// Sets the creation time of the copy.
    pub fn ctime(self, value: &PCloudTime) -> (b: CopyFileRequestBuilder)
        ensures
            b == (CopyFileRequestBuilder { ctime: Some(value.seconds), ..self }),
    {
        let mut b = self;
        b.ctime = Some(value.timestamp());
        b
    }

    /// Name of the copy; the name of the source where none is set.
    pub fn with_new_name(self, value: &str) -> (b: CopyFileRequestBuilder)
        ensures
            b.to_name.deep_view() == Some(value@),
            b == (CopyFileRequestBuilder { to_name: b.to_name, ..self }),
    {
        let mut b = self;
        b.to_name = Some(String::from_str(value));
        b
    }

    /// Revision of the file to copy; the latest where none is set.
    pub fn with_revision(self, value: u64) -> (b: CopyFileRequestBuilder)
        ensures
            b == (CopyFileRequestBuilder { revision_id: Some(value), ..self }),
    {
        let mut b = self;
        b.revision_id = Some(value);
        b
    }

    /// The call that copies the file. `noover` is sent when overwriting is off.
    pub open spec fn spec_request(&self) -> RequestView {
        RequestView {
            method: Method::Post,
            path: "/copyfile"@,
            query: file_transfer(
                self.from_path.deep_view(),
                self.from_file_id,
                self.to_path.deep_view(),
                self.to_folder_id,
            ) + opt_signed("mtime"@, self.mtime) + opt_signed("ctime"@, self.ctime) + opt_text(
                "toname"@,
                self.to_name.deep_view(),
            ) + opt_number("revisionid"@, self.revision_id) + flag("noover"@, !self.overwrite)
                + opt_text("auth"@, self.client.session_token.deep_view()),
            timeout: None,
        }
    }

    /// Assembles the call that copies the file.
    pub fn execute(self) -> (r: Request)
        ensures
            r@ == self.spec_request(),
    {
        let r = Request::post("/copyfile").opt_text("path", &self.from_path).opt_number(
            "fileid",
            self.from_file_id,
        ).opt_text("topath", &self.to_path).opt_number("tofolderid", self.to_folder_id).opt_signed(
            "mtime",
            self.mtime,
        ).opt_signed("ctime", self.ctime).opt_text("toname", &self.to_name).opt_number(
            "revisionid",
            self.revision_id,
        ).flag("noover", !self.overwrite);
        let r = self.client.add_token(r);
        assert(r@.query =~= self.spec_request().query);
        r
    }
}

/// Renames a file, moves it, or both.
#[derive(Debug)]
pub struct MoveFileRequestBuilder {
    pub client: PCloudClient,
    /// Path of the source file.
    pub from_path: Option<String>,
    /// Id of the source file.
    pub from_file_id: Option<u64>,
    /// Path of the destination folder.
    pub to_path: Option<String>,
    /// Id of the destination folder.
    pub to_folder_id: Option<u64>,
    /// New name of the file.
    pub to_name: Option<String>,
    /// Revision of the file to move.
    pub revision_id: Option<u64>,
}

impl MoveFileRequestBuilder {
    /// A move of the file that `file_like` describes into the folder that
    /// `target_folder_like` describes.
    pub fn move_file<S: FileDescriptor, T: FolderDescriptor>(
        client: &PCloudClient,
        file_like: S,
        target_folder_like: T,
    ) -> (b: Result<MoveFileRequestBuilder, PCloudResult>)
        ensures
            match b {
                Ok(b) => named_transfer(
                    file_like.spec_to_file(),
                    target_folder_like.spec_to_folder(),
                ) == Ok::<(FileView, FolderView), PCloudResult>(
                    (
                        FileView { file_id: b.from_file_id, path: b.from_path.deep_view() },
                        FolderView { folder_id: b.to_folder_id, path: b.to_path.deep_view() },
                    ),
                ) && b.client == *client && b.to_name is None && b.revision_id is None,
                Err(e) => named_transfer(
                    file_like.spec_to_file(),
                    target_folder_like.spec_to_folder(),
                ) == Err::<(FileView, FolderView), PCloudResult>(e),
            },
    {
        match describe_transfer(file_like, target_folder_like) {
            Ok((source, target)) => Ok(
                MoveFileRequestBuilder {
                    from_path: source.path,
                    from_file_id: source.file_id,
                    to_path: target.path,
                    to_folder_id: target.folder_id,
                    client: client.clone(),
                    to_name: None,
                    revision_id: None,
                },
            ),
            Err(e) => Err(e),
        }
    }

    /// Name of the file at its destination; the present name where none is set.
    pub fn with_new_name(self, value: &str) -> (b: MoveFileRequestBuilder)
        ensures
            b.to_name.deep_view() == Some(value@),
            b == (MoveFileRequestBuilder { to_name: b.to_name, ..self }),
    {
        let mut b = self;
        b.to_name = Some(String::from_str(value));
        b
    }

    /// Revision of the file to move; the latest where none is set.
    pub fn with_revision(self, value: u64) -> (b: MoveFileRequestBuilder)
        ensures
            b == (MoveFileRequestBuilder { revision_id: Some(value), ..self }),
    {
        let mut b = self;
        b.revision_id = Some(value);
        b
    }

    /// The call that moves the file.
    pub open spec fn spec_request(&self) -> RequestView {
        RequestView {
            method: Method::Post,
            path: "/renamefile"@,
            query: file_transfer(
                self.from_path.deep_view(),
                self.from_file_id,
                self.to_path.deep_view(),
                self.to_folder_id,
            ) + opt_text("toname"@, self.to_name.deep_view()) + opt_number(
                "revisionid"@,
                self.revision_id,
            ) + opt_text("auth"@, self.client.session_token.deep_view()),
            timeout: None,
        }
    }

    /// Assembles the call that moves the file.
    pub fn execute(self) -> (r: Request)
        ensures
            r@ == self.spec_request(),
    {
        let r = Request::post("/renamefile").opt_text("path", &self.from_path).opt_number(
            "fileid",
            self.from_file_id,
        ).opt_text("topath", &self.to_path).opt_number("tofolderid", self.to_folder_id).opt_text(
            "toname",
            &self.to_name,
        ).opt_number("revisionid", self.revision_id);
        let r = self.client.add_token(r);
        assert(r@.query =~= self.spec_request().query);
        r
    }
}

/// One file of an upload: its name and its content. The library never
/// looks at the content.
#[derive(Debug)]
pub struct UploadPart<B> {
    pub file_name: String,
    pub body: B,
}

/// Uploads files into a folder.
#[derive(Debug)]
pub struct UploadRequestBuilder<B> {
    pub client: PCloudClient,
    /// Path of the target folder.
    pub path: Option<String>,
    /// Id of the target folder.
    pub folder_id: Option<u64>,
    /// Do not save partially uploaded files.
    pub no_partial: bool,
    /// Rename the uploaded file if a file of its name exists.
    pub rename_if_exists: bool,
    /// Modification time of the files, in seconds since the epoch.
    pub mtime: Option<i64>,
    /// Creation time of the files, in seconds since the epoch. Needs `mtime`.
    pub ctime: Option<i64>,
    /// The files to upload.
    pub files: Vec<UploadPart<B>>,
}

/// What an upload comes to.
#[derive(Debug)]
pub enum UploadPlan<B> {
    /// No file was added: nothing is sent, and this is the answer.
    Nothing(UploadedFile),
    /// Send the call with the files as the parts `part` of a multipart body.
    Send { request: Request, files: Vec<UploadPart<B>> },
}

impl<B> UploadRequestBuilder<B> {
    /// An upload into the folder that `folder_like` describes, without
    /// files yet. Partial uploads are not kept unless that is switched off.
    pub fn into_folder<T: FolderDescriptor>(client: &PCloudClient, folder_like: T) -> (b: Result<
        UploadRequestBuilder<B>,
        PCloudResult,
    >)
        ensures
            match b {
                Ok(b) => crate::folder_ops::named_folder(folder_like.spec_to_folder()) == Ok::<
                    FolderView,
                    PCloudResult,
                >(FolderView { folder_id: b.folder_id, path: b.path.deep_view() }) && b.client
                    == *client && b.no_partial && !b.rename_if_exists && b.mtime is None
                    && b.ctime is None && b.files@.len() == 0,
                Err(e) => crate::folder_ops::named_folder(folder_like.spec_to_folder()) == Err::<
                    FolderView,
                    PCloudResult,
                >(e),
            },
    {
        match crate::folder_ops::describe_folder(folder_like) {
            Ok(f) => Ok(
                UploadRequestBuilder {
                    folder_id: f.folder_id,
                    path: f.path,
                    client: client.clone(),
                    no_partial: true,
                    rename_if_exists: false,
                    mtime: None,
                    ctime: None,
                    files: Vec::new(),
                },
            ),
            Err(e) => Err(e),
        }
    }

    /// Do not save partially uploaded files (the default).
    pub fn no_partial(self, value: bool) -> (b: UploadRequestBuilder<B>)
        ensures
            b == (UploadRequestBuilder { no_partial: value, ..self }),
    {
        let mut b = self;
        b.no_partial = value;
        b
    }

    /// Rename the uploaded file if a file of its name exists.
    pub fn rename_if_exists(self, value: bool) -> (b: UploadRequestBuilder<B>)
        ensures
            b == (UploadRequestBuilder { rename_if_exists: value, ..self }),
    {
        let mut b = self;
        b.rename_if_exists = value;
        b
    }

    /// Sets the modification time of the files.
    pub fn mtime(self, value: &PCloudTime) -> (b: UploadRequestBuilder<B>)
        ensures
            b == (UploadRequestBuilder { mtime: Some(value.seconds), ..self }),
    {
        let mut b = self;
        b.mtime = Some(value.timestamp());
        b
    }

    /// Sets the creation time of the files.
    pub fn ctime(self, value: &PCloudTime) -> (b: UploadRequestBuilder<B>)
        ensures
            b == (UploadRequestBuilder { ctime: Some(value.seconds), ..self }),
    {
        let mut b = self;
        b.ctime = Some(value.timestamp());
        b
    }

    /// Adds a file to the upload, after those already added.
    pub fn with_file(self, file_name: &str, body: B) -> (b: UploadRequestBuilder<B>)
        ensures
            b.files@.len() == self.files@.len() + 1,
            b.files@.drop_last() == self.files@,
            b.files@.last().file_name@ == file_name@,
            b.files@.last().body == body,
            b == (UploadRequestBuilder { files: b.files, ..self }),
    {
        let mut b = self;
        b.files.push(UploadPart { file_name: String::from_str(file_name), body });
        assert(b.files@.drop_last() =~= self.files@);
        b
    }

    /// The call that uploads the files.
    pub open spec fn spec_request(&self) -> RequestView {
        RequestView {
            method: Method::Post,
            path: "/uploadfile"@,
            query: opt_text("path"@, self.path.deep_view()) + opt_number(
                "folderid"@,
                self.folder_id,
            ) + flag("nopartial"@, self.no_partial) + flag("renameifexists"@, self.rename_if_exists)
                + opt_signed("mtime"@, self.mtime) + opt_signed("ctime"@, self.ctime) + opt_text(
                "auth"@,
                self.client.session_token.deep_view(),
            ),
            timeout: None,
        }
    }

    /// Decides what the upload comes to: without files nothing is sent and
    /// the answer is an empty success; with files, the call and the files
    /// in the order they were added.
    pub fn upload(self) -> (plan: UploadPlan<B>)
        ensures
            self.files@.len() == 0 ==> plan is Nothing && plan->Nothing_0.result
                == PCloudResult::Success && plan->Nothing_0.fileids@.len() == 0
                && plan->Nothing_0.metadata@.len() == 0,
            self.files@.len() > 0 ==> plan is Send && plan->request@ == self.spec_request()
                && plan->files == self.files,
    {
        if self.files.len() == 0 {
            return UploadPlan::Nothing(
                UploadedFile {
                    result: PCloudResult::Success,
                    fileids: Vec::new(),
                    metadata: Vec::new(),
                },
            );
        }
        let r = Request::post("/uploadfile").opt_text("path", &self.path).opt_number(
            "folderid",
            self.folder_id,
        ).flag("nopartial", self.no_partial).flag(
            "renameifexists",
            self.rename_if_exists,
        ).opt_signed("mtime", self.mtime).opt_signed("ctime", self.ctime);
        let r = self.client.add_token(r);
        assert(r@.query =~= self.spec_request().query);
        UploadPlan::Send { request: r, files: self.files }
    }
}

/// Creates a public link to a file.
#[derive(Debug)]
pub struct PublicFileLinkRequestBuilder {
    pub client: PCloudClient,
    /// Id of the file.
    pub file_id: Option<u64>,
    /// Path of the file.
    pub path: Option<String>,
    /// When the link stops working, in the service's date pattern.
    pub expire: Option<String>,
    /// Most downloads the link allows.
    pub max_downloads: Option<u64>,
    /// Most traffic, in bytes, the link allows.
    pub max_traffic: Option<u64>,
    /// Create a short link as well.
    pub short_link: bool,
    /// Password of the link.
    pub link_password: Option<String>,
    /// Revision of the file.
    pub revision_id: Option<u64>,
}

impl PublicFileLinkRequestBuilder {
    /// A public link to the file that `file_like` describes, without limits.
    pub fn for_file<T: FileDescriptor>(client: &PCloudClient, file_like: T) -> (b: Result<
        PublicFileLinkRequestBuilder,
        PCloudResult,
    >)
        ensures
            match b {
                Ok(b) => named_file(file_like.spec_to_file()) == Ok::<FileView, PCloudResult>(
                    FileView { file_id: b.file_id, path: b.path.deep_view() },
                ) && b.client == *client && b.expire is None && b.max_downloads is None
                    && b.max_traffic is None && !b.short_link && b.link_password is None
                    && b.revision_id is None,
                Err(e) => named_file(file_like.spec_to_file()) == Err::<FileView, PCloudResult>(e),
            },
    {
        match describe_file(file_like) {
            Ok(f) => Ok(
                PublicFileLinkRequestBuilder {
                    file_id: f.file_id,
                    path: f.path,
                    client: client.clone(),
                    expire: None,
                    max_downloads: None,
                    max_traffic: None,
                    short_link: false,
                    link_password: None,
                    revision_id: None,
                },
            ),
            Err(e) => Err(e),
        }
    }

    /// When the link stops working. A date that cannot be written leaves
    /// the builder as it was; `PCloudTime::is_writable` tells beforehand.
    pub fn expire_link_after(self, value: &PCloudTime) -> (b: PublicFileLinkRequestBuilder)
        ensures
            b.expire.deep_view() == match pcloud_date_text(*value) {
                Some(text) => Some(text),
                None => self.expire.deep_view(),
            },
            b == (PublicFileLinkRequestBuilder { expire: b.expire, ..self }),
    {
        let mut b = self;
        match format_date_time_for_pcloud(value) {
            Some(text) => {
                b.expire = Some(text);
            },
            None => {},
        }
        b
    }

    /// Most downloads the link allows.
    pub fn with_max_downloads(self, value: u64) -> (b: PublicFileLinkRequestBuilder)
        ensures
            b == (PublicFileLinkRequestBuilder { max_downloads: Some(value), ..self }),
    {
        let mut b = self;
        b.max_downloads = Some(value);
        b
    }

    /// Most traffic, in bytes, the link allows.
    pub fn with_max_traffic(self, value: u64) -> (b: PublicFileLinkRequestBuilder)
        ensures
            b == (PublicFileLinkRequestBuilder { max_traffic: Some(value), ..self }),
    {
        let mut b = self;
        b.max_traffic = Some(value);
        b
    }

    /// Create a short link as well.
    pub fn with_shortlink(self, value: bool) -> (b: PublicFileLinkRequestBuilder)
        ensures
            b == (PublicFileLinkRequestBuilder { short_link: value, ..self }),
    {
        let mut b = self;
        b.short_link = value;
        b
    }

    /// Sets the password of the link.
    pub fn with_password(self, value: &str) -> (b: PublicFileLinkRequestBuilder)
        ensures
            b.link_password.deep_view() == Some(value@),
            b == (PublicFileLinkRequestBuilder { link_password: b.link_password, ..self }),
    {
        let mut b = self;
        b.link_password = Some(String::from_str(value));
        b
    }

    /// Revision of the file; the latest where none is set.
    pub fn with_revision(self, value: u64) -> (b: PublicFileLinkRequestBuilder)
        ensures
            b == (PublicFileLinkRequestBuilder { revision_id: Some(value), ..self }),
    {
        let mut b = self;
        b.revision_id = Some(value);
        b
    }

    /// The call that creates the link.
    pub open spec fn spec_request(&self) -> RequestView {
        RequestView {
            method: Method::Get,
            path: "/getfilepublink"@,
            query: opt_number("fileid"@, self.file_id) + opt_text("path"@, self.path.deep_view())
                + opt_number("maxdownloads"@, self.max_downloads) + opt_text(
                "linkpassword"@,
                self.link_password.deep_view(),
            ) + opt_number("maxtraffic"@, self.max_traffic) + flag("shortlink"@, self.short_link)
                + opt_text("expire"@, self.expire.deep_view()) + opt_number(
                "revisionid"@,
                self.revision_id,
            ) + opt_text("auth"@, self.client.session_token.deep_view()),
            timeout: None,
        }
    }

    /// Assembles the call that creates the link.
    pub fn get(self) -> (r: Request)
        ensures
            r@ == self.spec_request(),
    {
        let r = Request::get("/getfilepublink").opt_number("fileid", self.file_id).opt_text(
            "path",
            &self.path,
        ).opt_number("maxdownloads", self.max_downloads).opt_text(
            "linkpassword",
            &self.link_password,
        ).opt_number("maxtraffic", self.max_traffic).flag("shortlink", self.short_link).opt_text(
            "expire",
            &self.expire,
        ).opt_number("revisionid", self.revision_id);
        let r = self.client.add_token(r);
        assert(r@.query =~= self.spec_request().query);
        r
    }
}

/// Asks for the download link of a public file.
#[derive(Debug)]
pub struct PublicFileDownloadRequestBuilder {
    pub client: PCloudClient,
    /// Code or short code of the public link.
    pub code: String,
    /// Id of the file, if the link is to a folder.
    pub file_id: Option<u64>,
}

impl PublicFileDownloadRequestBuilder {
    /// The download of the public file with the given code.
    pub fn for_public_file(client: &PCloudClient, code: &str) -> (b:
        PublicFileDownloadRequestBuilder)
        ensures
            b.client == *client,
            b.code@ == code@,
            b.file_id is None,
    {
        PublicFileDownloadRequestBuilder {
            code: String::from_str(code),
            file_id: None,
            client: client.clone(),
        }
    }

    /// The download of a file from the public folder with the given code.
    pub fn for_file_in_public_folder(client: &PCloudClient, code: &str, file_id: u64) -> (b:
        PublicFileDownloadRequestBuilder)
        ensures
            b.client == *client,
            b.code@ == code@,
            b.file_id == Some(file_id),
    {
        PublicFileDownloadRequestBuilder {
            code: String::from_str(code),
            file_id: Some(file_id),
            client: client.clone(),
        }
    }

    /// The call that asks for the download link.
    pub open spec fn spec_request(&self) -> RequestView {
        RequestView {
            method: Method::Get,
            path: "/getpublinkdownload"@,
            query: seq![("code"@, self.code@)] + opt_number("fileid"@, self.file_id) + opt_text(
                "auth"@,
                self.client.session_token.deep_view(),
            ),
            timeout: None,
        }
    }

    /// Assembles the call that asks for the download link.
    pub fn get(self) -> (r: Request)
        ensures
            r@ == self.spec_request(),
    {
        let r = Request::get("/getpublinkdownload").text("code", self.code.clone()).opt_number(
            "fileid",
            self.file_id,
        );
        let r = self.client.add_token(r);
        assert(r@.query =~= self.spec_request().query);
        r
    }
}

/// The file a call is about, in a query: the id, then the path, then the
/// revision, whichever are set.
pub open spec fn file_target(
    file_id: Option<u64>,
    path: Option<Seq<char>>,
    revision_id: Option<u64>,
) -> QueryView {
    opt_number("fileid"@, file_id) + opt_text("path"@, path) + opt_number(
        "revisionid"@,
        revision_id,
    )
}

fn file_request(
    client: &PCloudClient,
    endpoint: &str,
    file_id: Option<u64>,
    path: &Option<String>,
    revision_id: Option<u64>,
) -> (r: Request)
    ensures
        r@ == (RequestView {
            method: Method::Get,
            path: endpoint@,
            query: file_target(file_id, path.deep_view(), revision_id) + opt_text(
                "auth"@,
                client.session_token.deep_view(),
            ),
            timeout: None,
        }),
{
    let r = Request::get(endpoint).opt_number("fileid", file_id).opt_text("path", path).opt_number(
        "revisionid",
        revision_id,
    );
    let r = client.add_token(r);
    assert(r@.query =~= file_target(file_id, path.deep_view(), revision_id) + opt_text(
        "auth"@,
        client.session_token.deep_view(),
    ));
    r
}

/// Lists the revisions of a file.
#[derive(Debug)]
pub struct ListRevisionsRequestBuilder {
    pub client: PCloudClient,
    /// Id of the file.
    pub file_id: Option<u64>,
    /// Path of the file.
    pub path: Option<String>,
}

impl ListRevisionsRequestBuilder {
    /// The call for the file that `file_like` describes.
    pub fn for_file<T: FileDescriptor>(client: &PCloudClient, file_like: T) -> (b: Result<
        ListRevisionsRequestBuilder,
        PCloudResult,
    >)
        ensures
            match b {
                Ok(b) => named_file(file_like.spec_to_file()) == Ok::<FileView, PCloudResult>(
                    FileView { file_id: b.file_id, path: b.path.deep_view() },
                ) && b.client == *client,
                Err(e) => named_file(file_like.spec_to_file()) == Err::<FileView, PCloudResult>(e),
            },
    {
        match describe_file(file_like) {
            Ok(f) => Ok(
                ListRevisionsRequestBuilder {
                    file_id: f.file_id,
                    path: f.path,
                    client: client.clone(),
                },
            ),
            Err(e) => Err(e),
        }
    }

    /// The call that lists the revisions.
    pub open spec fn spec_request(&self) -> RequestView {
        RequestView {
            method: Method::Get,
            path: "/listrevisions"@,
            query: file_target(self.file_id, self.path.deep_view(), None) + opt_text(
                "auth"@,
                self.client.session_token.deep_view(),
            ),
            timeout: None,
        }
    }

    /// Assembles the call.
    pub fn get(self) -> (r: Request)
        ensures
            r@ == self.spec_request(),
    {
        file_request(&self.client, "/listrevisions", self.file_id, &self.path, None)
    }
}

/// Asks for the checksums of a file.
#[derive(Debug)]
pub struct ChecksumFileRequestBuilder {
    pub client: PCloudClient,
    /// Id of the file.
    pub file_id: Option<u64>,
    /// Path of the file.
    pub path: Option<String>,
    /// Revision of the file.
    pub revision_id: Option<u64>,
}

impl ChecksumFileRequestBuilder {
    /// The call for the file that `file_like` describes.
    pub fn for_file<T: FileDescriptor>(client: &PCloudClient, file_like: T) -> (b: Result<
        ChecksumFileRequestBuilder,
        PCloudResult,
    >)
        ensures
            match b {
                Ok(b) => named_file(file_like.spec_to_file()) == Ok::<FileView, PCloudResult>(
                    FileView { file_id: b.file_id, path: b.path.deep_view() },
                ) && b.client == *client && b.revision_id is None,
                Err(e) => named_file(file_like.spec_to_file()) == Err::<FileView, PCloudResult>(e),
            },
    {
        match describe_file(file_like) {
            Ok(f) => Ok(
                ChecksumFileRequestBuilder {
                    file_id: f.file_id,
                    path: f.path,
                    client: client.clone(),
                    revision_id: None,
                },
            ),
            Err(e) => Err(e),
        }
    }

    /// Revision of the file; the latest where none is set.
    pub fn with_revision(self, value: u64) -> (b: ChecksumFileRequestBuilder)
        ensures
            b == (ChecksumFileRequestBuilder { revision_id: Some(value), ..self }),
    {
        let mut b = self;
        b.revision_id = Some(value);
        b
    }

    /// The call that asks for the checksums.
    pub open spec fn spec_request(&self) -> RequestView {
        RequestView {
            method: Method::Get,
            path: "/checksumfile"@,
            query: file_target(self.file_id, self.path.deep_view(), self.revision_id) + opt_text(
                "auth"@,
                self.client.session_token.deep_view(),
            ),
            timeout: None,
        }
    }

    /// Assembles the call.
    pub fn get(self) -> (r: Request)
        ensures
            r@ == self.spec_request(),
    {
        file_request(&self.client, "/checksumfile", self.file_id, &self.path, self.revision_id)
    }
}

/// Deletes a file.
#[derive(Debug)]
pub struct FileDeleteRequestBuilder {
    pub client: PCloudClient,
    /// Id of the file.
    pub file_id: Option<u64>,
    /// Path of the file.
    pub path: Option<String>,
}

impl FileDeleteRequestBuilder {
    /// The call for the file that `file_like` describes.
    pub fn for_file<T: FileDescriptor>(client: &PCloudClient, file_like: T) -> (b: Result<
        FileDeleteRequestBuilder,
        PCloudResult,
    >)
        ensures
            match b {
                Ok(b) => named_file(file_like.spec_to_file()) == Ok::<FileView, PCloudResult>(
                    FileView { file_id: b.file_id, path: b.path.deep_view() },
                ) && b.client == *client,
                Err(e) => named_file(file_like.spec_to_file()) == Err::<FileView, PCloudResult>(e),
            },
    {
        match describe_file(file_like) {
            Ok(f) => Ok(
                FileDeleteRequestBuilder {
                    file_id: f.file_id,
                    path: f.path,
                    client: client.clone(),
                },
            ),
            Err(e) => Err(e),
        }
    }

    /// The call that deletes the file.
    pub open spec fn spec_request(&self) -> RequestView {
        RequestView {
            method: Method::Get,
            path: "/deletefile"@,
            query: file_target(self.file_id, self.path.deep_view(), None) + opt_text(
                "auth"@,
                self.client.session_token.deep_view(),
            ),
            timeout: None,
        }
    }

    /// Assembles the call.
    pub fn execute(self) -> (r: Request)
        ensures
            r@ == self.spec_request(),
    {
        file_request(&self.client, "/deletefile", self.file_id, &self.path, None)
    }
}

/// Asks for the download link of a file.
#[derive(Debug)]
pub struct FileDownloadRequestBuilder {
    pub client: PCloudClient,
    /// Id of the file.
    pub file_id: Option<u64>,
    /// Path of the file.
    pub path: Option<String>,
    /// Revision of the file.
    pub revision_id: Option<u64>,
}

impl FileDownloadRequestBuilder {
    /// The call for the file that `file_like` describes.
    pub fn for_file<T: FileDescriptor>(client: &PCloudClient, file_like: T) -> (b: Result<
        FileDownloadRequestBuilder,
        PCloudResult,
    >)
        ensures
            match b {
                Ok(b) => named_file(file_like.spec_to_file()) == Ok::<FileView, PCloudResult>(
                    FileView { file_id: b.file_id, path: b.path.deep_view() },
                ) && b.client == *client && b.revision_id is None,
                Err(e) => named_file(file_like.spec_to_file()) == Err::<FileView, PCloudResult>(e),
            },
    {
        match describe_file(file_like) {
            Ok(f) => Ok(
                FileDownloadRequestBuilder {
                    file_id: f.file_id,
                    path: f.path,
                    client: client.clone(),
                    revision_id: None,
                },
            ),
            Err(e) => Err(e),
        }
    }

    /// Revision of the file; the latest where none is set.
    pub fn with_revision(self, value: u64) -> (b: FileDownloadRequestBuilder)
        ensures
            b == (FileDownloadRequestBuilder { revision_id: Some(value), ..self }),
    {
        let mut b = self;
        b.revision_id = Some(value);
        b
    }

    /// The call that asks for the download link.
    pub open spec fn spec_request(&self) -> RequestView {
        RequestView {
            method: Method::Get,
            path: "/getfilelink"@,
            query: file_target(self.file_id, self.path.deep_view(), self.revision_id) + opt_text(
                "auth"@,
                self.client.session_token.deep_view(),
            ),
            timeout: None,
        }
    }

    /// Assembles the call.
    pub fn get(self) -> (r: Request)
        ensures
            r@ == self.spec_request(),
    {
        file_request(&self.client, "/getfilelink", self.file_id, &self.path, self.revision_id)
    }
}

/// Asks for the metadata of a file.
#[derive(Debug)]
pub struct FileStatRequestBuilder {
    pub client: PCloudClient,
    /// Id of the file.
    pub file_id: Option<u64>,
    /// Path of the file.
    pub path: Option<String>,
    /// Revision of the file.
    pub revision_id: Option<u64>,
}

impl FileStatRequestBuilder {
    /// The call for the file that `file_like` describes.
    pub fn for_file<T: FileDescriptor>(client: &PCloudClient, file_like: T) -> (b: Result<
        FileStatRequestBuilder,
        PCloudResult,
    >)
        ensures
            match b {
                Ok(b) => named_file(file_like.spec_to_file()) == Ok::<FileView, PCloudResult>(
                    FileView { file_id: b.file_id, path: b.path.deep_view() },
                ) && b.client == *client && b.revision_id is None,
                Err(e) => named_file(file_like.spec_to_file()) == Err::<FileView, PCloudResult>(e),
            },
    {
        match describe_file(file_like) {
            Ok(f) => Ok(
                FileStatRequestBuilder {
                    file_id: f.file_id,
                    path: f.path,
                    client: client.clone(),
                    revision_id: None,
                },
            ),
            Err(e) => Err(e),
        }
    }

    /// Revision of the file; the latest where none is set.
    pub fn with_revision(self, value: u64) -> (b: FileStatRequestBuilder)
        ensures
            b == (FileStatRequestBuilder { revision_id: Some(value), ..self }),
    {
        let mut b = self;
        b.revision_id = Some(value);
        b
    }

    /// The call that asks for the metadata.
    pub open spec fn spec_request(&self) -> RequestView {
        RequestView {
            method: Method::Get,
            path: "/stat"@,
            query: file_target(self.file_id, self.path.deep_view(), self.revision_id) + opt_text(
                "auth"@,
                self.client.session_token.deep_view(),
            ),
            timeout: None,
        }
    }

    /// Assembles the call.
    pub fn get(self) -> (r: Request)
        ensures
            r@ == self.spec_request(),
    {
        file_request(&self.client, "/stat", self.file_id, &self.path, self.revision_id)
    }
}

} // verus!
