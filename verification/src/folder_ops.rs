use crate::pcloud_client::PCloudClient;
use crate::pcloud_model::{FileOrFolderStat, Metadata, PCloudResult};
use crate::request::{decimal, decimal_string, flag, opt_number, opt_text, Method, Request, RequestView};
use vstd::prelude::*;
use vstd::string::*;

verus! {

/// Description of a folder: by its id (preferred) or by its path.
#[derive(Debug, Clone)]
pub struct PCloudFolder {
    /// Id of the folder.
    pub folder_id: Option<u64>,
    /// Path of the folder.
    pub path: Option<String>,
}

/// A folder description as mathematics.
pub struct FolderView {
    pub folder_id: Option<u64>,
    pub path: Option<Seq<char>>,
}

impl View for PCloudFolder {
    type V = FolderView;

    open spec fn view(&self) -> FolderView {
        FolderView { folder_id: self.folder_id, path: self.path.deep_view() }
    }
}

/// The view of a conversion's outcome.
pub open spec fn folder_result(r: Result<PCloudFolder, PCloudResult>) -> Result<
    FolderView,
    PCloudResult,
> {
    match r {
        Ok(folder) => Ok(folder@),
        Err(e) => Err(e),
    }
}

/// The folder a path names. The root, `/`, always has id 0; any other path
/// has to be absolute.
pub open spec fn folder_of_path(path: Seq<char>) -> Result<FolderView, PCloudResult> {
    if path == seq!['/'] {
        Ok(FolderView { folder_id: Some(0), path: None })
    } else if path.len() > 0 && path[0] == '/' {
        Ok(FolderView { folder_id: None, path: Some(path) })
    } else {
        Err(PCloudResult::InvalidPath)
    }
}

/// The folder with the given id.
pub open spec fn folder_of_id(id: u64) -> FolderView {
    FolderView { folder_id: Some(id), path: None }
}

/// The folder that metadata describes; metadata of a file describes none.
pub open spec fn folder_of_metadata(metadata: Metadata) -> Result<FolderView, PCloudResult> {
    if !metadata.isfolder {
        Err(PCloudResult::InvalidFileOrFolderName)
    } else {
        Ok(FolderView { folder_id: metadata.folderid, path: None })
    }
}

/// The folder that a metadata answer describes; a failed or empty answer
/// describes none.
pub open spec fn folder_of_stat(stat: FileOrFolderStat) -> Result<FolderView, PCloudResult> {
    if stat.result == PCloudResult::Success && stat.metadata is Some {
        folder_of_metadata(stat.metadata->0)
    } else {
        Err(PCloudResult::InvalidPath)
    }
}

/// Anything that describes a folder: an id, a path, metadata, or a description itself.
pub trait FolderDescriptor: Sized {
    /// The folder this value describes, or why it describes none.
    spec fn spec_to_folder(self) -> Result<FolderView, PCloudResult>;

    /// Converts the descriptor into a folder description.
    fn to_folder(self) -> (folder: Result<PCloudFolder, PCloudResult>)
        ensures
            folder_result(folder) == self.spec_to_folder(),
    ;
}

impl PCloudFolder {
    /// Whether the description names nothing: neither an id nor a path.
    pub fn is_empty(&self) -> (empty: bool)
        ensures
            empty == (self.folder_id is None && self.path is None),
    {
        self.folder_id.is_none() && self.path.is_none()
    }

    /// The id as a decimal number, else the path, else a note that the
    /// description is empty.
    pub open spec fn spec_to_string(&self) -> Seq<char> {
        if self.folder_id is Some {
            decimal(self.folder_id->0 as nat)
        } else if self.path is Some {
            self.path->0@
        } else {
            "[Empty pCloud folder descriptor!]"@
        }
    }

    /// Writes the description for a person to read.
    pub fn to_string(&self) -> (text: String)
        ensures
            text@ == self.spec_to_string(),
    {
        match self.folder_id {
            Some(folder_id) => decimal_string(folder_id),
            None => match &self.path {
                Some(path) => path.clone(),
                None => String::from_str("[Empty pCloud folder descriptor!]"),
            },
        }
    }

    /// The folder a path names.
    pub fn from_path(value: &str) -> (folder: Result<PCloudFolder, PCloudResult>)
        ensures
            folder_result(folder) == folder_of_path(value@),
    {
        let length = value.unicode_len();
        if length == 0 {
            Err(PCloudResult::InvalidPath)
        } else if value.get_char(0) == '/' {
            if length == 1 {
                assert(value@ =~= seq!['/']);
                Ok(PCloudFolder { folder_id: Some(0), path: None })
            } else {
                Ok(PCloudFolder { folder_id: None, path: Some(String::from_str(value)) })
            }
        } else {
            Err(PCloudResult::InvalidPath)
        }
    }

    /// The folder that metadata describes.
    pub fn try_from_metadata(value: &Metadata) -> (folder: Result<PCloudFolder, PCloudResult>)
        ensures
            folder_result(folder) == folder_of_metadata(*value),
    {
        if !value.isfolder {
            Err(PCloudResult::InvalidFileOrFolderName)
        } else {
            Ok(PCloudFolder { folder_id: value.folderid, path: None })
        }
    }

    /// The folder that a metadata answer describes.
    pub fn try_from_stat(value: &FileOrFolderStat) -> (folder: Result<PCloudFolder, PCloudResult>)
        ensures
            folder_result(folder) == folder_of_stat(*value),
    {
        if value.result.is_ok() {
            match &value.metadata {
                Some(metadata) => PCloudFolder::try_from_metadata(metadata),
                None => Err(PCloudResult::InvalidPath),
            }
        } else {
            Err(PCloudResult::InvalidPath)
        }
    }
}

impl From<u64> for PCloudFolder {
    fn from(value: u64) -> (folder: PCloudFolder)
        ensures
            folder@ == folder_of_id(value),
    {
        PCloudFolder { folder_id: Some(value), path: None }
    }
}

impl vstd::std_specs::convert::FromSpecImpl<u64> for PCloudFolder {
    open spec fn obeys_from_spec() -> bool {
        true
    }

    open spec fn from_spec(value: u64) -> PCloudFolder {
        PCloudFolder { folder_id: Some(value), path: None }
    }
}

impl<'a> TryFrom<&'a str> for PCloudFolder {
    type Error = PCloudResult;

    fn try_from(value: &'a str) -> (folder: Result<PCloudFolder, PCloudResult>)
        ensures
            folder_result(folder) == folder_of_path(value@),
    {
        PCloudFolder::from_path(value)
    }
}

impl<'a> vstd::std_specs::convert::TryFromSpecImpl<&'a str> for PCloudFolder {
    open spec fn obeys_try_from_spec() -> bool {
        false
    }

    open spec fn try_from_spec(value: &'a str) -> Result<PCloudFolder, PCloudResult> {
        arbitrary()
    }
}

impl<'a> From<&'a u64> for PCloudFolder {
    fn from(value: &'a u64) -> (folder: PCloudFolder)
        ensures
            folder@ == folder_of_id(*value),
    {
        PCloudFolder { folder_id: Some(*value), path: None }
    }
}

impl<'a> vstd::std_specs::convert::FromSpecImpl<&'a u64> for PCloudFolder {
    open spec fn obeys_from_spec() -> bool {
        true
    }

    open spec fn from_spec(value: &'a u64) -> PCloudFolder {
        PCloudFolder { folder_id: Some(*value), path: None }
    }
}

impl TryFrom<String> for PCloudFolder {
    type Error = PCloudResult;

    fn try_from(value: String) -> (folder: Result<PCloudFolder, PCloudResult>)
        ensures
            folder_result(folder) == folder_of_path(value@),
    {
        PCloudFolder::from_path(value.as_str())
    }
}

impl vstd::std_specs::convert::TryFromSpecImpl<String> for PCloudFolder {
    open spec fn obeys_try_from_spec() -> bool {
        false
    }

    open spec fn try_from_spec(value: String) -> Result<PCloudFolder, PCloudResult> {
        arbitrary()
    }
}

impl<'a> TryFrom<&'a Metadata> for PCloudFolder {
    type Error = PCloudResult;

    fn try_from(value: &'a Metadata) -> (folder: Result<PCloudFolder, PCloudResult>)
        ensures
            folder_result(folder) == folder_of_metadata(*value),
    {
        PCloudFolder::try_from_metadata(value)
    }
}

impl<'a> vstd::std_specs::convert::TryFromSpecImpl<&'a Metadata> for PCloudFolder {
    open spec fn obeys_try_from_spec() -> bool {
        false
    }

    open spec fn try_from_spec(value: &'a Metadata) -> Result<PCloudFolder, PCloudResult> {
        arbitrary()
    }
}

impl<'a> TryFrom<&'a FileOrFolderStat> for PCloudFolder {
    type Error = PCloudResult;

    fn try_from(value: &'a FileOrFolderStat) -> (folder: Result<PCloudFolder, PCloudResult>)
        ensures
            folder_result(folder) == folder_of_stat(*value),
    {
        PCloudFolder::try_from_stat(value)
    }
}

impl<'a> vstd::std_specs::convert::TryFromSpecImpl<&'a FileOrFolderStat> for PCloudFolder {
    open spec fn obeys_try_from_spec() -> bool {
        false
    }

    open spec fn try_from_spec(value: &'a FileOrFolderStat) -> Result<PCloudFolder, PCloudResult> {
        arbitrary()
    }
}

impl FolderDescriptor for u64 {
    open spec fn spec_to_folder(self) -> Result<FolderView, PCloudResult> {
        Ok(folder_of_id(self))
    }

    fn to_folder(self) -> (folder: Result<PCloudFolder, PCloudResult>) {
        Ok(PCloudFolder { folder_id: Some(self), path: None })
    }
}

impl FolderDescriptor for &u64 {
    open spec fn spec_to_folder(self) -> Result<FolderView, PCloudResult> {
        Ok(folder_of_id(*self))
    }

    fn to_folder(self) -> (folder: Result<PCloudFolder, PCloudResult>) {
        Ok(PCloudFolder { folder_id: Some(*self), path: None })
    }
}

impl FolderDescriptor for String {
    open spec fn spec_to_folder(self) -> Result<FolderView, PCloudResult> {
        folder_of_path(self@)
    }

    fn to_folder(self) -> (folder: Result<PCloudFolder, PCloudResult>) {
        PCloudFolder::from_path(self.as_str())
    }
}

impl FolderDescriptor for &str {
    open spec fn spec_to_folder(self) -> Result<FolderView, PCloudResult> {
        folder_of_path(self@)
    }

    fn to_folder(self) -> (folder: Result<PCloudFolder, PCloudResult>) {
        PCloudFolder::from_path(self)
    }
}

impl FolderDescriptor for &Metadata {
    open spec fn spec_to_folder(self) -> Result<FolderView, PCloudResult> {
        folder_of_metadata(*self)
    }

    fn to_folder(self) -> (folder: Result<PCloudFolder, PCloudResult>) {
        PCloudFolder::try_from_metadata(self)
    }
}

impl FolderDescriptor for &FileOrFolderStat {
    open spec fn spec_to_folder(self) -> Result<FolderView, PCloudResult> {
        folder_of_stat(*self)
    }

    fn to_folder(self) -> (folder: Result<PCloudFolder, PCloudResult>) {
        PCloudFolder::try_from_stat(self)
    }
}

impl FolderDescriptor for PCloudFolder {
    open spec fn spec_to_folder(self) -> Result<FolderView, PCloudResult> {
        Ok(self@)
    }

    fn to_folder(self) -> (folder: Result<PCloudFolder, PCloudResult>) {
        Ok(self)
    }
}

/// The outcome of describing the target of a call: the folder, unless the
/// descriptor names none or names nothing.
pub open spec fn named_folder(described: Result<FolderView, PCloudResult>) -> Result<
    FolderView,
    PCloudResult,
> {
    match described {
        Ok(folder) => if folder.folder_id is None && folder.path is None {
            Err(PCloudResult::NoFileIdOrPathProvided)
        } else {
            Ok(folder)
        },
        Err(e) => Err(e),
    }
}

/// Converts a descriptor and rejects an empty description.
pub fn describe_folder<T: FolderDescriptor>(folder_like: T) -> (folder: Result<
    PCloudFolder,
    PCloudResult,
>)
    ensures
        folder_result(folder) == named_folder(folder_like.spec_to_folder()),
{
    match folder_like.to_folder() {
        Ok(folder) => {
            if folder.is_empty() {
                Err(PCloudResult::NoFileIdOrPathProvided)
            } else {
                Ok(folder)
            }
        },
        Err(e) => Err(e),
    }
}

/// The target of a folder call in a query: the path, then the folder id,
/// whichever the description holds.
pub open spec fn folder_target(path: Option<Seq<char>>, folder_id: Option<u64>) -> Seq<
    (Seq<char>, Seq<char>),
> {
    opt_text("path"@, path) + opt_number("folderid"@, folder_id)
}

/// Source and destination of a copy or a move in a query, with the new name if one is set.
pub open spec fn folder_transfer(
    from_path: Option<Seq<char>>,
    from_folder_id: Option<u64>,
    to_path: Option<Seq<char>>,
    to_folder_id: Option<u64>,
    to_name: Option<Seq<char>>,
) -> Seq<(Seq<char>, Seq<char>)> {
    opt_text("path"@, from_path) + opt_number("folderid"@, from_folder_id) + opt_text(
        "topath"@,
        to_path,
    ) + opt_number("tofolderid"@, to_folder_id) + opt_text("toname"@, to_name)
}

fn transfer_request(
    endpoint: &str,
    from_path: &Option<String>,
    from_folder_id: Option<u64>,
    to_path: &Option<String>,
    to_folder_id: Option<u64>,
    to_name: &Option<String>,
) -> (r: Request)
    ensures
        r@ == (RequestView {
            method: Method::Post,
            path: endpoint@,
            query: folder_transfer(
                from_path.deep_view(),
                from_folder_id,
                to_path.deep_view(),
                to_folder_id,
                to_name.deep_view(),
            ),
            timeout: None,
        }),
{
    let r = Request::post(endpoint).opt_text("path", from_path).opt_number(
        "folderid",
        from_folder_id,
    ).opt_text("topath", to_path).opt_number("tofolderid", to_folder_id).opt_text(
        "toname",
        to_name,
    );
    assert(r@.query =~= folder_transfer(
        from_path.deep_view(),
        from_folder_id,
        to_path.deep_view(),
        to_folder_id,
        to_name.deep_view(),
    ));
    r
}

/// Deletes a folder, either only if it is empty or with all it holds.
#[derive(Debug)]
pub struct DeleteFolderRequestBuilder {
    pub client: PCloudClient,
    /// Path of the folder.
    pub path: Option<String>,
    /// Id of the folder.
    pub folder_id: Option<u64>,
}

impl DeleteFolderRequestBuilder {
    /// A deletion of the folder that `folder_like` describes.
    pub fn for_folder<T: FolderDescriptor>(client: &PCloudClient, folder_like: T) -> (b: Result<
        DeleteFolderRequestBuilder,
        PCloudResult,
    >)
        ensures
            match b {
                Ok(b) => named_folder(folder_like.spec_to_folder()) == Ok::<
                    FolderView,
                    PCloudResult,
                >(FolderView { folder_id: b.folder_id, path: b.path.deep_view() }) && b.client
                    == *client,
                Err(e) => named_folder(folder_like.spec_to_folder()) == Err::<
                    FolderView,
                    PCloudResult,
                >(e),
            },
    {
        match describe_folder(folder_like) {
            Ok(f) => Ok(
                DeleteFolderRequestBuilder {
                    folder_id: f.folder_id,
                    path: f.path,
                    client: client.clone(),
                },
            ),
            Err(e) => Err(e),
        }
    }

    /// The call to `endpoint` for the folder of this builder.
    pub open spec fn spec_request(&self, endpoint: Seq<char>) -> RequestView {
        RequestView {
            method: Method::Get,
            path: endpoint,
            query: folder_target(self.path.deep_view(), self.folder_id) + opt_text(
                "auth"@,
                self.client.session_token.deep_view(),
            ),
            timeout: None,
        }
    }

    fn request(&self, endpoint: &str) -> (r: Request)
        ensures
            r@ == self.spec_request(endpoint@),
    {
        let r = Request::get(endpoint).opt_text("path", &self.path).opt_number(
            "folderid",
            self.folder_id,
        );
        let r = self.client.add_token(r);
        assert(r@.query =~= self.spec_request(endpoint@).query);
        r
    }

    /// The call that deletes the folder and all its content.
    pub fn delete_recursive(self) -> (r: Request)
        ensures
            r@ == self.spec_request("/deletefolderrecursive"@),
    {
        self.request("/deletefolderrecursive")
    }

    /// The call that deletes the folder only if it is empty.
    pub fn delete_folder_if_empty(self) -> (r: Request)
        ensures
            r@ == self.spec_request("/deletefolder"@),
    {
        self.request("/deletefolder")
    }
}

/// Creates a folder inside a parent folder.
#[derive(Debug)]
pub struct CreateFolderRequestBuilder {
    pub client: PCloudClient,
    /// Path of the parent folder.
    pub path: Option<String>,
    /// Id of the parent folder.
    pub folder_id: Option<u64>,
    /// Name of the folder to create.
    pub name: String,
    /// Return the existing folder's metadata instead of failing when the
    /// folder is already there.
    pub if_not_exists: bool,
}

impl CreateFolderRequestBuilder {
    /// The creation of a folder called `name` inside the folder that
    /// `folder_like_parent` describes. It succeeds on an existing folder
    /// unless `if_not_exists` is switched off.
    pub fn for_folder<T: FolderDescriptor>(
        client: &PCloudClient,
        folder_like_parent: T,
        name: &str,
    ) -> (b: Result<CreateFolderRequestBuilder, PCloudResult>)
        ensures
            match b {
                Ok(b) => named_folder(folder_like_parent.spec_to_folder()) == Ok::<
                    FolderView,
                    PCloudResult,
                >(FolderView { folder_id: b.folder_id, path: b.path.deep_view() }) && b.client
                    == *client && b.name@ == name@ && b.if_not_exists,
                Err(e) => named_folder(folder_like_parent.spec_to_folder()) == Err::<
                    FolderView,
                    PCloudResult,
                >(e),
            },
    {
        match describe_folder(folder_like_parent) {
            Ok(f) => Ok(
                CreateFolderRequestBuilder {
                    folder_id: f.folder_id,
                    path: f.path,
                    client: client.clone(),
                    name: String::from_str(name),
                    if_not_exists: true,
                },
            ),
            Err(e) => Err(e),
        }
    }

    /// Whether an existing folder counts as success (the default) or as failure.
    pub fn if_not_exists(self, value: bool) -> (b: CreateFolderRequestBuilder)
        ensures
            b == (CreateFolderRequestBuilder { if_not_exists: value, ..self }),
    {
        let mut b = self;
        b.if_not_exists = value;
        b
    }

    /// The call that creates the folder.
    pub open spec fn spec_request(&self) -> RequestView {
        RequestView {
            method: Method::Get,
            path: if self.if_not_exists {
                "/createfolderifnotexists"@
            } else {
                "/createfolder"@
            },
            query: folder_target(self.path.deep_view(), self.folder_id) + seq![
                ("name"@, self.name@),
            ] + opt_text("auth"@, self.client.session_token.deep_view()),
            timeout: None,
        }
    }

    /// Assembles the call that creates the folder.
    pub fn execute(self) -> (r: Request)
        ensures
            r@ == self.spec_request(),
    {
        let r = if self.if_not_exists {
            Request::get("/createfolderifnotexists")
        } else {
            Request::get("/createfolder")
        };
        let r = r.opt_text("path", &self.path).opt_number("folderid", self.folder_id).text(
            "name",
            self.name.clone(),
        );
        let r = self.client.add_token(r);
        assert(r@.query =~= self.spec_request().query);
        r
    }
}

/// Copies a folder into another folder.
#[derive(Debug)]
pub struct CopyFolderRequestBuilder {
    pub client: PCloudClient,
    /// Path of the source folder.
    pub from_path: Option<String>,
    /// Id of the source folder.
    pub from_folder_id: Option<u64>,
    /// Path of the destination folder.
    pub to_path: Option<String>,
    /// Id of the destination folder.
    pub to_folder_id: Option<u64>,
    /// New name of the copy.
    pub to_name: Option<String>,
    /// Overwrite files of the same name.
    pub overwrite: bool,
    /// Leave `skipexisting` out of the call. While this is off, as it is
    /// at first, the call carries `skipexisting=1` and the service skips
    /// files that already exist.
    pub skip_existing: bool,
    /// Leave `copycontentonly` out of the call. While this is off, as it
    /// is at first, the call carries `copycontentonly=1` and the service
    /// copies the content of the source folder, not the folder itself.
    pub copy_content_only: bool,
}

/// A pair of described folders, source first: both have to be named.
pub open spec fn named_pair(
    source: Result<FolderView, PCloudResult>,
    target: Result<FolderView, PCloudResult>,
) -> Result<(FolderView, FolderView), PCloudResult> {
    match source {
        Err(e) => Err(e),
        Ok(s) => match target {
            Err(e) => Err(e),
            Ok(t) => if (s.folder_id is None && s.path is None) || (t.folder_id is None
                && t.path is None) {
                Err(PCloudResult::NoFileIdOrPathProvided)
            } else {
                Ok((s, t))
            },
        },
    }
}

fn describe_pair<S: FolderDescriptor, T: FolderDescriptor>(
    folder_like: S,
    target_folder_like: T,
) -> (pair: Result<(PCloudFolder, PCloudFolder), PCloudResult>)
    ensures
        match pair {
            Ok(p) => named_pair(
                folder_like.spec_to_folder(),
                target_folder_like.spec_to_folder(),
            ) == Ok::<(FolderView, FolderView), PCloudResult>((p.0@, p.1@)),
            Err(e) => named_pair(
                folder_like.spec_to_folder(),
                target_folder_like.spec_to_folder(),
            ) == Err::<(FolderView, FolderView), PCloudResult>(e),
        },
{
    let source = match folder_like.to_folder() {
        Ok(s) => s,
        Err(e) => {
            return Err(e);
        },
    };
    let target = match target_folder_like.to_folder() {
        Ok(t) => t,
        Err(e) => {
            return Err(e);
        },
    };
    if !source.is_empty() && !target.is_empty() {
        Ok((source, target))
    } else {
        Err(PCloudResult::NoFileIdOrPathProvided)
    }
}

impl CopyFolderRequestBuilder {
    /// A copy of the folder that `folder_like` describes into the one that
    /// `target_folder_like` describes. Files of the same name are overwritten
    /// unless that is switched off; both other switches start off, so the
    /// call carries `skipexisting=1` and `copycontentonly=1` until they are
    /// switched on.
    pub fn copy_folder<S: FolderDescriptor, T: FolderDescriptor>(
        client: &PCloudClient,
        folder_like: S,
        target_folder_like: T,
    ) -> (b: Result<CopyFolderRequestBuilder, PCloudResult>)
        ensures
            match b {
                Ok(b) => named_pair(
                    folder_like.spec_to_folder(),
                    target_folder_like.spec_to_folder(),
                ) == Ok::<(FolderView, FolderView), PCloudResult>(
                    (
                        FolderView {
                            folder_id: b.from_folder_id,
                            path: b.from_path.deep_view(),
                        },
                        FolderView { folder_id: b.to_folder_id, path: b.to_path.deep_view() },
                    ),
                ) && b.client == *client && b.to_name is None && b.overwrite && !b.skip_existing
                    && !b.copy_content_only,
                Err(e) => named_pair(
                    folder_like.spec_to_folder(),
                    target_folder_like.spec_to_folder(),
                ) == Err::<(FolderView, FolderView), PCloudResult>(e),
            },
    {
        match describe_pair(folder_like, target_folder_like) {
            Ok((source, target)) => Ok(
                CopyFolderRequestBuilder {
                    from_path: source.path,
                    from_folder_id: source.folder_id,
                    to_path: target.path,
                    to_folder_id: target.folder_id,
                    client: client.clone(),
                    to_name: None,
                    overwrite: true,
                    skip_existing: false,
                    copy_content_only: false,
                },
            ),
            Err(e) => Err(e),
        }
    }

    /// Overwrite files of the same name (the default) or fail on them.
    pub fn overwrite(self, value: bool) -> (b: CopyFolderRequestBuilder)
        ensures
            b == (CopyFolderRequestBuilder { overwrite: value, ..self }),
    {
        let mut b = self;
        b.overwrite = value;
        b
    }

    /// With `true`, `skipexisting` is left out of the call; with `false`
    /// the call carries `skipexisting=1`.
    pub fn skip_existing(self, value: bool) -> (b: CopyFolderRequestBuilder)
        ensures
            b == (CopyFolderRequestBuilder { skip_existing: value, ..self }),
    {
        let mut b = self;
        b.skip_existing = value;
        b
    }

    /// With `true`, `copycontentonly` is left out of the call; with
    /// `false` the call carries `copycontentonly=1`.
    pub fn copy_content_only(self, value: bool) -> (b: CopyFolderRequestBuilder)
        ensures
            b == (CopyFolderRequestBuilder { copy_content_only: value, ..self }),
    {
        let mut b = self;
        b.copy_content_only = value;
        b
    }

    /// The call that copies the folder. `noover` is sent when overwriting is
    /// off; `skipexisting` and `copycontentonly` are sent while their
    /// settings are off.
    pub open spec fn spec_request(&self) -> RequestView {
        RequestView {
            method: Method::Post,
            path: "/copyfolder"@,
            query: folder_transfer(
                self.from_path.deep_view(),
                self.from_folder_id,
                self.to_path.deep_view(),
                self.to_folder_id,
                self.to_name.deep_view(),
            ) + flag("noover"@, !self.overwrite) + flag("skipexisting"@, !self.skip_existing)
                + flag("copycontentonly"@, !self.copy_content_only) + opt_text(
                "auth"@,
                self.client.session_token.deep_view(),
            ),
            timeout: None,
        }
    }

    /// Assembles the call that copies the folder.
    pub fn execute(self) -> (r: Request)
        ensures
            r@ == self.spec_request(),
    {
        let r = transfer_request(
            "/copyfolder",
            &self.from_path,
            self.from_folder_id,
            &self.to_path,
            self.to_folder_id,
            &self.to_name,
        ).flag("noover", !self.overwrite).flag("skipexisting", !self.skip_existing).flag(
            "copycontentonly",
            !self.copy_content_only,
        );
        let r = self.client.add_token(r);
        assert(r@.query =~= self.spec_request().query);
        r
    }
}

/// Renames a folder, moves it, or both.
#[derive(Debug)]
pub struct MoveFolderRequestBuilder {
    pub client: PCloudClient,
    /// Path of the source folder.
    pub from_path: Option<String>,
    /// Id of the source folder.
    pub from_folder_id: Option<u64>,
    /// Path of the destination folder.
    pub to_path: Option<String>,
    /// Id of the destination folder.
    pub to_folder_id: Option<u64>,
    /// New name of the folder.
    pub to_name: Option<String>,
}

impl MoveFolderRequestBuilder {
    /// A move of the folder that `folder_like` describes into the one that
    /// `target_folder_like` describes.
    pub fn move_folder<S: FolderDescriptor, T: FolderDescriptor>(
        client: &PCloudClient,
        folder_like: S,
        target_folder_like: T,
    ) -> (b: Result<MoveFolderRequestBuilder, PCloudResult>)
        ensures
            match b {
                Ok(b) => named_pair(
                    folder_like.spec_to_folder(),
                    target_folder_like.spec_to_folder(),
                ) == Ok::<(FolderView, FolderView), PCloudResult>(
                    (
                        FolderView {
                            folder_id: b.from_folder_id,
                            path: b.from_path.deep_view(),
                        },
                        FolderView { folder_id: b.to_folder_id, path: b.to_path.deep_view() },
                    ),
                ) && b.client == *client && b.to_name is None,
                Err(e) => named_pair(
                    folder_like.spec_to_folder(),
                    target_folder_like.spec_to_folder(),
                ) == Err::<(FolderView, FolderView), PCloudResult>(e),
            },
    {
        match describe_pair(folder_like, target_folder_like) {
            Ok((source, target)) => Ok(
                MoveFolderRequestBuilder {
                    from_path: source.path,
                    from_folder_id: source.folder_id,
                    to_path: target.path,
                    to_folder_id: target.folder_id,
                    client: client.clone(),
                    to_name: None,
                },
            ),
            Err(e) => Err(e),
        }
    }

    /// Name of the folder at its destination; the present name where none is set.
    pub fn with_new_name(self, value: &str) -> (b: MoveFolderRequestBuilder)
        ensures
            b.to_name.deep_view() == Some(value@),
            b.client == self.client,
            b.from_path == self.from_path,
            b.from_folder_id == self.from_folder_id,
            b.to_path == self.to_path,
            b.to_folder_id == self.to_folder_id,
    {
        let mut b = self;
        b.to_name = Some(String::from_str(value));
        b
    }

    /// The call that moves the folder.
    pub open spec fn spec_request(&self) -> RequestView {
        RequestView {
            method: Method::Post,
            path: "/renamefolder"@,
            query: folder_transfer(
                self.from_path.deep_view(),
                self.from_folder_id,
                self.to_path.deep_view(),
                self.to_folder_id,
                self.to_name.deep_view(),
            ) + opt_text("auth"@, self.client.session_token.deep_view()),
            timeout: None,
        }
    }

    /// Assembles the call that moves the folder.
    pub fn execute(self) -> (r: Request)
        ensures
            r@ == self.spec_request(),
    {
        let r = transfer_request(
            "/renamefolder",
            &self.from_path,
            self.from_folder_id,
            &self.to_path,
            self.to_folder_id,
            &self.to_name,
        );
        let r = self.client.add_token(r);
        assert(r@.query =~= self.spec_request().query);
        r
    }
}

/// Lists what a folder holds.
#[derive(Debug)]
pub struct ListFolderRequestBuilder {
    pub client: PCloudClient,
    /// Path of the folder.
    pub path: Option<String>,
    /// Id of the folder.
    pub folder_id: Option<u64>,
    /// Return the full directory tree.
    pub recursive: bool,
    /// Show deleted files and folders that can be restored.
    pub show_deleted: bool,
    /// Return only the folder structure.
    pub no_files: bool,
    /// Show only the user's own folders and files.
    pub no_shares: bool,
}

impl ListFolderRequestBuilder {
    /// A listing of the folder that `folder_like` describes, with every option off.
    pub fn for_folder<T: FolderDescriptor>(client: &PCloudClient, folder_like: T) -> (b: Result<
        ListFolderRequestBuilder,
        PCloudResult,
    >)
        ensures
            match b {
                Ok(b) => named_folder(folder_like.spec_to_folder()) == Ok::<
                    FolderView,
                    PCloudResult,
                >(FolderView { folder_id: b.folder_id, path: b.path.deep_view() }) && b.client
                    == *client && !b.recursive && !b.show_deleted && !b.no_files && !b.no_shares,
                Err(e) => named_folder(folder_like.spec_to_folder()) == Err::<
                    FolderView,
                    PCloudResult,
                >(e),
            },
    {
        match describe_folder(folder_like) {
            Ok(f) => Ok(
                ListFolderRequestBuilder {
                    folder_id: f.folder_id,
                    path: f.path,
                    client: client.clone(),
                    recursive: false,
                    show_deleted: false,
                    no_files: false,
                    no_shares: false,
                },
            ),
            Err(e) => Err(e),
        }
    }

    /// Return the full directory tree.
    pub fn recursive(self, value: bool) -> (b: ListFolderRequestBuilder)
        ensures
            b == (ListFolderRequestBuilder { recursive: value, ..self }),
    {
        let mut b = self;
        b.recursive = value;
        b
    }

    /// Show deleted files and folders that can be restored.
    pub fn showdeleted(self, value: bool) -> (b: ListFolderRequestBuilder)
        ensures
            b == (ListFolderRequestBuilder { show_deleted: value, ..self }),
    {
        let mut b = self;
        b.show_deleted = value;
        b
    }

    /// Return only the folder structure.
    pub fn nofiles(self, value: bool) -> (b: ListFolderRequestBuilder)
        ensures
            b == (ListFolderRequestBuilder { no_files: value, ..self }),
    {
        let mut b = self;
        b.no_files = value;
        b
    }

    /// Show only the user's own folders and files.
    pub fn noshares(self, value: bool) -> (b: ListFolderRequestBuilder)
        ensures
            b == (ListFolderRequestBuilder { no_shares: value, ..self }),
    {
        let mut b = self;
        b.no_shares = value;
        b
    }

    /// The call that lists the folder.
    pub open spec fn spec_request(&self) -> RequestView {
        RequestView {
            method: Method::Get,
            path: "/listfolder"@,
            query: folder_target(self.path.deep_view(), self.folder_id) + flag(
                "recursive"@,
                self.recursive,
            ) + flag("showdeleted"@, self.show_deleted) + flag("nofiles"@, self.no_files) + flag(
                "noshares"@,
                self.no_shares,
            ) + opt_text("auth"@, self.client.session_token.deep_view()),
            timeout: None,
        }
    }

    /// Assembles the call that lists the folder.
    pub fn get(self) -> (r: Request)
        ensures
            r@ == self.spec_request(),
    {
        let r = Request::get("/listfolder").opt_text("path", &self.path).opt_number(
            "folderid",
            self.folder_id,
        ).flag("recursive", self.recursive).flag("showdeleted", self.show_deleted).flag(
            "nofiles",
            self.no_files,
        ).flag("noshares", self.no_shares);
        let r = self.client.add_token(r);
        assert(r@.query =~= self.spec_request().query);
        r
    }
}

/// What is known of a folder's id without asking the service, or what to ask.
#[derive(Debug)]
pub enum FolderIdLookup {
    /// The description holds the id.
    Known(u64),
    /// The description holds only a path: this listing tells the id.
    Ask(ListFolderRequestBuilder),
}

/// The id of the folder that the answer to a listing describes.
pub open spec fn spec_folder_id_of_listing(stat: FileOrFolderStat) -> Result<u64, PCloudResult> {
    if stat.metadata->0.isfolder && stat.metadata->0.folderid is Some {
        Ok(stat.metadata->0.folderid->0)
    } else {
        Err(PCloudResult::InvalidFolderId)
    }
}

impl PCloudClient {
    /// Lists the content of a folder.
    pub fn list_folder<T: FolderDescriptor>(&self, folder_like: T) -> (b: Result<
        ListFolderRequestBuilder,
        PCloudResult,
    >)
        ensures
            match b {
                Ok(b) => named_folder(folder_like.spec_to_folder()) == Ok::<
                    FolderView,
                    PCloudResult,
                >(FolderView { folder_id: b.folder_id, path: b.path.deep_view() }) && b.client
                    == *self && !b.recursive && !b.show_deleted && !b.no_files && !b.no_shares,
                Err(e) => named_folder(folder_like.spec_to_folder()) == Err::<
                    FolderView,
                    PCloudResult,
                >(e),
            },
    {
        ListFolderRequestBuilder::for_folder(self, folder_like)
    }

    /// Creates a new folder in a parent folder.
    pub fn create_folder<T: FolderDescriptor>(&self, parent_folder_like: T, name: &str) -> (b:
        Result<CreateFolderRequestBuilder, PCloudResult>)
        ensures
            match b {
                Ok(b) => named_folder(parent_folder_like.spec_to_folder()) == Ok::<
                    FolderView,
                    PCloudResult,
                >(FolderView { folder_id: b.folder_id, path: b.path.deep_view() }) && b.client
                    == *self && b.name@ == name@ && b.if_not_exists,
                Err(e) => named_folder(parent_folder_like.spec_to_folder()) == Err::<
                    FolderView,
                    PCloudResult,
                >(e),
            },
    {
        CreateFolderRequestBuilder::for_folder(self, parent_folder_like, name)
    }

    /// Deletes a folder.
    pub fn delete_folder<T: FolderDescriptor>(&self, folder_like: T) -> (b: Result<
        DeleteFolderRequestBuilder,
        PCloudResult,
    >)
        ensures
            match b {
                Ok(b) => named_folder(folder_like.spec_to_folder()) == Ok::<
                    FolderView,
                    PCloudResult,
                >(FolderView { folder_id: b.folder_id, path: b.path.deep_view() }) && b.client
                    == *self,
                Err(e) => named_folder(folder_like.spec_to_folder()) == Err::<
                    FolderView,
                    PCloudResult,
                >(e),
            },
    {
        DeleteFolderRequestBuilder::for_folder(self, folder_like)
    }

    /// Copies a folder into another folder.
    pub fn copy_folder<S: FolderDescriptor, T: FolderDescriptor>(
        &self,
        folder_like: S,
        target_folder_like: T,
    ) -> (b: Result<CopyFolderRequestBuilder, PCloudResult>)
        ensures
            match b {
                Ok(b) => named_pair(
                    folder_like.spec_to_folder(),
                    target_folder_like.spec_to_folder(),
                ) == Ok::<(FolderView, FolderView), PCloudResult>(
                    (
                        FolderView {
                            folder_id: b.from_folder_id,
                            path: b.from_path.deep_view(),
                        },
                        FolderView { folder_id: b.to_folder_id, path: b.to_path.deep_view() },
                    ),
                ) && b.client == *self && b.to_name is None && b.overwrite && !b.skip_existing
                    && !b.copy_content_only,
                Err(e) => named_pair(
                    folder_like.spec_to_folder(),
                    target_folder_like.spec_to_folder(),
                ) == Err::<(FolderView, FolderView), PCloudResult>(e),
            },
    {
        CopyFolderRequestBuilder::copy_folder(self, folder_like, target_folder_like)
    }

    /// Renames or moves a folder.
    pub fn move_folder<S: FolderDescriptor, T: FolderDescriptor>(
        &self,
        folder_like: S,
        target_folder_like: T,
    ) -> (b: Result<MoveFolderRequestBuilder, PCloudResult>)
        ensures
            match b {
                Ok(b) => named_pair(
                    folder_like.spec_to_folder(),
                    target_folder_like.spec_to_folder(),
                ) == Ok::<(FolderView, FolderView), PCloudResult>(
                    (
                        FolderView {
                            folder_id: b.from_folder_id,
                            path: b.from_path.deep_view(),
                        },
                        FolderView { folder_id: b.to_folder_id, path: b.to_path.deep_view() },
                    ),
                ) && b.client == *self && b.to_name is None,
                Err(e) => named_pair(
                    folder_like.spec_to_folder(),
                    target_folder_like.spec_to_folder(),
                ) == Err::<(FolderView, FolderView), PCloudResult>(e),
            },
    {
        MoveFolderRequestBuilder::move_folder(self, folder_like, target_folder_like)
    }

    /// First half of finding a folder's id: the id itself where the
    /// description holds one, and otherwise the listing to make, without
    /// files and not recursive.
    pub fn get_folder_id<T: FolderDescriptor>(&self, folder_like: T) -> (lookup: Result<
        FolderIdLookup,
        PCloudResult,
    >)
        ensures
            match folder_like.spec_to_folder() {
                Err(e) => lookup == Err::<FolderIdLookup, PCloudResult>(e),
                Ok(folder) => match folder.folder_id {
                    Some(id) => lookup == Ok::<FolderIdLookup, PCloudResult>(
                        FolderIdLookup::Known(id),
                    ),
                    None => match folder.path {
                        None => lookup == Err::<FolderIdLookup, PCloudResult>(
                            PCloudResult::NoFileIdOrPathProvided,
                        ),
                        Some(path) => lookup is Ok && lookup->Ok_0 is Ask && ({
                            let b = lookup->Ok_0->Ask_0;
                            b.client == *self && b.folder_id is None && b.path.deep_view() == Some(
                                path,
                            ) && !b.recursive && !b.show_deleted && b.no_files && !b.no_shares
                        }),
                    },
                },
            },
    {
        let folder = match folder_like.to_folder() {
            Ok(f) => f,
            Err(e) => {
                return Err(e);
            },
        };
        match folder.folder_id {
            Some(folder_id) => Ok(FolderIdLookup::Known(folder_id)),
            None => match self.list_folder(folder) {
                Ok(listing) => Ok(FolderIdLookup::Ask(listing.recursive(false).nofiles(true))),
                Err(e) => Err(e),
            },
        }
    }

    /// Second half of finding a folder's id: reads it from the answer to
    /// the listing. The answer has to carry metadata.
    pub fn folder_id_of_listing(stat: &FileOrFolderStat) -> (id: Result<u64, PCloudResult>)
        requires
            stat.metadata is Some,
        ensures
            id == spec_folder_id_of_listing(*stat),
    {
        match &stat.metadata {
            Some(metadata) => {
                if !metadata.isfolder {
                    Err(PCloudResult::InvalidFolderId)
                } else {
                    match metadata.folderid {
                        Some(folder_id) => Ok(folder_id),
                        None => Err(PCloudResult::InvalidFolderId),
                    }
                }
            },
            None => Err(PCloudResult::InvalidFolderId),
        }
    }
}

} // verus!

