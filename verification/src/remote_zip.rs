use crate::file_ops::{Tree, TreeView};
use crate::folder_ops::{FolderDescriptor, FolderView};
use crate::pcloud_client::PCloudClient;
use crate::pcloud_model::{PCloudResult, SaveZipProgressResponse};
use crate::request::{opt_number, opt_text, Method, Request, RequestView};
use vstd::prelude::*;
use vstd::string::*;

verus! {

/// Downloads a tree as a zip archive that the service packs on the fly.
#[derive(Debug)]
pub struct GetZipRequestBuilder {
    pub client: PCloudClient,
    /// The files and folders to pack.
    pub tree: Tree,
}

impl GetZipRequestBuilder {
    /// The download of `tree` as an archive.
    pub fn zip(client: &PCloudClient, tree: Tree) -> (b: GetZipRequestBuilder)
        ensures
            b.client == *client,
            b.tree == tree,
    {
        GetZipRequestBuilder { client: client.clone(), tree }
    }

    /// The call that starts the download.
    pub open spec fn spec_request(&self) -> RequestView {
        RequestView {
            method: Method::Get,
            path: "/getzip"@,
            query: self.tree@.query() + opt_text("auth"@, self.client.session_token.deep_view()),
            timeout: None,
        }
    }

    /// Assembles the call that starts the download.
    pub fn download(self) -> (r: Request)
        ensures
            r@ == self.spec_request(),
    {
        let r = self.tree.add_to_request(Request::get("/getzip"));
        let r = self.client.add_token(r);
        assert(r@.query =~= self.spec_request().query);
        r
    }
}

/// First step of packing a tree into an archive on the service: choose
/// where the archive goes.
#[derive(Debug)]
pub struct InitiateSavezipRequestBuilder {
    pub client: PCloudClient,
    /// The files and folders to pack.
    pub tree: Tree,
}

/// Packs a tree into an archive in the user's file system.
#[derive(Debug)]
pub struct SaveZipRequestBuilder {
    pub client: PCloudClient,
    /// The files and folders to pack.
    pub tree: Tree,
    /// Path of the archive.
    pub to_path: Option<String>,
    /// Id of the folder the archive goes to.
    pub to_folder_id: Option<u64>,
    /// File name of the archive.
    pub to_name: Option<String>,
    /// Key under which the progress of the packing can be asked for.
    pub progress_hash: Option<String>,
}

impl InitiateSavezipRequestBuilder {
    /// The packing of `tree`.
    pub fn zip(client: &PCloudClient, tree: Tree) -> (b: InitiateSavezipRequestBuilder)
        ensures
            b.client == *client,
            b.tree == tree,
    {
        InitiateSavezipRequestBuilder { client: client.clone(), tree }
    }

    /// Saves the archive under the given full path.
    pub fn to_path(self, path: &str) -> (b: SaveZipRequestBuilder)
        ensures
            b.client == self.client,
            b.tree == self.tree,
            b.to_path.deep_view() == Some(path@),
            b.to_folder_id is None,
            b.to_name is None,
            b.progress_hash is None,
    {
        SaveZipRequestBuilder {
            client: self.client,
            tree: self.tree,
            to_path: Some(String::from_str(path)),
            to_folder_id: None,
            to_name: None,
            progress_hash: None,
        }
    }

    /// Saves the archive as `file_name` in the folder that `folder_like`
    /// describes. A description that names nothing is accepted here; the
    /// service then rejects the call.
    pub fn to_folder<T: FolderDescriptor>(self, folder_like: T, file_name: &str) -> (b: Result<
        SaveZipRequestBuilder,
        PCloudResult,
    >)
        ensures
            match b {
                Ok(b) => folder_like.spec_to_folder() == Ok::<FolderView, PCloudResult>(
                    FolderView { folder_id: b.to_folder_id, path: b.to_path.deep_view() },
                ) && b.client == self.client && b.tree == self.tree && b.to_name.deep_view()
                    == Some(file_name@) && b.progress_hash is None,
                Err(e) => folder_like.spec_to_folder() == Err::<FolderView, PCloudResult>(e),
            },
    {
        match folder_like.to_folder() {
            Ok(f) => Ok(
                SaveZipRequestBuilder {
                    client: self.client,
                    tree: self.tree,
                    to_path: f.path,
                    to_folder_id: f.folder_id,
                    to_name: Some(String::from_str(file_name)),
                    progress_hash: None,
                },
            ),
            Err(e) => Err(e),
        }
    }
}

/// The call that starts the packing.
pub open spec fn save_zip_request(
    to_path: Option<Seq<char>>,
    to_folder_id: Option<u64>,
    to_name: Option<Seq<char>>,
    progress_hash: Option<Seq<char>>,
    tree: TreeView,
    session_token: Option<Seq<char>>,
) -> RequestView {
    RequestView {
        method: Method::Get,
        path: "/savezip"@,
        query: opt_text("topath"@, to_path) + opt_number("tofolderid"@, to_folder_id) + opt_text(
            "toname"@,
            to_name,
        ) + opt_text("progresshash"@, progress_hash) + tree.query() + opt_text(
            "auth"@,
            session_token,
        ),
        timeout: None,
    }
}

/// The call that asks how far a packing has come.
pub open spec fn progress_request(
    progress_hash: Seq<char>,
    session_token: Option<Seq<char>>,
) -> RequestView {
    RequestView {
        method: Method::Get,
        path: "/savezipprogress"@,
        query: seq![("progresshash"@, progress_hash)] + opt_text("auth"@, session_token),
        timeout: None,
    }
}

/// Calls `uuid::Uuid::new_v4` and writes the identifier in its hyphenated
/// form, which has 36 characters. Nothing else is claimed of it: the
/// identifier is random.
#[verifier::external_body]
pub(crate) fn new_progress_hash() -> (hash: String)
    ensures
        hash@.len() == 36,
{
    uuid::Uuid::new_v4().to_string()
}

impl SaveZipRequestBuilder {
    /// The call that starts the packing.
    pub open spec fn spec_request(&self) -> RequestView {
        save_zip_request(
            self.to_path.deep_view(),
            self.to_folder_id,
            self.to_name.deep_view(),
            self.progress_hash.deep_view(),
            self.tree@,
            self.client.session_token.deep_view(),
        )
    }

    /// Assembles the call that asks how far the packing under
    /// `progress_hash` has come.
    pub fn fetch_progress(client: &PCloudClient, progress_hash: &str) -> (r: Request)
        ensures
            r@ == progress_request(progress_hash@, client.session_token.deep_view()),
    {
        let r = Request::get("/savezipprogress").text(
            "progresshash",
            String::from_str(progress_hash),
        );
        let r = client.add_token(r);
        assert(r@.query =~= progress_request(
            progress_hash@,
            client.session_token.deep_view(),
        ).query);
        r
    }

    /// Assembles the call that starts the packing.
    pub fn execute(self) -> (r: Request)
        ensures
            r@ == self.spec_request(),
    {
        let r = Request::get("/savezip").opt_text("topath", &self.to_path).opt_number(
            "tofolderid",
            self.to_folder_id,
        ).opt_text("toname", &self.to_name).opt_text("progresshash", &self.progress_hash);
        let r = self.tree.add_to_request(r);
        let r = self.client.add_token(r);
        assert(r@.query =~= self.spec_request().query);
        r
    }

    /// Assembles the call that starts the packing under the progress key
    /// `progress_hash`, and the poller that follows its progress.
    pub fn execute_with_progress_hash(self, progress_hash: String) -> (started: (
        Request,
        ZipProgressPoller,
    ))
        ensures
            started.0@ == save_zip_request(
                self.to_path.deep_view(),
                self.to_folder_id,
                self.to_name.deep_view(),
                Some(progress_hash@),
                self.tree@,
                self.client.session_token.deep_view(),
            ),
            started.1.client == self.client,
            started.1.progress_hash@ == progress_hash@,
            started.1.state == PollerState::Fetching,
    {
        let poller = ZipProgressPoller {
            client: self.client.clone(),
            progress_hash: progress_hash.clone(),
            state: PollerState::Fetching,
        };
        let req = SaveZipRequestBuilder {
            client: self.client,
            tree: self.tree,
            to_path: self.to_path,
            to_folder_id: self.to_folder_id,
            to_name: self.to_name,
            progress_hash: Some(progress_hash),
        };
        (req.execute(), poller)
    }

    /// Assembles the call that starts the packing under a fresh random
    /// progress key, and the poller that follows its progress. Whatever
    /// the key is, the call carries it and the poller asks with it.
    pub fn execute_with_progress_notification(self) -> (started: (Request, ZipProgressPoller))
        ensures
            started.1.progress_hash@.len() == 36,
            started.0@ == save_zip_request(
                self.to_path.deep_view(),
                self.to_folder_id,
                self.to_name.deep_view(),
                Some(started.1.progress_hash@),
                self.tree@,
                self.client.session_token.deep_view(),
            ),
            started.1.client == self.client,
            started.1.state == PollerState::Fetching,
    {
        let progress_hash = new_progress_hash();
        self.execute_with_progress_hash(progress_hash)
    }
}

impl SaveZipProgressResponse {
    /// How many files are still to be packed; `None` for an answer that
    /// counts more packed files than files.
    pub fn remaining(&self) -> (left: Option<u64>)
        ensures
            match left {
                Some(n) => n == self.totalfiles - self.files,
                None => self.files > self.totalfiles,
            },
    {
        if self.files <= self.totalfiles {
            Some(self.totalfiles - self.files)
        } else {
            None
        }
    }
}

/// Capacity of the queue on which progress reports are published.
pub const PROGRESS_QUEUE_CAPACITY: usize = 32;

/// Where a progress poller stands.
#[derive(Clone, Copy, Debug, PartialEq, Eq, Structural)]
pub enum PollerState {
    /// A progress call is outstanding.
    Fetching,
    /// A report is on its way to the consumer; `finished` tells whether it
    /// said that every file is packed.
    Sending { finished: bool },
    /// Waiting out the polling interval.
    Sleeping,
    /// The packing is finished and was reported.
    Done,
}

/// What happened to the one thing a poller asked for last.
#[derive(Debug)]
pub enum PollerEvent {
    /// The progress call returned this report.
    Progress(SaveZipProgressResponse),
    /// The progress call failed.
    FetchFailed,
    /// The consumer's queue accepted the report.
    Sent,
    /// The consumer's queue refused the report.
    SendFailed,
    /// The polling interval is over.
    Slept,
}

/// What a poller asks for next.
#[derive(Debug)]
pub enum PollerAction {
    /// Make this progress call.
    Fetch(Request),
    /// Publish this report.
    Send(SaveZipProgressResponse),
    /// Wait for one polling interval.
    Sleep,
    /// Nothing new: the event was not the outcome of what is outstanding.
    Wait,
    /// Stop polling.
    Stop,
}

/// A poller's action as mathematics.
pub enum PollerActionView {
    Fetch(RequestView),
    Send(SaveZipProgressResponse),
    Sleep,
    Wait,
    Stop,
}

impl View for PollerAction {
    type V = PollerActionView;

    open spec fn view(&self) -> PollerActionView {
        match self {
            PollerAction::Fetch(r) => PollerActionView::Fetch(r@),
            PollerAction::Send(p) => PollerActionView::Send(*p),
            PollerAction::Sleep => PollerActionView::Sleep,
            PollerAction::Wait => PollerActionView::Wait,
            PollerAction::Stop => PollerActionView::Stop,
        }
    }
}

/// Follows the packing of an archive: asks for the progress, publishes
/// each report and stops after the report that says all files are packed.
#[derive(Debug)]
pub struct ZipProgressPoller {
    pub client: PCloudClient,
    pub progress_hash: String,
    pub state: PollerState,
}

impl ZipProgressPoller {
    /// The transition function of the poller.
    ///
    /// * Fetching: a report is published; a failed call is slept over.
    /// * Sending: once the report is taken, the poller stops if the report
    ///   counted as many packed files as files, and sleeps otherwise. A
    ///   refused report is slept over like a failed call.
    /// * Sleeping: when the interval is over, the progress is asked again.
    /// * Any event not named changes nothing; a finished poller only stops.
    pub open spec fn spec_step(&self, event: PollerEvent) -> (PollerState, PollerActionView) {
        match self.state {
            PollerState::Fetching => match event {
                PollerEvent::Progress(report) => (
                    PollerState::Sending { finished: report.totalfiles == report.files },
                    PollerActionView::Send(report),
                ),
                PollerEvent::FetchFailed => (PollerState::Sleeping, PollerActionView::Sleep),
                _ => (self.state, PollerActionView::Wait),
            },
            PollerState::Sending { finished } => match event {
                PollerEvent::Sent => if finished {
                    (PollerState::Done, PollerActionView::Stop)
                } else {
                    (PollerState::Sleeping, PollerActionView::Sleep)
                },
                PollerEvent::SendFailed => (PollerState::Sleeping, PollerActionView::Sleep),
                _ => (self.state, PollerActionView::Wait),
            },
            PollerState::Sleeping => match event {
                PollerEvent::Slept => (
                    PollerState::Fetching,
                    PollerActionView::Fetch(
                        progress_request(
                            self.progress_hash@,
                            self.client.session_token.deep_view(),
                        ),
                    ),
                ),
                _ => (self.state, PollerActionView::Wait),
            },
            PollerState::Done => (self.state, PollerActionView::Stop),
        }
    }

    /// The first progress call.
    pub fn start(&self) -> (r: Request)
        ensures
            r@ == progress_request(self.progress_hash@, self.client.session_token.deep_view()),
    {
        SaveZipRequestBuilder::fetch_progress(&self.client, self.progress_hash.as_str())
    }

    /// Takes the outcome of the last action and decides the next one.
    pub fn step(&mut self, event: PollerEvent) -> (action: PollerAction)
        ensures
            final(self).client == old(self).client,
            final(self).progress_hash == old(self).progress_hash,
            (final(self).state, action@) == old(self).spec_step(event),
    {
        match self.state {
            PollerState::Fetching => match event {
                PollerEvent::Progress(report) => {
                    self.state = PollerState::Sending {
                        finished: report.totalfiles == report.files,
                    };
                    PollerAction::Send(report)
                },
                PollerEvent::FetchFailed => {
                    self.state = PollerState::Sleeping;
                    PollerAction::Sleep
                },
                _ => PollerAction::Wait,
            },
            PollerState::Sending { finished } => match event {
                PollerEvent::Sent => {
                    if finished {
                        self.state = PollerState::Done;
                        PollerAction::Stop
                    } else {
                        self.state = PollerState::Sleeping;
                        PollerAction::Sleep
                    }
                },
                PollerEvent::SendFailed => {
                    self.state = PollerState::Sleeping;
                    PollerAction::Sleep
                },
                _ => PollerAction::Wait,
            },
            PollerState::Sleeping => match event {
                PollerEvent::Slept => {
                    self.state = PollerState::Fetching;
                    PollerAction::Fetch(self.start())
                },
                _ => PollerAction::Wait,
            },
            PollerState::Done => PollerAction::Stop,
        }
    }
}

impl PCloudClient {
    /// Packs the content of `tree` into an archive on the service.
    pub fn create_zip(&self, tree: Tree) -> (b: InitiateSavezipRequestBuilder)
        ensures
            b.client == *self,
            b.tree == tree,
    {
        InitiateSavezipRequestBuilder::zip(self, tree)
    }

    /// Assembles the call that downloads the content of `tree` as an archive.
    pub fn download_zip_of_files(&self, tree: Tree) -> (r: Request)
        ensures
            r@ == (RequestView {
                method: Method::Get,
                path: "/getzip"@,
                query: tree@.query() + opt_text("auth"@, self.session_token.deep_view()),
                timeout: None,
            }),
    {
        GetZipRequestBuilder::zip(self, tree).download()
    }
}

} // verus!
