use crate::pcloud_client::PCloudClient;
use crate::pcloud_model::FileOpenResponse;
use crate::request::{decimal, opt_number, opt_text, Method, Request, RequestView};
use vstd::prelude::*;
use vstd::string::*;

verus! {

/// Flag of `file_open`.
#[derive(Clone, Copy, Debug, PartialEq, Eq, Hash, Structural)]
pub enum PCloudFileFlag {
    /// Check write access and quota when the file is opened.
    WRITE,
    /// Create the file if it does not exist.
    CREATE,
    /// Together with `CREATE`: fail if the file exists.
    EXCL,
    /// Truncate an existing file.
    TRUNCATE,
    /// Always write to the end of the file.
    APPEND,
}

impl PCloudFileFlag {
    /// The bit that stands for the flag.
    pub open spec fn spec_to_number(self) -> u16 {
        match self {
            PCloudFileFlag::WRITE => 0x0002u16,
            PCloudFileFlag::CREATE => 0x0040u16,
            PCloudFileFlag::EXCL => 0x0080u16,
            PCloudFileFlag::TRUNCATE => 0x0200u16,
            PCloudFileFlag::APPEND => 0x0400u16,
        }
    }

    /// The bit that stands for the flag.
    pub fn to_number(&self) -> (number: u16)
        ensures
            number == self.spec_to_number(),
    {
        match self {
            PCloudFileFlag::WRITE => 0x0002,
            PCloudFileFlag::CREATE => 0x0040,
            PCloudFileFlag::EXCL => 0x0080,
            PCloudFileFlag::TRUNCATE => 0x0200,
            PCloudFileFlag::APPEND => 0x0400,
        }
    }
}

/// A set of `file_open` flags.
#[derive(Clone, Copy, Debug, PartialEq, Eq, Structural)]
pub struct PCloudFileFlags {
    pub write: bool,
    pub create: bool,
    pub excl: bool,
    pub truncate: bool,
    pub append: bool,
}

impl PCloudFileFlags {
    /// Whether the flag is in the set.
    pub open spec fn contains(self, flag: PCloudFileFlag) -> bool {
        match flag {
            PCloudFileFlag::WRITE => self.write,
            PCloudFileFlag::CREATE => self.create,
            PCloudFileFlag::EXCL => self.excl,
            PCloudFileFlag::TRUNCATE => self.truncate,
            PCloudFileFlag::APPEND => self.append,
        }
    }

    /// What a flag adds to the number of the set.
    pub open spec fn share(self, flag: PCloudFileFlag) -> int {
        if self.contains(flag) {
            flag.spec_to_number() as int
        } else {
            0
        }
    }

    /// The number sent as `flags`: the sum of the bits of the flags in the set.
    pub open spec fn spec_number(self) -> int {
        self.share(PCloudFileFlag::WRITE) + self.share(PCloudFileFlag::CREATE) + self.share(
            PCloudFileFlag::EXCL,
        ) + self.share(PCloudFileFlag::TRUNCATE) + self.share(PCloudFileFlag::APPEND)
    }

    /// The empty set.
    pub open spec fn spec_empty() -> PCloudFileFlags {
        PCloudFileFlags { write: false, create: false, excl: false, truncate: false, append: false }
    }

    /// The empty set.
    pub fn empty() -> (flags: PCloudFileFlags)
        ensures
            flags == PCloudFileFlags::spec_empty(),
            forall|flag: PCloudFileFlag| !flags.contains(flag),
            flags.spec_number() == 0,
    {
        PCloudFileFlags { write: false, create: false, excl: false, truncate: false, append: false }
    }

    /// The set with one flag more. Adding a flag twice changes nothing.
    pub fn insert(self, flag: PCloudFileFlag) -> (flags: PCloudFileFlags)
        ensures
            forall|other: PCloudFileFlag|
                flags.contains(other) == (other == flag || self.contains(other)),
    {
        let mut flags = self;
        match flag {
            PCloudFileFlag::WRITE => {
                flags.write = true;
            },
            PCloudFileFlag::CREATE => {
                flags.create = true;
            },
            PCloudFileFlag::EXCL => {
                flags.excl = true;
            },
            PCloudFileFlag::TRUNCATE => {
                flags.truncate = true;
            },
            PCloudFileFlag::APPEND => {
                flags.append = true;
            },
        }
        flags
    }

    /// The number sent as `flags`.
    pub fn number(&self) -> (number: u16)
        ensures
            number == self.spec_number(),
    {
        let mut number: u16 = 0;
        if self.write {
            number = number + PCloudFileFlag::WRITE.to_number();
        }
        if self.create {
            number = number + PCloudFileFlag::CREATE.to_number();
        }
        if self.excl {
            number = number + PCloudFileFlag::EXCL.to_number();
        }
        if self.truncate {
            number = number + PCloudFileFlag::TRUNCATE.to_number();
        }
        if self.append {
            number = number + PCloudFileFlag::APPEND.to_number();
        }
        number
    }
}

/// First step of opening a file: choose how the file is named.
#[derive(Debug)]
pub struct InitiatePCloudFileOpenRequest {
    pub client: PCloudClient,
}

/// Opens a file for reading and writing by descriptor.
#[derive(Debug)]
pub struct PCloudFileOpenRequest {
    pub client: PCloudClient,
    /// Flags of the call.
    pub flags: PCloudFileFlags,
    /// Path of the file to open or create.
    pub path: Option<String>,
    /// Id of the file to open.
    pub file_id: Option<u64>,
    /// Id of the folder in which a file is created.
    pub folder_id: Option<u64>,
    /// Name of the file to create in that folder.
    pub name: Option<String>,
}

impl PCloudClient {
    /// Opens a file for low-level file operations.
    pub fn open_file(&self) -> (r: InitiatePCloudFileOpenRequest)
        ensures
            r.client == *self,
    {
        InitiatePCloudFileOpenRequest::initiate(self)
    }
}

impl InitiatePCloudFileOpenRequest {
    /// Begins to describe the opening of a file.
    pub fn initiate(client: &PCloudClient) -> (r: InitiatePCloudFileOpenRequest)
        ensures
            r.client == *client,
    {
        InitiatePCloudFileOpenRequest { client: client.clone() }
    }

    /// Opens the file with the given id.
    pub fn by_file_id(self, file_id: u64) -> (r: PCloudFileOpenRequest)
        ensures
            r.client == self.client,
            r.flags == PCloudFileFlags::spec_empty(),
            r.path is None,
            r.file_id == Some(file_id),
            r.folder_id is None,
            r.name is None,
    {
        PCloudFileOpenRequest {
            client: self.client,
            flags: PCloudFileFlags::empty(),
            path: None,
            file_id: Some(file_id),
            folder_id: None,
            name: None,
        }
    }

    /// Opens or creates the file at the given path.
    pub fn by_file_path(self, path: &str) -> (r: PCloudFileOpenRequest)
        ensures
            r.client == self.client,
            r.flags == PCloudFileFlags::spec_empty(),
            r.path.deep_view() == Some(path@),
            r.file_id is None,
            r.folder_id is None,
            r.name is None,
    {
        PCloudFileOpenRequest {
            client: self.client,
            flags: PCloudFileFlags::empty(),
            path: Some(String::from_str(path)),
            file_id: None,
            folder_id: None,
            name: None,
        }
    }

    /// Opens or creates the file called `file_name` in the folder with the given id.
    pub fn by_file_in_folder(self, folder_id: u64, file_name: &str) -> (r: PCloudFileOpenRequest)
        ensures
            r.client == self.client,
            r.flags == PCloudFileFlags::spec_empty(),
            r.path is None,
            r.file_id is None,
            r.folder_id == Some(folder_id),
            r.name.deep_view() == Some(file_name@),
    {
        PCloudFileOpenRequest {
            client: self.client,
            flags: PCloudFileFlags::empty(),
            path: None,
            file_id: None,
            folder_id: Some(folder_id),
            name: Some(String::from_str(file_name)),
        }
    }
}

impl PCloudFileOpenRequest {
    /// Adds a flag to the flags of the call.
    pub fn with_flag(self, flag: PCloudFileFlag) -> (r: PCloudFileOpenRequest)
        ensures
            r == (PCloudFileOpenRequest { flags: r.flags, ..self }),
            forall|other: PCloudFileFlag|
                r.flags.contains(other) == (other == flag || self.flags.contains(other)),
    {
        let mut r = self;
        r.flags = r.flags.insert(flag);
        r
    }

    /// The call that opens the file.
    pub open spec fn spec_request(&self) -> RequestView {
        RequestView {
            method: Method::Get,
            path: "/file_open"@,
            query: seq![("flags"@, decimal(self.flags.spec_number() as nat))] + opt_text(
                "path"@,
                self.path.deep_view(),
            ) + opt_number("fileid"@, self.file_id) + opt_number("folderid"@, self.folder_id)
                + opt_text("name"@, self.name.deep_view()) + opt_text(
                "auth"@,
                self.client.session_token.deep_view(),
            ),
            timeout: None,
        }
    }

    /// Assembles the call that opens the file.
    pub fn open(&self) -> (r: Request)
        ensures
            r@ == self.spec_request(),
    {
        let flags: u16 = self.flags.number();
        let r = Request::get("/file_open").number("flags", flags as u64).opt_text(
            "path",
            &self.path,
        ).opt_number("fileid", self.file_id).opt_number("folderid", self.folder_id).opt_text(
            "name",
            &self.name,
        );
        let r = self.client.add_token(r);
        assert(r@.query =~= self.spec_request().query);
        r
    }

    /// The open file that a successful answer describes.
    pub fn opened(self, response: &FileOpenResponse) -> (file: OpenPCloudFile)
        ensures
            file == (OpenPCloudFile {
                client: self.client,
                fd: response.fd,
                file_id: response.fileid,
                open: true,
            }),
    {
        OpenPCloudFile { client: self.client, fd: response.fd, file_id: response.fileid, open: true }
    }
}

/// A file that is open on the service. The descriptor is valid only on the
/// connection that opened the file.
#[derive(Debug)]
pub struct OpenPCloudFile {
    pub client: PCloudClient,
    /// Descriptor of the file.
    pub fd: u64,
    /// Id of the file.
    pub file_id: u64,
    /// Whether the file still has to be closed.
    pub open: bool,
}

impl OpenPCloudFile {
    /// The call that closes the descriptor `fd`.
    pub fn close_file(client: &PCloudClient, fd: u64) -> (r: Request)
        ensures
            r@ == (RequestView {
                method: Method::Get,
                path: "/file_close"@,
                query: seq![("fd"@, decimal(fd as nat))] + opt_text(
                    "auth"@,
                    client.session_token.deep_view(),
                ),
                timeout: None,
            }),
    {
        let r = client.add_token(Request::get("/file_close").number("fd", fd));
        assert(r@.query =~= seq![("fd"@, decimal(fd as nat))] + opt_text(
            "auth"@,
            client.session_token.deep_view(),
        ));
        r
    }

    /// Marks the file as closed and gives the call that closes it, if it
    /// was still open. A file is closed at most once.
    pub fn close(&mut self) -> (r: Option<Request>)
        ensures
            final(self).client == old(self).client,
            final(self).fd == old(self).fd,
            final(self).file_id == old(self).file_id,
            !final(self).open,
            old(self).open ==> r is Some && r->0@ == (RequestView {
                method: Method::Get,
                path: "/file_close"@,
                query: seq![("fd"@, decimal(old(self).fd as nat))] + opt_text(
                    "auth"@,
                    old(self).client.session_token.deep_view(),
                ),
                timeout: None,
            }),
            !old(self).open ==> r is None,
    {
        if self.open {
            self.open = false;
            Some(OpenPCloudFile::close_file(&self.client, self.fd))
        } else {
            None
        }
    }

    /// The call that writes to the file; the content travels as the one
    /// part `files` of a multipart body.
    pub fn write(&self) -> (r: Request)
        ensures
            r@ == (RequestView {
                method: Method::Post,
                path: "/file_write"@,
                query: seq![("fd"@, decimal(self.fd as nat))] + opt_text(
                    "auth"@,
                    self.client.session_token.deep_view(),
                ),
                timeout: None,
            }),
    {
        let r = self.client.add_token(Request::post("/file_write").number("fd", self.fd));
        assert(r@.query =~= seq![("fd"@, decimal(self.fd as nat))] + opt_text(
            "auth"@,
            self.client.session_token.deep_view(),
        ));
        r
    }
}

} // verus!
