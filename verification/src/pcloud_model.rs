use chrono::TimeZone;
use core::fmt::Write;
use vstd::prelude::*;
use vstd::string::*;

pub mod pcloud_date_format;
pub mod pcloud_option_date_format;

verus! {

/// Result code sent by the service with every answer, plus two results this
/// library raises itself when a descriptor carries no usable id.
#[derive(Clone, Copy, Debug, PartialEq, Eq, Structural)]
pub enum PCloudResult {
    Success,
    LogInRequired,
    NoFullPathOrNameOrFolderIdProvided,
    NoFullPathOrFolderIdProvided,
    NoFileIdOrPathProvided,
    DateTimeFormatNotUnderstood,
    ProvidedAtLeastToPathOrToFolderIdOrToName,
    ProvideURL,
    LoginFailed,
    InvalidFileOrFolderName,
    ComponentOfTheParentDirectoryDoesNotExist,
    AccessDenied,
    DirectoryDoesNotExist,
    FolderIsNotEmpty,
    CanNotDeleteRootFolder,
    UserOverQuota,
    FileNotFound,
    InvalidPath,
    PleaseVerifyYourMailAddressToPerformThisAction,
    CannotPlaceASharedFolderIntoAnotherSharedFolder,
    YouCanOnlyShareYourOwnFilesOrFolders,
    ActiveSharesOrShareRequestsForThisFolder,
    ConnectionBroken,
    CannotRenameTheRootFolder,
    CannotMoveAFolderToASubfolderOfItself,
    TooManyLogins,
    InternalError,
    InternalUploadError,
    /// Raised locally: a file descriptor without a file id where one is needed.
    InvalidFileId,
    /// Raised locally: a folder descriptor without a folder id where one is needed.
    InvalidFolderId,
}

impl PCloudResult {
    /// The numeric code the service uses for this result; `None` for the two
    /// results that only this library raises.
    pub open spec fn spec_code(self) -> Option<u16> {
        match self {
            PCloudResult::Success => Some(0u16),
            PCloudResult::LogInRequired => Some(1000u16),
            PCloudResult::NoFullPathOrNameOrFolderIdProvided => Some(1001u16),
            PCloudResult::NoFullPathOrFolderIdProvided => Some(1002u16),
            PCloudResult::NoFileIdOrPathProvided => Some(1004u16),
            PCloudResult::DateTimeFormatNotUnderstood => Some(1013u16),
            PCloudResult::ProvidedAtLeastToPathOrToFolderIdOrToName => Some(1037u16),
            PCloudResult::ProvideURL => Some(1040u16),
            PCloudResult::LoginFailed => Some(2000u16),
            PCloudResult::InvalidFileOrFolderName => Some(2001u16),
            PCloudResult::ComponentOfTheParentDirectoryDoesNotExist => Some(2002u16),
            PCloudResult::AccessDenied => Some(2003u16),
            PCloudResult::DirectoryDoesNotExist => Some(2005u16),
            PCloudResult::FolderIsNotEmpty => Some(2006u16),
            PCloudResult::CanNotDeleteRootFolder => Some(2007u16),
            PCloudResult::UserOverQuota => Some(2008u16),
            PCloudResult::FileNotFound => Some(2009u16),
            PCloudResult::InvalidPath => Some(2010u16),
            PCloudResult::PleaseVerifyYourMailAddressToPerformThisAction => Some(2014u16),
            PCloudResult::CannotPlaceASharedFolderIntoAnotherSharedFolder => Some(2023u16),
            PCloudResult::YouCanOnlyShareYourOwnFilesOrFolders => Some(2026u16),
            PCloudResult::ActiveSharesOrShareRequestsForThisFolder => Some(2028u16),
            PCloudResult::ConnectionBroken => Some(2041u16),
            PCloudResult::CannotRenameTheRootFolder => Some(2042u16),
            PCloudResult::CannotMoveAFolderToASubfolderOfItself => Some(2043u16),
            PCloudResult::TooManyLogins => Some(4000u16),
            PCloudResult::InternalError => Some(5000u16),
            PCloudResult::InternalUploadError => Some(5001u16),
            PCloudResult::InvalidFileId => None,
            PCloudResult::InvalidFolderId => None,
        }
    }

    /// The numeric code of this result on the wire.
    pub fn code(&self) -> (code: Option<u16>)
        ensures
            code == self.spec_code(),
    {
        match self {
            PCloudResult::Success => Some(0),
            PCloudResult::LogInRequired => Some(1000),
            PCloudResult::NoFullPathOrNameOrFolderIdProvided => Some(1001),
            PCloudResult::NoFullPathOrFolderIdProvided => Some(1002),
            PCloudResult::NoFileIdOrPathProvided => Some(1004),
            PCloudResult::DateTimeFormatNotUnderstood => Some(1013),
            PCloudResult::ProvidedAtLeastToPathOrToFolderIdOrToName => Some(1037),
            PCloudResult::ProvideURL => Some(1040),
            PCloudResult::LoginFailed => Some(2000),
            PCloudResult::InvalidFileOrFolderName => Some(2001),
            PCloudResult::ComponentOfTheParentDirectoryDoesNotExist => Some(2002),
            PCloudResult::AccessDenied => Some(2003),
            PCloudResult::DirectoryDoesNotExist => Some(2005),
            PCloudResult::FolderIsNotEmpty => Some(2006),
            PCloudResult::CanNotDeleteRootFolder => Some(2007),
            PCloudResult::UserOverQuota => Some(2008),
            PCloudResult::FileNotFound => Some(2009),
            PCloudResult::InvalidPath => Some(2010),
            PCloudResult::PleaseVerifyYourMailAddressToPerformThisAction => Some(2014),
            PCloudResult::CannotPlaceASharedFolderIntoAnotherSharedFolder => Some(2023),
            PCloudResult::YouCanOnlyShareYourOwnFilesOrFolders => Some(2026),
            PCloudResult::ActiveSharesOrShareRequestsForThisFolder => Some(2028),
            PCloudResult::ConnectionBroken => Some(2041),
            PCloudResult::CannotRenameTheRootFolder => Some(2042),
            PCloudResult::CannotMoveAFolderToASubfolderOfItself => Some(2043),
            PCloudResult::TooManyLogins => Some(4000),
            PCloudResult::InternalError => Some(5000),
            PCloudResult::InternalUploadError => Some(5001),
            PCloudResult::InvalidFileId => None,
            PCloudResult::InvalidFolderId => None,
        }
    }

    /// The result a wire code stands for; `None` for a code the service is
    /// not known to send.
    pub open spec fn spec_from_code(code: u16) -> Option<PCloudResult> {
        match code {
            0u16 => Some(PCloudResult::Success),
            1000u16 => Some(PCloudResult::LogInRequired),
            1001u16 => Some(PCloudResult::NoFullPathOrNameOrFolderIdProvided),
            1002u16 => Some(PCloudResult::NoFullPathOrFolderIdProvided),
            1004u16 => Some(PCloudResult::NoFileIdOrPathProvided),
            1013u16 => Some(PCloudResult::DateTimeFormatNotUnderstood),
            1037u16 => Some(PCloudResult::ProvidedAtLeastToPathOrToFolderIdOrToName),
            1040u16 => Some(PCloudResult::ProvideURL),
            2000u16 => Some(PCloudResult::LoginFailed),
            2001u16 => Some(PCloudResult::InvalidFileOrFolderName),
            2002u16 => Some(PCloudResult::ComponentOfTheParentDirectoryDoesNotExist),
            2003u16 => Some(PCloudResult::AccessDenied),
            2005u16 => Some(PCloudResult::DirectoryDoesNotExist),
            2006u16 => Some(PCloudResult::FolderIsNotEmpty),
            2007u16 => Some(PCloudResult::CanNotDeleteRootFolder),
            2008u16 => Some(PCloudResult::UserOverQuota),
            2009u16 => Some(PCloudResult::FileNotFound),
            2010u16 => Some(PCloudResult::InvalidPath),
            2014u16 => Some(PCloudResult::PleaseVerifyYourMailAddressToPerformThisAction),
            2023u16 => Some(PCloudResult::CannotPlaceASharedFolderIntoAnotherSharedFolder),
            2026u16 => Some(PCloudResult::YouCanOnlyShareYourOwnFilesOrFolders),
            2028u16 => Some(PCloudResult::ActiveSharesOrShareRequestsForThisFolder),
            2041u16 => Some(PCloudResult::ConnectionBroken),
            2042u16 => Some(PCloudResult::CannotRenameTheRootFolder),
            2043u16 => Some(PCloudResult::CannotMoveAFolderToASubfolderOfItself),
            4000u16 => Some(PCloudResult::TooManyLogins),
            5000u16 => Some(PCloudResult::InternalError),
            5001u16 => Some(PCloudResult::InternalUploadError),
            _ => None,
        }
    }

    /// The result a wire code stands for.
    pub fn from_code(code: u16) -> (result: Option<PCloudResult>)
        ensures
            result == PCloudResult::spec_from_code(code),
    {
        match code {
            0 => Some(PCloudResult::Success),
            1000 => Some(PCloudResult::LogInRequired),
            1001 => Some(PCloudResult::NoFullPathOrNameOrFolderIdProvided),
            1002 => Some(PCloudResult::NoFullPathOrFolderIdProvided),
            1004 => Some(PCloudResult::NoFileIdOrPathProvided),
            1013 => Some(PCloudResult::DateTimeFormatNotUnderstood),
            1037 => Some(PCloudResult::ProvidedAtLeastToPathOrToFolderIdOrToName),
            1040 => Some(PCloudResult::ProvideURL),
            2000 => Some(PCloudResult::LoginFailed),
            2001 => Some(PCloudResult::InvalidFileOrFolderName),
            2002 => Some(PCloudResult::ComponentOfTheParentDirectoryDoesNotExist),
            2003 => Some(PCloudResult::AccessDenied),
            2005 => Some(PCloudResult::DirectoryDoesNotExist),
            2006 => Some(PCloudResult::FolderIsNotEmpty),
            2007 => Some(PCloudResult::CanNotDeleteRootFolder),
            2008 => Some(PCloudResult::UserOverQuota),
            2009 => Some(PCloudResult::FileNotFound),
            2010 => Some(PCloudResult::InvalidPath),
            2014 => Some(PCloudResult::PleaseVerifyYourMailAddressToPerformThisAction),
            2023 => Some(PCloudResult::CannotPlaceASharedFolderIntoAnotherSharedFolder),
            2026 => Some(PCloudResult::YouCanOnlyShareYourOwnFilesOrFolders),
            2028 => Some(PCloudResult::ActiveSharesOrShareRequestsForThisFolder),
            2041 => Some(PCloudResult::ConnectionBroken),
            2042 => Some(PCloudResult::CannotRenameTheRootFolder),
            2043 => Some(PCloudResult::CannotMoveAFolderToASubfolderOfItself),
            4000 => Some(PCloudResult::TooManyLogins),
            5000 => Some(PCloudResult::InternalError),
            5001 => Some(PCloudResult::InternalUploadError),
            _ => None,
        }
    }

    /// True for the one result that reports success.
    pub fn is_ok(&self) -> (ok: bool)
        ensures
            ok == (*self == PCloudResult::Success),
    {
        match self {
            PCloudResult::Success => true,
            _ => false,
        }
    }
}

/// Codes and results correspond one to one: a code decodes to a result
/// exactly when that result encodes to the code.
pub proof fn lemma_result_code_round_trip(r: PCloudResult, code: u16)
    ensures
        PCloudResult::spec_from_code(code) == Some(r) <==> r.spec_code() == Some(code),
{
}

impl PCloudResult {
    /// The sentence that describes this result to a person.
    pub open spec fn spec_message(self) -> Seq<char> {
        match self {
            PCloudResult::Success => "Everything ok - no error"@,
            PCloudResult::NoFullPathOrNameOrFolderIdProvided => "No full path or name/folderid provided."@,
            PCloudResult::LogInRequired => "Log in required"@,
            PCloudResult::NoFullPathOrFolderIdProvided => "No full path or folder id provided."@,
            PCloudResult::NoFileIdOrPathProvided => "No file id or file path provided"@,
            PCloudResult::DateTimeFormatNotUnderstood => "Date time format not understood"@,
            PCloudResult::ProvideURL => "Provide url"@,
            PCloudResult::LoginFailed => "Log in failed"@,
            PCloudResult::InvalidFileOrFolderName => "Invalid file or folder name"@,
            PCloudResult::ComponentOfTheParentDirectoryDoesNotExist => "A component of the parent directory does not exist"@,
            PCloudResult::AccessDenied => "Access denied"@,
            PCloudResult::DirectoryDoesNotExist => "Directory does not exist"@,
            PCloudResult::UserOverQuota => "User over quota"@,
            PCloudResult::FileNotFound => "File not found"@,
            PCloudResult::InvalidPath => "Invalid path"@,
            PCloudResult::PleaseVerifyYourMailAddressToPerformThisAction => "Please verify your mail address to perform this action"@,
            PCloudResult::YouCanOnlyShareYourOwnFilesOrFolders => "You can only share your own files or folders"@,
            PCloudResult::ConnectionBroken => "Connection broken"@,
            PCloudResult::TooManyLogins => "Too many logins"@,
            PCloudResult::InternalError => "Internal error"@,
            PCloudResult::InternalUploadError => "Internal upload error"@,
            PCloudResult::FolderIsNotEmpty => "Folder is not empty"@,
            PCloudResult::CanNotDeleteRootFolder => "Cannot delete the root folder."@,
            PCloudResult::ActiveSharesOrShareRequestsForThisFolder => "There are active shares or sharerequests for this folder."@,
            PCloudResult::CannotRenameTheRootFolder => "Cannot rename the root folder."@,
            PCloudResult::CannotMoveAFolderToASubfolderOfItself => "Cannot move a folder to a subfolder of itself."@,
            PCloudResult::CannotPlaceASharedFolderIntoAnotherSharedFolder => "You are trying to place shared folder into another shared folder."@,
            PCloudResult::ProvidedAtLeastToPathOrToFolderIdOrToName => "Please provide at least one of 'topath', 'tofolderid' or 'toname'."@,
            PCloudResult::InvalidFileId => "Invalid file id"@,
            PCloudResult::InvalidFolderId => "Invalid folder id"@,
        }
    }

    /// The sentence that describes this result to a person.
    pub fn message(&self) -> (text: &'static str)
        ensures
            text@ == self.spec_message(),
    {
        match self {
            PCloudResult::Success => "Everything ok - no error",
            PCloudResult::NoFullPathOrNameOrFolderIdProvided => "No full path or name/folderid provided.",
            PCloudResult::LogInRequired => "Log in required",
            PCloudResult::NoFullPathOrFolderIdProvided => "No full path or folder id provided.",
            PCloudResult::NoFileIdOrPathProvided => "No file id or file path provided",
            PCloudResult::DateTimeFormatNotUnderstood => "Date time format not understood",
            PCloudResult::ProvideURL => "Provide url",
            PCloudResult::LoginFailed => "Log in failed",
            PCloudResult::InvalidFileOrFolderName => "Invalid file or folder name",
            PCloudResult::ComponentOfTheParentDirectoryDoesNotExist => "A component of the parent directory does not exist",
            PCloudResult::AccessDenied => "Access denied",
            PCloudResult::DirectoryDoesNotExist => "Directory does not exist",
            PCloudResult::UserOverQuota => "User over quota",
            PCloudResult::FileNotFound => "File not found",
            PCloudResult::InvalidPath => "Invalid path",
            PCloudResult::PleaseVerifyYourMailAddressToPerformThisAction => "Please verify your mail address to perform this action",
            PCloudResult::YouCanOnlyShareYourOwnFilesOrFolders => "You can only share your own files or folders",
            PCloudResult::ConnectionBroken => "Connection broken",
            PCloudResult::TooManyLogins => "Too many logins",
            PCloudResult::InternalError => "Internal error",
            PCloudResult::InternalUploadError => "Internal upload error",
            PCloudResult::FolderIsNotEmpty => "Folder is not empty",
            PCloudResult::CanNotDeleteRootFolder => "Cannot delete the root folder.",
            PCloudResult::ActiveSharesOrShareRequestsForThisFolder => "There are active shares or sharerequests for this folder.",
            PCloudResult::CannotRenameTheRootFolder => "Cannot rename the root folder.",
            PCloudResult::CannotMoveAFolderToASubfolderOfItself => "Cannot move a folder to a subfolder of itself.",
            PCloudResult::CannotPlaceASharedFolderIntoAnotherSharedFolder => "You are trying to place shared folder into another shared folder.",
            PCloudResult::ProvidedAtLeastToPathOrToFolderIdOrToName => "Please provide at least one of 'topath', 'tofolderid' or 'toname'.",
            PCloudResult::InvalidFileId => "Invalid file id",
            PCloudResult::InvalidFolderId => "Invalid folder id",
        }
    }

    /// The description of this result as an owned text.
    pub fn to_string(&self) -> (text: String)
        ensures
            text@ == self.spec_message(),
    {
        String::from_str(self.message())
    }
}

/// Category of a file.
#[derive(Clone, Copy, Debug, PartialEq, Eq, Structural)]
pub enum FileCategory {
    Uncategorized,
    Image,
    Video,
    Audio,
    Document,
    Archive,
}

impl FileCategory {
    /// The number the service uses for this category.
    pub open spec fn spec_code(self) -> u8 {
        match self {
            FileCategory::Uncategorized => 0u8,
            FileCategory::Image => 1u8,
            FileCategory::Video => 2u8,
            FileCategory::Audio => 3u8,
            FileCategory::Document => 4u8,
            FileCategory::Archive => 5u8,
        }
    }

    /// The number the service uses for this category.
    pub fn code(&self) -> (code: u8)
        ensures
            code == self.spec_code(),
    {
        match self {
            FileCategory::Uncategorized => 0,
            FileCategory::Image => 1,
            FileCategory::Video => 2,
            FileCategory::Audio => 3,
            FileCategory::Document => 4,
            FileCategory::Archive => 5,
        }
    }

    /// The category a number stands for, `None` for a number above 5.
    pub fn from_code(code: u8) -> (category: Option<FileCategory>)
        ensures
            match category {
                Some(c) => c.spec_code() == code,
                None => code > 5,
            },
    {
        match code {
            0 => Some(FileCategory::Uncategorized),
            1 => Some(FileCategory::Image),
            2 => Some(FileCategory::Video),
            3 => Some(FileCategory::Audio),
            4 => Some(FileCategory::Document),
            5 => Some(FileCategory::Archive),
            _ => None,
        }
    }
}

/// Icon of a file or folder.
#[derive(Clone, Copy, Debug, PartialEq, Eq, Structural)]
pub enum FileIcon {
    Document,
    Database,
    Archive,
    Web,
    Gis,
    Spreadsheet,
    Font,
    Presentation,
    Image,
    Diskimage,
    Package,
    Executable,
    Audio,
    Video,
    File,
    Folder,
}

/// Kind of a change on the account.
#[derive(Clone, Copy, Debug, PartialEq, Eq, Structural)]
pub enum DiffEvent {
    /// The client should reset its state to an empty root directory.
    Reset,
    /// A folder was created; metadata is provided.
    CreateFolder,
    /// A folder was deleted; metadata is provided.
    DeleteFolder,
    /// A folder was modified; metadata is provided.
    ModifyFolder,
    /// A file was created; metadata is provided.
    CreateFile,
    /// File data was modified; metadata is provided.
    ModifyFile,
    /// A file was deleted; metadata is provided.
    DeleteFile,
    /// Incoming share; share is provided.
    RequestShareIn,
    /// A share request was accepted; share is provided.
    AcceptedShareIn,
    /// A share request was declined, as seen by the declining user.
    DeclinedShareIn,
    /// A share request was declined, as seen by the sharing user.
    DeclinedShareOut,
    /// The sender of a share request cancelled it.
    CancelledShareIn,
    /// An incoming share was removed.
    RemovedShareIn,
    /// The permissions of an incoming share changed.
    ModifiedShareIn,
    /// The user's information was modified.
    ModifyUserInfo,
}

/// A point in time with second precision, as the service reports and accepts
/// it: seconds since 1970-01-01 00:00:00 UTC, and the offset from UTC, in
/// seconds east, under which it is written.
#[derive(Clone, Copy, Debug, PartialEq, Eq, Structural)]
pub struct PCloudTime {
    pub seconds: i64,
    pub offset: i32,
}

impl PCloudTime {
    /// A time written in UTC.
    pub fn utc(seconds: i64) -> (t: PCloudTime)
        ensures
            t == (PCloudTime { seconds, offset: 0 }),
    {
        PCloudTime { seconds, offset: 0 }
    }

    /// Seconds since the epoch, the form in which `mtime` and `ctime` are sent.
    pub fn timestamp(&self) -> (seconds: i64)
        ensures
            seconds == self.seconds,
    {
        self.seconds
    }
}

/// The pattern of every date the service sends or accepts, such as
/// `Wed, 25 Jan 2023 12:09:14 +0000`.
pub const PCLOUD_DATE_FORMAT: &'static str = "%a, %d %b %Y %H:%M:%S %z";

/// What chrono writes for the instant `seconds` after the epoch, seen under the
/// fixed offset `offset`, with the strftime pattern `pattern`; `None` where the
/// instant or the offset is outside chrono's range or the pattern is not one.
pub uninterp spec fn formatted_time(seconds: i64, offset: i32, pattern: Seq<char>) -> Option<
    Seq<char>,
>;

/// The instant, in seconds after the epoch, that chrono reads from `text` under
/// the strftime pattern `pattern` as a UTC time; `None` where chrono rejects the text.
pub uninterp spec fn parsed_utc_time(text: Seq<char>, pattern: Seq<char>) -> Option<i64>;

/// Why chrono rejected a date text.
#[verifier::external_type_specification]
#[verifier::external_body]
pub struct ExParseError(chrono::ParseError);

/// Calls `chrono::FixedOffset::east_opt`, `chrono::DateTime::from_timestamp`,
/// `DateTime::with_timezone` and `DateTime::format`, and writes the result to a
/// text. The contract only names that text: it is a function of the three
/// arguments, and absent where either constructor returns `None` or writing fails.
#[verifier::external_body]
pub(crate) fn chrono_format(seconds: i64, offset: i32, pattern: &str) -> (text: Option<String>)
    ensures
        text.deep_view() == formatted_time(seconds, offset, pattern@),
{
    let zone = chrono::FixedOffset::east_opt(offset)?;
    let instant = chrono::DateTime::from_timestamp(seconds, 0)?.with_timezone(&zone);
    let mut text = String::new();
    match write!(text, "{}", instant.format(pattern)) {
        Ok(_) => Some(text),
        Err(_) => None,
    }
}

/// Calls `chrono::TimeZone::datetime_from_str` on `chrono::Utc` and
/// `DateTime::timestamp` on what it returns. The contract only names the
/// seconds read: they are a function of the two arguments, and an error comes
/// back exactly where chrono reads none.
#[verifier::external_body]
#[allow(deprecated)]
pub(crate) fn chrono_parse_utc(text: &str, pattern: &str) -> (seconds: Result<
    i64,
    chrono::ParseError,
>)
    ensures
        match seconds {
            Ok(s) => parsed_utc_time(text@, pattern@) == Some(s),
            Err(_) => parsed_utc_time(text@, pattern@) is None,
        },
{
    match chrono::Utc.datetime_from_str(text, pattern) {
        Ok(instant) => Ok(instant.timestamp()),
        Err(e) => Err(e),
    }
}

/// The text of a time in the service's date pattern, where chrono has one.
pub open spec fn pcloud_date_text(datetime: PCloudTime) -> Option<Seq<char>> {
    formatted_time(datetime.seconds, datetime.offset, PCLOUD_DATE_FORMAT@)
}

impl PCloudTime {
    /// Whether the time can be written in the service's date pattern: the
    /// instant and the offset have to lie within what chrono represents.
    pub open spec fn can_be_written(self) -> bool {
        pcloud_date_text(self) is Some
    }

    /// Tests whether the time can be written in the service's date
    /// pattern. Only such a time changes a builder that is given it as a date.
    pub fn is_writable(&self) -> (writable: bool)
        ensures
            writable == self.can_be_written(),
    {
        format_date_time_for_pcloud(self).is_some()
    }
}

/// Writes a time the way the service expects it in a URL. `None` comes back
/// exactly where chrono cannot represent the time.
pub fn format_date_time_for_pcloud(datetime: &PCloudTime) -> (text: Option<String>)
    ensures
        text.deep_view() == pcloud_date_text(*datetime),
{
    chrono_format(datetime.seconds, datetime.offset, PCLOUD_DATE_FORMAT)
}

/// A date text that is not in the service's date pattern.
#[derive(Clone, Copy, Debug, PartialEq, Eq, Structural)]
pub struct InvalidDate {}

/// For shares, a "share" object is provided with these keys.
#[derive(Debug)]
pub struct Share {
    pub folderid: u64,
    /// Id of the share request; not available in removeshare and modifiedshare.
    pub sharerequestid: Option<u64>,
    /// Id of the share; only available in acceptedshare and removeshare.
    pub shareid: Option<u64>,
    /// Name of the share, normally the name of the shared directory.
    pub sharename: Option<String>,
    /// When the share request was sent.
    pub created: Option<PCloudTime>,
    /// When the share request expires.
    pub expires: Option<PCloudTime>,
    pub canread: Option<bool>,
    pub canmodify: Option<bool>,
    pub candelete: Option<bool>,
    pub cancreate: Option<bool>,
    /// Optional message of the user offering the share.
    pub message: Option<String>,
}

/// Metadata of a file or folder.
#[derive(Debug)]
pub struct Metadata {
    /// Id of the folder the object resides in.
    pub parentfolderid: u64,
    /// Folder (`true`) or file (`false`).
    pub isfolder: bool,
    /// Whether the user owns the object.
    pub ismine: bool,
    pub canread: Option<bool>,
    pub canmodify: Option<bool>,
    pub candelete: Option<bool>,
    pub cancreate: Option<bool>,
    pub userid: Option<u64>,
    /// Whether the object is shared with other users.
    pub isshared: bool,
    /// Name of the file or folder.
    pub name: String,
    /// Unique id: the folder id after `d`, or the file id after `f`.
    pub id: String,
    /// For folders, the folder id.
    pub folderid: Option<u64>,
    /// For files, the file id.
    pub fileid: Option<u64>,
    /// Id of a file that a rename replaced.
    pub deletefileid: Option<String>,
    pub created: PCloudTime,
    pub modified: PCloudTime,
    /// Name of the icon to display.
    pub icon: Option<FileIcon>,
    pub category: Option<FileCategory>,
    /// Whether thumbnails can be created from the object.
    pub thumb: bool,
    /// Size in bytes, for files only.
    pub size: Option<u64>,
    pub contenttype: Option<String>,
    /// Hash of the file's contents, for files only.
    pub hash: Option<u64>,
    /// Contents of the directory.
    pub contents: Vec<Metadata>,
    /// Present only for deleted objects.
    pub isdeleted: Option<bool>,
    pub path: Option<String>,
    pub width: Option<u64>,
    pub height: Option<u64>,
    pub artist: Option<String>,
    pub album: Option<String>,
    pub title: Option<String>,
    pub genre: Option<String>,
    pub trackno: Option<String>,
    pub duration: Option<String>,
    pub fps: Option<String>,
    pub videocodec: Option<String>,
    pub audiocodec: Option<String>,
    pub videobitrate: Option<u32>,
    pub audiobitrate: Option<u32>,
    pub audiosamplerate: Option<u32>,
    pub rotate: Option<u16>,
}

/// One change on the account. `diffid` is the cursor the service assigned to it.
#[derive(Debug)]
pub struct DiffEntry {
    /// When the change happened.
    pub time: PCloudTime,
    /// Cursor of the change.
    pub diffid: u64,
    /// Kind of the change.
    pub event: DiffEvent,
    /// Metadata of the file or folder the change is about.
    pub metadata: Option<Metadata>,
    /// Share data of the file or folder the change is about.
    pub share: Option<Share>,
}

/// What one poll of the change feed returns: the cursor to present on the next
/// poll and the changes after the cursor that was presented.
#[derive(Debug)]
pub struct Diff {
    /// Cursor to resume from.
    pub diffid: u64,
    pub entries: Vec<DiffEntry>,
}

/// Answer of `getpublinkdownload` and `getfilelink`.
#[derive(Debug)]
pub struct DownloadLink {
    pub result: PCloudResult,
    pub path: Option<String>,
    pub expires: Option<PCloudTime>,
    pub hosts: Vec<String>,
}

/// Answer of `getfilepublink`.
#[derive(Debug)]
pub struct PublicFileLink {
    pub result: PCloudResult,
    /// Id that can be used to delete or modify this public link.
    pub linkid: Option<u64>,
    pub code: Option<String>,
    pub link: Option<String>,
    pub shortcode: Option<String>,
    pub shortlink: Option<String>,
    pub metadata: Option<Metadata>,
    pub created: Option<PCloudTime>,
    pub modified: Option<PCloudTime>,
    pub downloadenabled: Option<bool>,
    pub downloads: Option<u64>,
}

/// Answer of `getapiserver`.
#[derive(Debug)]
pub struct ApiServers {
    pub result: PCloudResult,
    /// Endpoints of the binary API, best first.
    pub binapi: Vec<String>,
    /// Endpoints of the REST API, best first.
    pub api: Vec<String>,
}

/// Answer of the calls that return the metadata of one file or folder.
#[derive(Debug)]
pub struct FileOrFolderStat {
    pub result: PCloudResult,
    pub metadata: Option<Metadata>,
}

/// Answer of `deletefolderrecursive`.
#[derive(Debug)]
pub struct FolderRecursivlyDeleted {
    pub result: PCloudResult,
    pub deletedfiles: Option<u64>,
    pub deletedfolders: Option<u64>,
}

/// Answer of `checksumfile`.
#[derive(Debug)]
pub struct FileChecksums {
    pub result: PCloudResult,
    pub metadata: Option<Metadata>,
    pub sha1: Option<String>,
    pub md5: Option<String>,
    pub sha256: Option<String>,
}

/// Answer of `userinfo`.
#[derive(Debug)]
pub struct UserInfo {
    pub result: PCloudResult,
    /// Session token, present only when one was asked for.
    pub auth: Option<String>,
    pub userid: Option<u64>,
    pub email: Option<String>,
    pub emailverified: Option<bool>,
    pub registered: Option<PCloudTime>,
    pub language: Option<String>,
    pub premium: Option<bool>,
    pub usedquota: Option<u64>,
    pub quota: Option<u64>,
}

/// Answer of `uploadfile`.
#[derive(Debug)]
pub struct UploadedFile {
    pub result: PCloudResult,
    pub fileids: Vec<u64>,
    pub metadata: Vec<Metadata>,
}

/// Answer of `logout`.
#[derive(Debug)]
pub struct LogoutResponse {
    pub result: PCloudResult,
    /// Whether the session token was deleted.
    pub auth_deleted: Option<bool>,
}

/// Answer of `savezipprogress`.
#[derive(Debug)]
pub struct SaveZipProgressResponse {
    pub result: PCloudResult,
    /// Files packed so far.
    pub files: u64,
    /// Files to pack in all.
    pub totalfiles: u64,
}

/// Answer of `file_open`.
#[derive(Debug)]
pub struct FileOpenResponse {
    pub result: PCloudResult,
    /// Descriptor of the open file.
    pub fd: u64,
    pub fileid: u64,
}

/// An answer of the service that starts with a result code.
pub trait WithPCloudResult: Sized {
    /// The result code of this answer.
    spec fn spec_result(&self) -> PCloudResult;

    /// The result code of this answer.
    fn get_result(&self) -> (result: PCloudResult)
        ensures
            result == self.spec_result(),
    ;
}

/// Hands an answer on when its result code reports success, and turns any
/// other code into the error.
pub fn assert_ok<T: WithPCloudResult>(answer: T) -> (checked: Result<T, PCloudResult>)
    ensures
        match checked {
            Ok(a) => a == answer && answer.spec_result() == PCloudResult::Success,
            Err(e) => e == answer.spec_result() && e != PCloudResult::Success,
        },
{
    let result = answer.get_result();
    if result.is_ok() {
        Ok(answer)
    } else {
        Err(result)
    }
}

impl WithPCloudResult for DownloadLink {
    open spec fn spec_result(&self) -> PCloudResult {
        self.result
    }

    fn get_result(&self) -> (result: PCloudResult) {
        self.result
    }
}

impl WithPCloudResult for PublicFileLink {
    open spec fn spec_result(&self) -> PCloudResult {
        self.result
    }

    fn get_result(&self) -> (result: PCloudResult) {
        self.result
    }
}

impl WithPCloudResult for ApiServers {
    open spec fn spec_result(&self) -> PCloudResult {
        self.result
    }

    fn get_result(&self) -> (result: PCloudResult) {
        self.result
    }
}

impl WithPCloudResult for FileOrFolderStat {
    open spec fn spec_result(&self) -> PCloudResult {
        self.result
    }

    fn get_result(&self) -> (result: PCloudResult) {
        self.result
    }
}

impl WithPCloudResult for FolderRecursivlyDeleted {
    open spec fn spec_result(&self) -> PCloudResult {
        self.result
    }

    fn get_result(&self) -> (result: PCloudResult) {
        self.result
    }
}

impl WithPCloudResult for FileChecksums {
    open spec fn spec_result(&self) -> PCloudResult {
        self.result
    }

    fn get_result(&self) -> (result: PCloudResult) {
        self.result
    }
}

impl WithPCloudResult for UserInfo {
    open spec fn spec_result(&self) -> PCloudResult {
        self.result
    }

    fn get_result(&self) -> (result: PCloudResult) {
        self.result
    }
}

impl WithPCloudResult for UploadedFile {
    open spec fn spec_result(&self) -> PCloudResult {
        self.result
    }

    fn get_result(&self) -> (result: PCloudResult) {
        self.result
    }
}

impl WithPCloudResult for LogoutResponse {
    open spec fn spec_result(&self) -> PCloudResult {
        self.result
    }

    fn get_result(&self) -> (result: PCloudResult) {
        self.result
    }
}

impl WithPCloudResult for SaveZipProgressResponse {
    open spec fn spec_result(&self) -> PCloudResult {
        self.result
    }

    fn get_result(&self) -> (result: PCloudResult) {
        self.result
    }
}

impl WithPCloudResult for FileOpenResponse {
    open spec fn spec_result(&self) -> PCloudResult {
        self.result
    }

    fn get_result(&self) -> (result: PCloudResult) {
        self.result
    }
}

} // verus!
