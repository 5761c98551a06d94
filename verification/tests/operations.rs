use pcloud_async_api::file_ops::{
    describe_file, ChecksumFileRequestBuilder, CopyFileRequestBuilder, FileDeleteRequestBuilder,
    FileDescriptor, FileDownloadRequestBuilder, FileStatRequestBuilder,
    ListRevisionsRequestBuilder, MoveFileRequestBuilder, PCloudFile,
    PublicFileDownloadRequestBuilder, PublicFileLinkRequestBuilder, Tree, UploadPlan,
    UploadRequestBuilder,
};
use pcloud_async_api::folder_ops::{
    describe_folder, FolderDescriptor, FolderIdLookup, PCloudFolder,
};
use pcloud_async_api::low_level_file::{PCloudFileFlag, PCloudFileFlags};
use pcloud_async_api::pcloud_client::PCloudClient;
use pcloud_async_api::pcloud_model::{
    ApiServers, FileOpenResponse, FileOrFolderStat, LogoutResponse, Metadata, PCloudResult,
    PCloudTime, SaveZipProgressResponse, UserInfo,
};
use pcloud_async_api::remote_zip::{
    PollerAction, PollerEvent, PollerState, PROGRESS_QUEUE_CAPACITY,
};
use pcloud_async_api::request::{Method, Request};

fn client() -> PCloudClient {
    PCloudClient::new(String::from("https://api.pcloud.com"), None)
}

fn session() -> PCloudClient {
    PCloudClient::new(String::from("https://api.pcloud.com"), Some(String::from("TOKEN")))
}

fn query(request: &Request) -> Vec<(&str, &str)> {
    request.query.iter().map(|p| (p.key.as_str(), p.value.as_str())).collect()
}

fn metadata(isfolder: bool, folderid: Option<u64>, fileid: Option<u64>) -> Metadata {
    Metadata {
        parentfolderid: 0,
        isfolder,
        ismine: true,
        canread: None,
        canmodify: None,
        candelete: None,
        cancreate: None,
        userid: None,
        isshared: false,
        name: String::from("name"),
        id: String::from("id"),
        folderid,
        fileid,
        deletefileid: None,
        created: PCloudTime::utc(0),
        modified: PCloudTime::utc(0),
        icon: None,
        category: None,
        thumb: false,
        size: None,
        contenttype: None,
        hash: None,
        contents: Vec::new(),
        isdeleted: None,
        path: None,
        width: None,
        height: None,
        artist: None,
        album: None,
        title: None,
        genre: None,
        trackno: None,
        duration: None,
        fps: None,
        videocodec: None,
        audiocodec: None,
        videobitrate: None,
        audiobitrate: None,
        audiosamplerate: None,
        rotate: None,
    }
}

fn stat(result: PCloudResult, metadata: Option<Metadata>) -> FileOrFolderStat {
    FileOrFolderStat { result, metadata }
}

fn folder(f: Result<PCloudFolder, PCloudResult>) -> Result<(Option<u64>, Option<String>), PCloudResult> {
    f.map(|f| (f.folder_id, f.path))
}

fn file(f: Result<PCloudFile, PCloudResult>) -> Result<(Option<u64>, Option<String>), PCloudResult> {
    f.map(|f| (f.file_id, f.path))
}

#[test]
fn folder_descriptors() {
    assert_eq!(folder(7u64.to_folder()), Ok((Some(7), None)));
    assert_eq!(folder((&7u64).to_folder()), Ok((Some(7), None)));
    assert_eq!(folder("/".to_folder()), Ok((Some(0), None)));
    assert_eq!(folder("/a/b".to_folder()), Ok((None, Some(String::from("/a/b")))));
    assert_eq!(folder(String::from("/ä").to_folder()), Ok((None, Some(String::from("/ä")))));
    assert_eq!(folder("a/b".to_folder()), Err(PCloudResult::InvalidPath));
    assert_eq!(folder("".to_folder()), Err(PCloudResult::InvalidPath));
    assert_eq!(folder(String::from("x").to_folder()), Err(PCloudResult::InvalidPath));
    assert_eq!(folder((&metadata(true, Some(5), None)).to_folder()), Ok((Some(5), None)));
    assert_eq!(folder((&metadata(true, None, None)).to_folder()), Ok((None, None)));
    assert_eq!(
        folder((&metadata(false, None, Some(5))).to_folder()),
        Err(PCloudResult::InvalidFileOrFolderName)
    );
    let ok = stat(PCloudResult::Success, Some(metadata(true, Some(9), None)));
    assert_eq!(folder((&ok).to_folder()), Ok((Some(9), None)));
    let failed = stat(PCloudResult::AccessDenied, Some(metadata(true, Some(9), None)));
    assert_eq!(folder((&failed).to_folder()), Err(PCloudResult::InvalidPath));
    assert_eq!(folder((&stat(PCloudResult::Success, None)).to_folder()), Err(PCloudResult::InvalidPath));
    let is_file = stat(PCloudResult::Success, Some(metadata(false, None, Some(1))));
    assert_eq!(folder((&is_file).to_folder()), Err(PCloudResult::InvalidFileOrFolderName));
    let given = PCloudFolder { folder_id: Some(3), path: Some(String::from("/p")) };
    assert_eq!(folder(given.to_folder()), Ok((Some(3), Some(String::from("/p")))));
    assert_eq!(folder(PCloudFolder::from_path("/")), Ok((Some(0), None)));
    assert_eq!(folder(PCloudFolder::try_from("/")), Ok((Some(0), None)));
    assert_eq!(folder(PCloudFolder::try_from("/a")), Ok((None, Some(String::from("/a")))));
    assert_eq!(folder(PCloudFolder::try_from(String::from("a"))), Err(PCloudResult::InvalidPath));
    assert_eq!(folder(Ok(PCloudFolder::from(4u64))), Ok((Some(4), None)));
    assert_eq!(folder(Ok(PCloudFolder::from(&4u64))), Ok((Some(4), None)));
    assert_eq!(folder(Ok(4u64.into())), Ok((Some(4), None)));
    assert_eq!(
        folder(PCloudFolder::try_from(&metadata(true, Some(5), None))),
        Ok((Some(5), None))
    );
    assert_eq!(
        folder(PCloudFolder::try_from(&stat(PCloudResult::Success, None))),
        Err(PCloudResult::InvalidPath)
    );
}

#[test]
fn folder_description_as_text_and_emptiness() {
    let empty = PCloudFolder { folder_id: None, path: None };
    assert!(empty.is_empty());
    assert_eq!(empty.to_string(), "[Empty pCloud folder descriptor!]");
    let by_id = PCloudFolder { folder_id: Some(42), path: Some(String::from("/p")) };
    assert!(!by_id.is_empty());
    assert_eq!(by_id.to_string(), "42");
    let by_path = PCloudFolder { folder_id: None, path: Some(String::from("/p")) };
    assert!(!by_path.is_empty());
    assert_eq!(by_path.to_string(), "/p");
    assert_eq!(folder(describe_folder(empty)), Err(PCloudResult::NoFileIdOrPathProvided));
    assert_eq!(folder(describe_folder("/x")), Ok((None, Some(String::from("/x")))));
    assert_eq!(folder(describe_folder("x")), Err(PCloudResult::InvalidPath));
}

#[test]
fn file_descriptors() {
    assert_eq!(file(7u64.to_file()), Ok((Some(7), None)));
    assert_eq!(file((&7u64).to_file()), Ok((Some(7), None)));
    assert_eq!(file("a.txt".to_file()), Ok((None, Some(String::from("a.txt")))));
    assert_eq!(file(String::from("/a.txt").to_file()), Ok((None, Some(String::from("/a.txt")))));
    assert_eq!(file((&metadata(false, None, Some(5))).to_file()), Ok((Some(5), None)));
    assert_eq!(
        file((&metadata(true, Some(5), None)).to_file()),
        Err(PCloudResult::InvalidFileOrFolderName)
    );
    let ok = stat(PCloudResult::Success, Some(metadata(false, None, Some(9))));
    assert_eq!(file((&ok).to_file()), Ok((Some(9), None)));
    let failed = stat(PCloudResult::FileNotFound, None);
    assert_eq!(file((&failed).to_file()), Err(PCloudResult::InvalidFileOrFolderName));
    assert_eq!(file(Ok(PCloudFile::from(4u64))), Ok((Some(4), None)));
    assert_eq!(file(Ok(PCloudFile::from(&4u64))), Ok((Some(4), None)));
    assert_eq!(file(Ok(PCloudFile::from("p"))), Ok((None, Some(String::from("p")))));
    assert_eq!(file(Ok(String::from("q").into())), Ok((None, Some(String::from("q")))));
    assert_eq!(
        file(PCloudFile::try_from(&metadata(false, None, Some(5)))),
        Ok((Some(5), None))
    );
    assert_eq!(
        file(PCloudFile::try_from(&stat(PCloudResult::Success, None))),
        Err(PCloudResult::InvalidFileOrFolderName)
    );
    let empty = PCloudFile { file_id: None, path: None };
    assert!(empty.is_empty());
    assert_eq!(file(describe_file(empty)), Err(PCloudResult::NoFileIdOrPathProvided));
    assert_eq!(file(describe_file(3u64)), Ok((Some(3), None)));
}

#[test]
fn tree_collects_ids() {
    let tree = Tree::create();
    assert!(tree.folder_id.is_none() && tree.folder_ids.is_empty() && tree.file_ids.is_empty());
    assert!(tree.exclude_folder_ids.is_empty() && tree.exclude_file_ids.is_empty());
    let tree = tree
        .with_file(1u64)
        .unwrap()
        .with_file(&2u64)
        .unwrap()
        .without_file(3u64)
        .unwrap()
        .with_folder(4u64)
        .unwrap()
        .with_folder("/")
        .unwrap()
        .without_folder(5u64)
        .unwrap()
        .with_content_of_folder(6u64)
        .unwrap()
        .with(&metadata(true, Some(7), None))
        .unwrap()
        .with(&metadata(false, None, Some(8)))
        .unwrap()
        .without(&metadata(true, Some(9), None))
        .unwrap()
        .without(&metadata(false, None, Some(10)))
        .unwrap();
    assert_eq!(tree.folder_id, Some(6));
    assert_eq!(tree.folder_ids, vec![4, 0, 7]);
    assert_eq!(tree.file_ids, vec![1, 2, 8]);
    assert_eq!(tree.exclude_folder_ids, vec![5, 9]);
    assert_eq!(tree.exclude_file_ids, vec![3, 10]);
    let r = tree.add_to_request(Request::get("/getzip"));
    assert_eq!(
        query(&r),
        vec![
            ("folderid", "6"),
            ("folderids", "4,0,7"),
            ("fileids", "1,2,8"),
            ("excludefolderids", "5,9"),
            ("excludefileids", "3,10"),
        ]
    );
    assert!(query(&Tree::create().add_to_request(Request::get("/getzip"))).is_empty());
}

#[test]
fn tree_rejects_descriptions_without_an_id() {
    assert_eq!(Tree::create().with_file("/a.txt").unwrap_err(), PCloudResult::InvalidFileId);
    assert_eq!(Tree::create().without_file("/a.txt").unwrap_err(), PCloudResult::InvalidFileId);
    assert_eq!(Tree::create().with_folder("/a").unwrap_err(), PCloudResult::InvalidFolderId);
    assert_eq!(Tree::create().without_folder("/a").unwrap_err(), PCloudResult::InvalidFolderId);
    assert_eq!(
        Tree::create().with_content_of_folder("/a").unwrap_err(),
        PCloudResult::InvalidFolderId
    );
    assert_eq!(Tree::create().with_folder("a").unwrap_err(), PCloudResult::InvalidPath);
    assert_eq!(
        Tree::create().with_file(&metadata(true, Some(1), None)).unwrap_err(),
        PCloudResult::InvalidFileOrFolderName
    );
    assert_eq!(
        Tree::create().with(&metadata(true, None, None)).unwrap_err(),
        PCloudResult::InvalidFolderId
    );
    assert_eq!(
        Tree::create().without(&metadata(false, None, None)).unwrap_err(),
        PCloudResult::InvalidFileId
    );
}

#[test]
fn folder_calls() {
    let c = session();
    let r = c.list_folder("/docs").unwrap().recursive(true).nofiles(true).get();
    assert_eq!(r.method, Method::Get);
    assert_eq!(r.path, "/listfolder");
    assert_eq!(
        query(&r),
        vec![("path", "/docs"), ("recursive", "1"), ("nofiles", "1"), ("auth", "TOKEN")]
    );
    let r = c.list_folder(12u64).unwrap().showdeleted(true).noshares(true).get();
    assert_eq!(
        query(&r),
        vec![("folderid", "12"), ("showdeleted", "1"), ("noshares", "1"), ("auth", "TOKEN")]
    );
    assert_eq!(c.list_folder("docs").unwrap_err(), PCloudResult::InvalidPath);
    assert_eq!(
        c.list_folder(PCloudFolder { folder_id: None, path: None }).unwrap_err(),
        PCloudResult::NoFileIdOrPathProvided
    );

    let c = client();
    let r = c.create_folder("/", "new").unwrap().execute();
    assert_eq!(r.path, "/createfolderifnotexists");
    assert_eq!(query(&r), vec![("folderid", "0"), ("name", "new")]);
    let r = c.create_folder("/a", "new").unwrap().if_not_exists(false).execute();
    assert_eq!(r.path, "/createfolder");
    assert_eq!(query(&r), vec![("path", "/a"), ("name", "new")]);

    let r = c.delete_folder(&metadata(true, Some(3), None)).unwrap().delete_recursive();
    assert_eq!(r.path, "/deletefolderrecursive");
    assert_eq!(query(&r), vec![("folderid", "3")]);
    let r = c.delete_folder("/gone").unwrap().delete_folder_if_empty();
    assert_eq!(r.path, "/deletefolder");
    assert_eq!(query(&r), vec![("path", "/gone")]);
    assert_eq!(
        c.delete_folder(&metadata(true, None, None)).unwrap_err(),
        PCloudResult::NoFileIdOrPathProvided
    );

    let r = c.copy_folder(1u64, "/to").unwrap().execute();
    assert_eq!(r.method, Method::Post);
    assert_eq!(r.path, "/copyfolder");
    assert_eq!(
        query(&r),
        vec![("folderid", "1"), ("topath", "/to"), ("skipexisting", "1"), ("copycontentonly", "1")]
    );
    let r = c
        .copy_folder("/from", 2u64)
        .unwrap()
        .overwrite(false)
        .skip_existing(true)
        .copy_content_only(true)
        .execute();
    assert_eq!(query(&r), vec![("path", "/from"), ("tofolderid", "2"), ("noover", "1")]);
    assert_eq!(c.copy_folder("from", 2u64).unwrap_err(), PCloudResult::InvalidPath);
    assert_eq!(c.copy_folder(1u64, "to").unwrap_err(), PCloudResult::InvalidPath);

    let r = c.move_folder(1u64, 2u64).unwrap().with_new_name("n").execute();
    assert_eq!(r.method, Method::Post);
    assert_eq!(r.path, "/renamefolder");
    assert_eq!(query(&r), vec![("folderid", "1"), ("tofolderid", "2"), ("toname", "n")]);
    assert_eq!(
        c.move_folder(1u64, PCloudFolder { folder_id: None, path: None }).unwrap_err(),
        PCloudResult::NoFileIdOrPathProvided
    );
}

#[test]
fn folder_id_lookup() {
    let c = client();
    assert!(matches!(c.get_folder_id(8u64), Ok(FolderIdLookup::Known(8))));
    assert!(matches!(c.get_folder_id("/"), Ok(FolderIdLookup::Known(0))));
    match c.get_folder_id("/a").unwrap() {
        FolderIdLookup::Ask(listing) => {
            assert_eq!(query(&listing.get()), vec![("path", "/a"), ("nofiles", "1")]);
        }
        _ => panic!("expected a listing"),
    }
    assert_eq!(c.get_folder_id("a").unwrap_err(), PCloudResult::InvalidPath);
    assert_eq!(
        c.get_folder_id(PCloudFolder { folder_id: None, path: None }).unwrap_err(),
        PCloudResult::NoFileIdOrPathProvided
    );
    let listing = stat(PCloudResult::Success, Some(metadata(true, Some(77), None)));
    assert_eq!(PCloudClient::folder_id_of_listing(&listing), Ok(77));
    let listing = stat(PCloudResult::Success, Some(metadata(false, Some(77), None)));
    assert_eq!(PCloudClient::folder_id_of_listing(&listing), Err(PCloudResult::InvalidFolderId));
    let listing = stat(PCloudResult::Success, Some(metadata(true, None, None)));
    assert_eq!(PCloudClient::folder_id_of_listing(&listing), Err(PCloudResult::InvalidFolderId));
}

#[test]
fn file_calls() {
    let c = session();
    let date = PCloudTime { seconds: 1674648554, offset: 7200 };
    let r = CopyFileRequestBuilder::copy_file(&c, 5u64, "/to")
        .unwrap()
        .mtime(&date)
        .ctime(&PCloudTime::utc(-1))
        .with_new_name("n.txt")
        .with_revision(3)
        .overwrite(false)
        .execute();
    assert_eq!(r.method, Method::Post);
    assert_eq!(r.path, "/copyfile");
    assert_eq!(
        query(&r),
        vec![
            ("fileid", "5"),
            ("topath", "/to"),
            ("mtime", "1674648554"),
            ("ctime", "-1"),
            ("toname", "n.txt"),
            ("revisionid", "3"),
            ("noover", "1"),
            ("auth", "TOKEN"),
        ]
    );
    let r = CopyFileRequestBuilder::copy_file(&client(), "/a.txt", 1u64).unwrap().execute();
    assert_eq!(query(&r), vec![("path", "/a.txt"), ("tofolderid", "1")]);
    assert_eq!(
        CopyFileRequestBuilder::copy_file(&c, PCloudFile { file_id: None, path: None }, 1u64)
            .unwrap_err(),
        PCloudResult::NoFileIdOrPathProvided
    );
    assert_eq!(
        CopyFileRequestBuilder::copy_file(&c, 1u64, "rel").unwrap_err(),
        PCloudResult::InvalidPath
    );

    let r = MoveFileRequestBuilder::move_file(&client(), 5u64, 6u64)
        .unwrap()
        .with_new_name("m")
        .with_revision(2)
        .execute();
    assert_eq!(r.method, Method::Post);
    assert_eq!(r.path, "/renamefile");
    assert_eq!(
        query(&r),
        vec![("fileid", "5"), ("tofolderid", "6"), ("toname", "m"), ("revisionid", "2")]
    );
    assert_eq!(
        MoveFileRequestBuilder::move_file(&c, &metadata(true, Some(1), None), 6u64).unwrap_err(),
        PCloudResult::InvalidFileOrFolderName
    );

    let r = PublicFileLinkRequestBuilder::for_file(&client(), 5u64)
        .unwrap()
        .expire_link_after(&PCloudTime::utc(0))
        .with_max_downloads(3)
        .with_max_traffic(1000)
        .with_shortlink(true)
        .with_password("pw")
        .with_revision(9)
        .get();
    assert_eq!(r.method, Method::Get);
    assert_eq!(r.path, "/getfilepublink");
    assert_eq!(
        query(&r),
        vec![
            ("fileid", "5"),
            ("maxdownloads", "3"),
            ("linkpassword", "pw"),
            ("maxtraffic", "1000"),
            ("shortlink", "1"),
            ("expire", "Thu, 01 Jan 1970 00:00:00 +0000"),
            ("revisionid", "9"),
        ]
    );
    let kept = PublicFileLinkRequestBuilder::for_file(&client(), "/p")
        .unwrap()
        .expire_link_after(&PCloudTime::utc(0))
        .expire_link_after(&PCloudTime::utc(i64::MAX));
    assert_eq!(kept.expire.as_deref(), Some("Thu, 01 Jan 1970 00:00:00 +0000"));

    let r = PublicFileDownloadRequestBuilder::for_public_file(&c, "CODE").get();
    assert_eq!(r.path, "/getpublinkdownload");
    assert_eq!(query(&r), vec![("code", "CODE"), ("auth", "TOKEN")]);
    let r = PublicFileDownloadRequestBuilder::for_file_in_public_folder(&client(), "CODE", 4).get();
    assert_eq!(query(&r), vec![("code", "CODE"), ("fileid", "4")]);

    let r = ListRevisionsRequestBuilder::for_file(&client(), "/f").unwrap().get();
    assert_eq!((r.path.as_str(), query(&r)), ("/listrevisions", vec![("path", "/f")]));
    let r = ChecksumFileRequestBuilder::for_file(&client(), 1u64).unwrap().with_revision(2).get();
    assert_eq!(
        (r.path.as_str(), query(&r)),
        ("/checksumfile", vec![("fileid", "1"), ("revisionid", "2")])
    );
    let r = FileDeleteRequestBuilder::for_file(&c, 1u64).unwrap().execute();
    assert_eq!(
        (r.path.as_str(), query(&r)),
        ("/deletefile", vec![("fileid", "1"), ("auth", "TOKEN")])
    );
    let r = FileDownloadRequestBuilder::for_file(&client(), 1u64).unwrap().with_revision(7).get();
    assert_eq!(
        (r.path.as_str(), query(&r)),
        ("/getfilelink", vec![("fileid", "1"), ("revisionid", "7")])
    );
    let r = FileStatRequestBuilder::for_file(&client(), "/s").unwrap().get();
    assert_eq!((r.path.as_str(), query(&r)), ("/stat", vec![("path", "/s")]));
    assert_eq!(
        FileStatRequestBuilder::for_file(&c, PCloudFile { file_id: None, path: None }).unwrap_err(),
        PCloudResult::NoFileIdOrPathProvided
    );
}

#[test]
fn uploads() {
    let empty = UploadRequestBuilder::<Vec<u8>>::into_folder(&client(), "/up").unwrap();
    match empty.upload() {
        UploadPlan::Nothing(answer) => {
            assert_eq!(answer.result, PCloudResult::Success);
            assert!(answer.fileids.is_empty() && answer.metadata.is_empty());
        }
        _ => panic!("nothing to send"),
    }
    let plan = UploadRequestBuilder::into_folder(&session(), 3u64)
        .unwrap()
        .rename_if_exists(true)
        .mtime(&PCloudTime::utc(10))
        .ctime(&PCloudTime::utc(5))
        .with_file("test.txt", "This is nice test content")
        .with_file("second test.txt", "This is another nice test content")
        .upload();
    match plan {
        UploadPlan::Send { request, files } => {
            assert_eq!(request.method, Method::Post);
            assert_eq!(request.path, "/uploadfile");
            assert_eq!(
                query(&request),
                vec![
                    ("folderid", "3"),
                    ("nopartial", "1"),
                    ("renameifexists", "1"),
                    ("mtime", "10"),
                    ("ctime", "5"),
                    ("auth", "TOKEN"),
                ]
            );
            assert_eq!(files.len(), 2);
            assert_eq!(files[0].file_name, "test.txt");
            assert_eq!(files[0].body, "This is nice test content");
            assert_eq!(files[1].file_name, "second test.txt");
        }
        _ => panic!("expected a call"),
    }
    let plan = UploadRequestBuilder::into_folder(&client(), "/up")
        .unwrap()
        .no_partial(false)
        .with_file("a", 1u8)
        .upload();
    match plan {
        UploadPlan::Send { request, .. } => assert_eq!(query(&request), vec![("path", "/up")]),
        _ => panic!("expected a call"),
    }
    assert_eq!(
        UploadRequestBuilder::<u8>::into_folder(&client(), "up").unwrap_err(),
        PCloudResult::InvalidPath
    );
}

#[test]
fn zip_calls() {
    let c = session();
    let tree = Tree::create().with_file(1u64).unwrap().with_folder(2u64).unwrap();
    let r = c.download_zip_of_files(tree);
    assert_eq!(r.path, "/getzip");
    assert_eq!(query(&r), vec![("folderids", "2"), ("fileids", "1"), ("auth", "TOKEN")]);

    let tree = Tree::create().with_file(1u64).unwrap();
    let r = client().create_zip(tree).to_path("/a.zip").execute();
    assert_eq!(r.path, "/savezip");
    assert_eq!(query(&r), vec![("topath", "/a.zip"), ("fileids", "1")]);

    let tree = Tree::create().with_file(1u64).unwrap();
    let r = client().create_zip(tree).to_folder(9u64, "b.zip").unwrap().execute();
    assert_eq!(query(&r), vec![("tofolderid", "9"), ("toname", "b.zip"), ("fileids", "1")]);
    assert_eq!(
        client().create_zip(Tree::create()).to_folder("rel", "b.zip").unwrap_err(),
        PCloudResult::InvalidPath
    );

    let tree = Tree::create().with_file(1u64).unwrap();
    let (r, poller) =
        c.create_zip(tree).to_path("/a.zip").execute_with_progress_hash(String::from("HASH"));
    assert_eq!(
        query(&r),
        vec![("topath", "/a.zip"), ("progresshash", "HASH"), ("fileids", "1"), ("auth", "TOKEN")]
    );
    assert_eq!(poller.progress_hash, "HASH");
    let first = poller.start();
    assert_eq!(first.path, "/savezipprogress");
    assert_eq!(query(&first), vec![("progresshash", "HASH"), ("auth", "TOKEN")]);
}

#[test]
fn fresh_progress_keys() {
    let start = || {
        let tree = Tree::create().with_file(1u64).unwrap();
        client().create_zip(tree).to_path("/a.zip").execute_with_progress_notification()
    };
    let (r, poller) = start();
    assert_eq!(poller.progress_hash.chars().count(), 36);
    assert_eq!(query(&r)[1], ("progresshash", poller.progress_hash.as_str()));
    let (_, other) = start();
    assert_ne!(poller.progress_hash, other.progress_hash);
}

#[test]
fn progress_poller() {
    let report = |files, totalfiles| SaveZipProgressResponse {
        result: PCloudResult::Success,
        files,
        totalfiles,
    };
    let tree = Tree::create().with_file(1u64).unwrap();
    let (_, mut poller) =
        client().create_zip(tree).to_path("/a.zip").execute_with_progress_hash(String::from("H"));
    assert_eq!(poller.state, PollerState::Fetching);
    assert!(matches!(poller.step(PollerEvent::Slept), PollerAction::Wait));
    assert!(matches!(poller.step(PollerEvent::FetchFailed), PollerAction::Sleep));
    assert_eq!(poller.state, PollerState::Sleeping);
    match poller.step(PollerEvent::Slept) {
        PollerAction::Fetch(r) => assert_eq!(query(&r), vec![("progresshash", "H")]),
        _ => panic!("expected a call"),
    }
    match poller.step(PollerEvent::Progress(report(1, 3))) {
        PollerAction::Send(p) => assert_eq!((p.files, p.totalfiles), (1, 3)),
        _ => panic!("expected a report"),
    }
    assert_eq!(poller.state, PollerState::Sending { finished: false });
    assert!(matches!(poller.step(PollerEvent::Sent), PollerAction::Sleep));
    assert!(matches!(poller.step(PollerEvent::Slept), PollerAction::Fetch(_)));
    assert!(matches!(poller.step(PollerEvent::Progress(report(3, 3))), PollerAction::Send(_)));
    assert!(matches!(poller.step(PollerEvent::SendFailed), PollerAction::Sleep));
    assert!(matches!(poller.step(PollerEvent::Slept), PollerAction::Fetch(_)));
    assert!(matches!(poller.step(PollerEvent::Progress(report(3, 3))), PollerAction::Send(_)));
    assert_eq!(poller.state, PollerState::Sending { finished: true });
    assert!(matches!(poller.step(PollerEvent::Sent), PollerAction::Stop));
    assert_eq!(poller.state, PollerState::Done);
    assert!(matches!(poller.step(PollerEvent::Slept), PollerAction::Stop));
    assert_eq!(PROGRESS_QUEUE_CAPACITY, 32);
}

#[test]
fn open_file_calls() {
    assert_eq!(PCloudFileFlag::WRITE.to_number(), 0x0002);
    assert_eq!(PCloudFileFlag::CREATE.to_number(), 0x0040);
    assert_eq!(PCloudFileFlag::EXCL.to_number(), 0x0080);
    assert_eq!(PCloudFileFlag::TRUNCATE.to_number(), 0x0200);
    assert_eq!(PCloudFileFlag::APPEND.to_number(), 0x0400);
    assert_eq!(PCloudFileFlags::empty().number(), 0);
    let all = PCloudFileFlags::empty()
        .insert(PCloudFileFlag::WRITE)
        .insert(PCloudFileFlag::CREATE)
        .insert(PCloudFileFlag::EXCL)
        .insert(PCloudFileFlag::TRUNCATE)
        .insert(PCloudFileFlag::APPEND);
    assert_eq!(all.number(), 0x06C2);

    let c = session();
    let open = c
        .open_file()
        .by_file_path("/f.txt")
        .with_flag(PCloudFileFlag::CREATE)
        .with_flag(PCloudFileFlag::WRITE)
        .with_flag(PCloudFileFlag::CREATE);
    let r = open.open();
    assert_eq!(r.path, "/file_open");
    assert_eq!(query(&r), vec![("flags", "66"), ("path", "/f.txt"), ("auth", "TOKEN")]);
    let r = client().open_file().by_file_id(4).open();
    assert_eq!(query(&r), vec![("flags", "0"), ("fileid", "4")]);
    let r = client().open_file().by_file_in_folder(5, "n").with_flag(PCloudFileFlag::APPEND).open();
    assert_eq!(query(&r), vec![("flags", "1024"), ("folderid", "5"), ("name", "n")]);

    let answer = FileOpenResponse { result: PCloudResult::Success, fd: 11, fileid: 22 };
    let mut file = open.opened(&answer);
    assert_eq!((file.fd, file.file_id, file.open), (11, 22, true));
    let w = file.write();
    assert_eq!(w.method, Method::Post);
    assert_eq!(w.path, "/file_write");
    assert_eq!(query(&w), vec![("fd", "11"), ("auth", "TOKEN")]);
    let close = file.close().unwrap();
    assert_eq!(close.path, "/file_close");
    assert_eq!(query(&close), vec![("fd", "11"), ("auth", "TOKEN")]);
    assert!(!file.open);
    assert!(file.close().is_none());
}

#[test]
fn client_calls() {
    assert_eq!(PCloudClient::with_oauth("abc"), "Bearer abc");
    let r = PCloudClient::with_username_and_password("me@example.com", "secret");
    assert_eq!(r.path, "/userinfo?getauth=1");
    assert_eq!(query(&r), vec![("username", "me@example.com"), ("password", "secret")]);
    let r = PCloudClient::logout_request("T");
    assert_eq!((r.path.as_str(), query(&r)), ("/logout", vec![("auth", "T")]));
    let r = PCloudClient::api_server_request(&Some(String::from("T")));
    assert_eq!((r.path.as_str(), query(&r)), ("/getapiserver", vec![("auth", "T")]));
    assert!(query(&PCloudClient::api_server_request(&None)).is_empty());
    let r = session().get_user_info();
    assert_eq!((r.path.as_str(), query(&r)), ("/userinfo", vec![("auth", "TOKEN")]));
    assert!(query(&client().add_token(Request::get("/x"))).is_empty());
    let copy = session().clone();
    assert_eq!(copy.api_host, "https://api.pcloud.com");
    assert_eq!(copy.session_token.as_deref(), Some("TOKEN"));
}

fn user_info(result: PCloudResult, auth: Option<&str>) -> UserInfo {
    UserInfo {
        result,
        auth: auth.map(String::from),
        userid: None,
        email: None,
        emailverified: None,
        registered: None,
        language: None,
        premium: None,
        usedquota: None,
        quota: None,
    }
}

#[test]
fn login_and_logout_answers() {
    assert_eq!(PCloudClient::login(user_info(PCloudResult::Success, Some("T"))), Ok(String::from("T")));
    assert_eq!(
        PCloudClient::login(user_info(PCloudResult::Success, None)),
        Err(PCloudResult::AccessDenied)
    );
    assert_eq!(
        PCloudClient::login(user_info(PCloudResult::LoginFailed, Some("T"))),
        Err(PCloudResult::AccessDenied)
    );
    let answer = |result, auth_deleted| LogoutResponse { result, auth_deleted };
    assert!(PCloudClient::logout(&answer(PCloudResult::Success, Some(true))));
    assert!(!PCloudClient::logout(&answer(PCloudResult::Success, Some(false))));
    assert!(!PCloudClient::logout(&answer(PCloudResult::Success, None)));
    assert!(!PCloudClient::logout(&answer(PCloudResult::InternalError, Some(true))));
}

#[test]
fn nearest_api_server() {
    let servers = |result, api: &[&str]| ApiServers {
        result,
        binapi: Vec::new(),
        api: api.iter().map(|s| s.to_string()).collect(),
    };
    let found = servers(PCloudResult::Success, &["eapi1.pcloud.com", "eapi2.pcloud.com"]);
    assert_eq!(
        PCloudClient::get_best_api_server(&found, "https://eapi.pcloud.com"),
        "https://eapi1.pcloud.com"
    );
    assert_eq!(
        PCloudClient::best_api_server(&found, "https://eapi.pcloud.com").as_deref(),
        Some("https://eapi1.pcloud.com")
    );
    let failed = servers(PCloudResult::InternalError, &["eapi1.pcloud.com"]);
    assert_eq!(
        PCloudClient::get_best_api_server(&failed, "https://eapi.pcloud.com"),
        "https://eapi.pcloud.com"
    );
    let none = servers(PCloudResult::Success, &[]);
    assert_eq!(PCloudClient::best_api_server(&none, "https://eapi.pcloud.com"), None);
    let failed_none = servers(PCloudResult::AccessDenied, &[]);
    assert_eq!(
        PCloudClient::best_api_server(&failed_none, "h").as_deref(),
        Some("h")
    );
}
