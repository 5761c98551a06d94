use pcloud_async_api::pcloud_model::pcloud_date_format;
use pcloud_async_api::pcloud_model::pcloud_option_date_format::{self, OptionalDateText};
use pcloud_async_api::pcloud_model::{
    assert_ok, format_date_time_for_pcloud, FileCategory, FileOrFolderStat, InvalidDate,
    LogoutResponse, PCloudResult, PCloudTime, SaveZipProgressResponse, WithPCloudResult,
};
use pcloud_async_api::request::{
    comma_separated_string, decimal_string, signed_decimal_string, Method, Request,
};

const ALL: [(PCloudResult, u16); 28] = [
    (PCloudResult::Success, 0),
    (PCloudResult::LogInRequired, 1000),
    (PCloudResult::NoFullPathOrNameOrFolderIdProvided, 1001),
    (PCloudResult::NoFullPathOrFolderIdProvided, 1002),
    (PCloudResult::NoFileIdOrPathProvided, 1004),
    (PCloudResult::DateTimeFormatNotUnderstood, 1013),
    (PCloudResult::ProvidedAtLeastToPathOrToFolderIdOrToName, 1037),
    (PCloudResult::ProvideURL, 1040),
    (PCloudResult::LoginFailed, 2000),
    (PCloudResult::InvalidFileOrFolderName, 2001),
    (PCloudResult::ComponentOfTheParentDirectoryDoesNotExist, 2002),
    (PCloudResult::AccessDenied, 2003),
    (PCloudResult::DirectoryDoesNotExist, 2005),
    (PCloudResult::FolderIsNotEmpty, 2006),
    (PCloudResult::CanNotDeleteRootFolder, 2007),
    (PCloudResult::UserOverQuota, 2008),
    (PCloudResult::FileNotFound, 2009),
    (PCloudResult::InvalidPath, 2010),
    (PCloudResult::PleaseVerifyYourMailAddressToPerformThisAction, 2014),
    (PCloudResult::CannotPlaceASharedFolderIntoAnotherSharedFolder, 2023),
    (PCloudResult::YouCanOnlyShareYourOwnFilesOrFolders, 2026),
    (PCloudResult::ActiveSharesOrShareRequestsForThisFolder, 2028),
    (PCloudResult::ConnectionBroken, 2041),
    (PCloudResult::CannotRenameTheRootFolder, 2042),
    (PCloudResult::CannotMoveAFolderToASubfolderOfItself, 2043),
    (PCloudResult::TooManyLogins, 4000),
    (PCloudResult::InternalError, 5000),
    (PCloudResult::InternalUploadError, 5001),
];

#[test]
fn result_codes_round_trip() {
    for (result, code) in ALL {
        assert_eq!(result.code(), Some(code));
        assert_eq!(PCloudResult::from_code(code), Some(result));
    }
    let known: Vec<u16> = ALL.iter().map(|(_, c)| *c).collect();
    for code in 0..=u16::MAX {
        if !known.contains(&code) {
            assert_eq!(PCloudResult::from_code(code), None);
        }
    }
    assert_eq!(PCloudResult::InvalidFileId.code(), None);
    assert_eq!(PCloudResult::InvalidFolderId.code(), None);
}

#[test]
fn result_messages() {
    assert_eq!(PCloudResult::Success.to_string(), "Everything ok - no error");
    assert_eq!(PCloudResult::LogInRequired.to_string(), "Log in required");
    assert_eq!(PCloudResult::AccessDenied.message(), "Access denied");
    assert_eq!(
        PCloudResult::ProvidedAtLeastToPathOrToFolderIdOrToName.to_string(),
        "Please provide at least one of 'topath', 'tofolderid' or 'toname'."
    );
    assert_eq!(
        PCloudResult::CannotPlaceASharedFolderIntoAnotherSharedFolder.to_string(),
        "You are trying to place shared folder into another shared folder."
    );
    assert_eq!(PCloudResult::CanNotDeleteRootFolder.to_string(), "Cannot delete the root folder.");
    assert_eq!(PCloudResult::InternalUploadError.to_string(), "Internal upload error");
    assert!(PCloudResult::Success.is_ok());
    assert!(!PCloudResult::InternalError.is_ok());
}

#[test]
fn file_category_codes_round_trip() {
    let all = [
        (FileCategory::Uncategorized, 0u8),
        (FileCategory::Image, 1),
        (FileCategory::Video, 2),
        (FileCategory::Audio, 3),
        (FileCategory::Document, 4),
        (FileCategory::Archive, 5),
    ];
    for (category, code) in all {
        assert_eq!(category.code(), code);
        assert_eq!(FileCategory::from_code(code), Some(category));
    }
    assert_eq!(FileCategory::from_code(6), None);
    assert_eq!(FileCategory::from_code(255), None);
}

#[test]
fn dates_are_written_in_the_pattern_of_the_service() {
    let date = PCloudTime::utc(1674648554);
    assert_eq!(
        format_date_time_for_pcloud(&date).as_deref(),
        Some("Wed, 25 Jan 2023 12:09:14 +0000")
    );
    assert_eq!(
        pcloud_date_format::serialize(&date).as_deref(),
        Some("Wed, 25 Jan 2023 12:09:14 +0000")
    );
    let local = PCloudTime { seconds: 1674648554, offset: 3600 };
    assert_eq!(
        format_date_time_for_pcloud(&local).as_deref(),
        Some("Wed, 25 Jan 2023 13:09:14 +0100")
    );
    let west = PCloudTime { seconds: 0, offset: -5 * 3600 - 1800 };
    assert_eq!(
        format_date_time_for_pcloud(&west).as_deref(),
        Some("Wed, 31 Dec 1969 18:30:00 -0530")
    );
    assert_eq!(date.timestamp(), 1674648554);
}

#[test]
fn writable_times_are_told_beforehand() {
    assert!(PCloudTime::utc(1674648554).is_writable());
    assert!(PCloudTime { seconds: 0, offset: -86_399 }.is_writable());
    assert!(!PCloudTime::utc(i64::MAX).is_writable());
    assert!(!PCloudTime { seconds: 0, offset: 86_400 }.is_writable());
}

#[test]
fn unrepresentable_dates_are_not_written() {
    assert_eq!(format_date_time_for_pcloud(&PCloudTime::utc(i64::MAX)), None);
    assert_eq!(format_date_time_for_pcloud(&PCloudTime::utc(i64::MIN)), None);
    assert_eq!(format_date_time_for_pcloud(&PCloudTime { seconds: 0, offset: 86_400 }), None);
    assert_eq!(format_date_time_for_pcloud(&PCloudTime { seconds: 0, offset: -86_400 }), None);
    assert!(format_date_time_for_pcloud(&PCloudTime { seconds: 0, offset: 86_399 }).is_some());
}

#[test]
fn dates_are_read_back() {
    assert_eq!(
        pcloud_date_format::deserialize("Wed, 25 Jan 2023 12:09:14 +0000"),
        Ok(PCloudTime::utc(1674648554))
    );
    assert_eq!(
        pcloud_date_format::deserialize("Thu, 01 Jan 1970 00:00:00 +0000"),
        Ok(PCloudTime::utc(0))
    );
    assert_eq!(pcloud_date_format::deserialize("2023-01-25"), Err(InvalidDate {}));
    assert_eq!(pcloud_date_format::deserialize(""), Err(InvalidDate {}));
    // The weekday has to fit the date.
    assert_eq!(
        pcloud_date_format::deserialize("Mon, 25 Jan 2023 12:09:14 +0000"),
        Err(InvalidDate {})
    );
    // Only UTC times are accepted.
    assert_eq!(
        pcloud_date_format::deserialize("Wed, 25 Jan 2023 13:09:14 +0100"),
        Err(InvalidDate {})
    );
}

#[test]
fn optional_dates() {
    assert!(matches!(pcloud_option_date_format::serialize(&None), OptionalDateText::Absent));
    match pcloud_option_date_format::serialize(&Some(PCloudTime::utc(0))) {
        OptionalDateText::Text(text) => assert_eq!(text, "Thu, 01 Jan 1970 00:00:00 +0000"),
        _ => panic!("expected a text"),
    }
    assert!(matches!(
        pcloud_option_date_format::serialize(&Some(PCloudTime::utc(i64::MAX))),
        OptionalDateText::OutOfRange
    ));
    assert_eq!(pcloud_option_date_format::deserialize(None), Ok(None));
    assert_eq!(
        pcloud_option_date_format::deserialize(Some("Wed, 25 Jan 2023 12:09:14 +0000")),
        Ok(Some(PCloudTime::utc(1674648554)))
    );
    assert_eq!(pcloud_option_date_format::deserialize(Some("soon")), Err(InvalidDate {}));
}

#[test]
fn answers_are_checked_for_success() {
    let good = FileOrFolderStat { result: PCloudResult::Success, metadata: None };
    assert_eq!(good.get_result(), PCloudResult::Success);
    assert!(assert_ok(good).is_ok());
    let bad = FileOrFolderStat { result: PCloudResult::FileNotFound, metadata: None };
    assert_eq!(assert_ok(bad).unwrap_err(), PCloudResult::FileNotFound);
    let logout = LogoutResponse { result: PCloudResult::AccessDenied, auth_deleted: None };
    assert_eq!(assert_ok(logout).unwrap_err(), PCloudResult::AccessDenied);
}

#[test]
fn remaining_files_of_a_packing() {
    let report = |files, totalfiles| SaveZipProgressResponse {
        result: PCloudResult::Success,
        files,
        totalfiles,
    };
    assert_eq!(report(3, 10).remaining(), Some(7));
    assert_eq!(report(10, 10).remaining(), Some(0));
    assert_eq!(report(11, 10).remaining(), None);
}

#[test]
fn numbers_in_decimal() {
    assert_eq!(decimal_string(0), "0");
    assert_eq!(decimal_string(9), "9");
    assert_eq!(decimal_string(10), "10");
    assert_eq!(decimal_string(1234567890), "1234567890");
    assert_eq!(decimal_string(u64::MAX), "18446744073709551615");
    assert_eq!(signed_decimal_string(0), "0");
    assert_eq!(signed_decimal_string(-1), "-1");
    assert_eq!(signed_decimal_string(1674648554), "1674648554");
    assert_eq!(signed_decimal_string(i64::MIN), "-9223372036854775808");
    assert_eq!(signed_decimal_string(i64::MAX), "9223372036854775807");
    for n in [0u64, 7, 42, 100, 999, 1000, 65535, 4294967296] {
        assert_eq!(decimal_string(n), n.to_string());
    }
    for n in [-100i64, -10, -9, 5, 1000] {
        assert_eq!(signed_decimal_string(n), n.to_string());
    }
}

#[test]
fn id_lists() {
    assert_eq!(comma_separated_string(&vec![]), "");
    assert_eq!(comma_separated_string(&vec![5]), "5");
    assert_eq!(comma_separated_string(&vec![5, 0, 123]), "5,0,123");
}

#[test]
fn request_assembly() {
    let r = Request::post("/x")
        .text("a", String::from("b c"))
        .number("n", 12)
        .flag("on", true)
        .flag("off", false)
        .opt_number("some", Some(1))
        .opt_number("none", None)
        .opt_signed("neg", Some(-3))
        .opt_signed("nosign", None)
        .opt_text("t", &Some(String::from("v")))
        .opt_text("nt", &None)
        .id_list("ids", &vec![1, 2])
        .id_list("noids", &vec![]);
    let got: Vec<(&str, &str)> =
        r.query.iter().map(|p| (p.key.as_str(), p.value.as_str())).collect();
    assert_eq!(
        got,
        vec![
            ("a", "b c"),
            ("n", "12"),
            ("on", "1"),
            ("some", "1"),
            ("neg", "-3"),
            ("t", "v"),
            ("ids", "1,2"),
        ]
    );
    assert_eq!(r.method, Method::Post);
    assert_eq!(r.timeout, None);
    assert_eq!(r.url("http://h"), "http://h/x");
    let r = r.opt_timeout(None);
    assert_eq!(r.timeout, None);
    let r = r.opt_timeout(Some(std::time::Duration::from_secs(2)));
    assert_eq!(r.opt_timeout(None).timeout, Some(std::time::Duration::from_secs(2)));
    assert_eq!(Request::get("/y").method, Method::Get);
}
