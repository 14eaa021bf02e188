use baidupan_sdk::download::{
    build_range_header, check_download_status, download_request, download_write_mode, WriteMode,
};
use baidupan_sdk::{Config, Error};

#[test]
fn range_header_both_bounds() {
    assert_eq!(build_range_header(Some(0), Some(1048575)), "bytes=0-1048575");
    assert_eq!(build_range_header(Some(100), Some(200)), "bytes=100-200");
}

#[test]
fn range_header_start_only() {
    assert_eq!(build_range_header(Some(1024), None), "bytes=1024-");
}

#[test]
fn range_header_end_only() {
    assert_eq!(build_range_header(None, Some(499)), "bytes=-499");
}

#[test]
fn range_header_no_bounds() {
    assert_eq!(build_range_header(None, None), "bytes=0-");
}

#[test]
fn download_request_appends_token_and_keeps_query() {
    let config = Config::new("tok");
    let req = download_request(&config, "https://d.pcs.baidu.com/file/x?fid=1", None, None)
        .unwrap();
    assert_eq!(req.url, "https://d.pcs.baidu.com/file/x?fid=1&access_token=tok");
    assert!(req.range.is_none());
    assert_eq!(req.user_agent, "pan.baidu.com");
}

#[test]
fn download_request_with_range() {
    let config = Config::new("tok");
    let req = download_request(&config, "https://d.pcs.baidu.com/file/x", Some(0), Some(99))
        .unwrap();
    assert_eq!(req.url, "https://d.pcs.baidu.com/file/x?access_token=tok");
    assert_eq!(req.range.as_deref(), Some("bytes=0-99"));
}

#[test]
fn download_request_rejects_bad_link() {
    let config = Config::new("tok");
    match download_request(&config, "not a link", None, None) {
        Err(Error::UrlParseError(m)) => assert_eq!(m, "not a link"),
        other => panic!("expected a URL error, got {:?}", other),
    }
}

#[test]
fn download_status_accepts_partial_content() {
    assert!(check_download_status(200, String::new()).is_ok());
    assert!(check_download_status(206, String::new()).is_ok());
}

#[test]
fn download_status_rejects_other_codes() {
    match check_download_status(403, "forbidden".to_string()) {
        Err(Error::ApiError { errno, message }) => {
            assert_eq!(errno, 403);
            assert_eq!(message, "forbidden");
        }
        other => panic!("expected an application error, got {:?}", other),
    }
}

#[test]
fn write_mode_appends_only_on_nonzero_start() {
    assert_eq!(download_write_mode(Some(1024)), WriteMode::Append);
    assert_eq!(download_write_mode(Some(0)), WriteMode::Truncate);
    assert_eq!(download_write_mode(None), WriteMode::Truncate);
}
