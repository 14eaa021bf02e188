use baidupan_sdk::query::{build_query, build_url, url_encode};
use baidupan_sdk::requests::{
    copy_files_request, create_dir_request, delete_files_request, file_doc_list_request,
    file_image_list_request, file_list_all_request, file_list_request, file_metas_request,
    file_precreate_request, file_search_request, get_quota_request, get_user_info_request,
    move_files_request, oauth_token_code2token_request, oauth_token_device_code_request,
    oauth_token_device_token_request, oauth_token_refresh_request, rename_file_request,
    upload_slice_request, HttpMethod, RequestBody,
};
use baidupan_sdk::{Config, Error, ServerConfig};

fn config() -> Config {
    Config::new("tok")
}

#[test]
fn percent_encoding_is_applied() {
    assert_eq!(url_encode("hello world/"), "hello%20world%2F");
    assert_eq!(url_encode("plain-safe_chars.~"), "plain-safe_chars.~");
}

#[test]
fn query_joins_pairs_in_order() {
    let pairs = vec![
        ("a".to_string(), "1".to_string()),
        ("b".to_string(), "two words".to_string()),
    ];
    assert_eq!(build_query(&pairs), "a=1&b=two%20words");
}

#[test]
fn url_building_appends_query() {
    let pairs = vec![("k".to_string(), "v".to_string())];
    let url = build_url("https://pan.baidu.com/rest/2.0/xpan/file", &pairs).unwrap();
    assert_eq!(url, "https://pan.baidu.com/rest/2.0/xpan/file?k=v");
}

#[test]
fn url_building_rejects_garbage() {
    match build_url("::::", &Vec::new()) {
        Err(Error::UrlParseError(m)) => assert_eq!(m, "::::"),
        other => panic!("expected a URL error, got {:?}", other),
    }
}

#[test]
fn precreate_request_is_exact() {
    let bl = vec!["900150983cd24fb0d6963f7d28e17f72".to_string()];
    let req = file_precreate_request(&config(), "/apps/t.txt", 3, &bl).unwrap();
    assert_eq!(req.method, HttpMethod::Post);
    assert_eq!(
        req.url,
        "https://pan.baidu.com/rest/2.0/xpan/file?method=precreate&openapi=xpansdk&access_token=tok"
    );
    match req.body {
        RequestBody::Json(b) => {
            let text = String::from_utf8(b).unwrap();
            assert_eq!(
                text,
                "{\"autoinit\":1,\"block_list\":\"[\\\"900150983cd24fb0d6963f7d28e17f72\\\"]\",\"isdir\":0,\"path\":\"/apps/t.txt\",\"rtype\":1,\"size\":3}"
            );
            // And it is well-formed JSON with the expected fields.
            let v: serde_json::Value = serde_json::from_str(&text).unwrap();
            assert_eq!(v["autoinit"], 1);
            assert_eq!(v["isdir"], 0);
            assert_eq!(v["rtype"], 1);
            assert_eq!(v["size"], 3);
            assert_eq!(v["path"], "/apps/t.txt");
            let inner: Vec<String> =
                serde_json::from_str(v["block_list"].as_str().unwrap()).unwrap();
            assert_eq!(inner, bl);
        }
        other => panic!("expected a JSON body, got {:?}", other),
    }
}

#[test]
fn slice_request_carries_index_and_bytes() {
    let data = vec![9u8; 10];
    let req = upload_slice_request(&config(), "/apps/t.bin", "sess", 2, &data).unwrap();
    assert_eq!(req.method, HttpMethod::Post);
    assert_eq!(
        req.url,
        "https://d.pcs.baidu.com/rest/2.0/pcs/superfile2?method=upload&type=tmpfile&path=%2Fapps%2Ft.bin&uploadid=sess&partseq=2&openapi=xpansdk&access_token=tok"
    );
    assert_eq!(req.body, RequestBody::MultipartFile(data));
}

#[test]
fn file_list_request_with_options() {
    let req = file_list_request(&config(), "/", Some("time"), Some(1), Some(0), Some(10)).unwrap();
    assert_eq!(req.method, HttpMethod::Get);
    assert_eq!(
        req.url,
        "https://pan.baidu.com/rest/2.0/xpan/file?method=list&dir=%2F&openapi=xpansdk&order=time&desc=1&start=0&limit=10&access_token=tok"
    );
    assert_eq!(req.body, RequestBody::Empty);
}

#[test]
fn file_list_request_without_options() {
    let req = file_list_request(&config(), "/", None, None, None, None).unwrap();
    assert_eq!(
        req.url,
        "https://pan.baidu.com/rest/2.0/xpan/file?method=list&dir=%2F&openapi=xpansdk&access_token=tok"
    );
}

#[test]
fn search_and_category_lists() {
    let req = file_search_request(&config(), "report", Some("/docs"), Some(1)).unwrap();
    assert_eq!(
        req.url,
        "https://pan.baidu.com/rest/2.0/xpan/file?method=search&key=report&openapi=xpansdk&dir=%2Fdocs&recursion=1&access_token=tok"
    );
    let img = file_image_list_request(&config()).unwrap();
    assert_eq!(
        img.url,
        "https://pan.baidu.com/rest/2.0/xpan/file?method=imagelist&openapi=xpansdk&access_token=tok"
    );
    let doc = file_doc_list_request(&config()).unwrap();
    assert_eq!(
        doc.url,
        "https://pan.baidu.com/rest/2.0/xpan/file?method=doclist&openapi=xpansdk&access_token=tok"
    );
}

#[test]
fn create_dir_form() {
    let req = create_dir_request(&config(), "/new folder").unwrap();
    assert_eq!(
        req.url,
        "https://pan.baidu.com/rest/2.0/xpan/file?method=create&openapi=xpansdk&access_token=tok"
    );
    match req.body {
        RequestBody::Form(f) => assert_eq!(f, "path=%2Fnew%20folder&isdir=1&rtype=0"),
        other => panic!("expected a form body, got {:?}", other),
    }
}

#[test]
fn delete_form_carries_filelist() {
    let req = delete_files_request(&config(), &vec!["/a".to_string()]).unwrap();
    assert_eq!(
        req.url,
        "https://pan.baidu.com/rest/2.0/xpan/file?method=filemanager&opera=delete&openapi=xpansdk&access_token=tok"
    );
    match req.body {
        RequestBody::Form(f) => {
            assert_eq!(f, "async=0&filelist=%5B%7B%22path%22%3A%22%2Fa%22%7D%5D");
            // The encoded filelist decodes back to the document.
            let decoded = urlencoding::decode(f.split("filelist=").nth(1).unwrap()).unwrap();
            let v: serde_json::Value = serde_json::from_str(&decoded).unwrap();
            assert_eq!(v[0]["path"], "/a");
        }
        other => panic!("expected a form body, got {:?}", other),
    }
}

#[test]
fn move_and_copy_forms() {
    let from = vec!["/a".to_string()];
    let to = vec!["/b".to_string()];
    let mv = move_files_request(&config(), &from, &to).unwrap();
    match mv.body {
        RequestBody::Form(f) => {
            let decoded = urlencoding::decode(f.split("filelist=").nth(1).unwrap()).unwrap();
            assert_eq!(decoded, "[{\"dest\":\"/b\",\"newname\":\"/b\",\"path\":\"/a\"}]");
        }
        other => panic!("expected a form body, got {:?}", other),
    }
    let cp = copy_files_request(&config(), &from, &to).unwrap();
    assert!(cp.url.contains("opera=copy"));
}

#[test]
fn move_rejects_mismatched_lists() {
    let from = vec!["/a".to_string(), "/b".to_string()];
    let to = vec!["/c".to_string()];
    match move_files_request(&config(), &from, &to) {
        Err(Error::ParamError(m)) => {
            assert_eq!(m, "from_paths and to_paths differ in length");
        }
        other => panic!("expected a parameter error, got {:?}", other),
    }
    assert!(matches!(copy_files_request(&config(), &to, &from), Err(Error::ParamError(_))));
}

#[test]
fn rename_form() {
    let req = rename_file_request(&config(), "/a/old.txt", "new.txt").unwrap();
    match req.body {
        RequestBody::Form(f) => {
            let decoded = urlencoding::decode(f.split("filelist=").nth(1).unwrap()).unwrap();
            assert_eq!(decoded, "[{\"newname\":\"new.txt\",\"path\":\"/a/old.txt\"}]");
        }
        other => panic!("expected a form body, got {:?}", other),
    }
}

#[test]
fn multimedia_requests() {
    let all = file_list_all_request(&config(), "/apps", 1, None, Some(1000)).unwrap();
    assert_eq!(
        all.url,
        "https://pan.baidu.com/rest/2.0/xpan/multimedia?method=listall&path=%2Fapps&recursion=1&openapi=xpansdk&limit=1000&access_token=tok"
    );
    let metas = file_metas_request(&config(), "[123456]", Some(1), None, None, None).unwrap();
    assert_eq!(
        metas.url,
        "https://pan.baidu.com/rest/2.0/xpan/multimedia?method=filemetas&fsids=%5B123456%5D&openapi=xpansdk&dlink=1&access_token=tok"
    );
}

#[test]
fn user_and_quota_requests() {
    let u = get_user_info_request(&config()).unwrap();
    assert_eq!(
        u.url,
        "https://pan.baidu.com/rest/2.0/xpan/nas?method=uinfo&openapi=xpansdk&access_token=tok"
    );
    let q = get_quota_request(&config()).unwrap();
    assert_eq!(
        q.url,
        "https://pan.baidu.com/api/quota?checkfree=1&checkexpire=1&openapi=xpansdk&access_token=tok"
    );
}

#[test]
fn oauth_requests_carry_no_access_token() {
    let r = oauth_token_code2token_request("c", "id", "secret", "https://cb/").unwrap();
    assert_eq!(
        r.url,
        "https://openapi.baidu.com/oauth/2.0/token?grant_type=authorization_code&code=c&client_id=id&client_secret=secret&redirect_uri=https%3A%2F%2Fcb%2F&openapi=xpansdk"
    );
    let d = oauth_token_device_code_request("id", "basic,netdisk").unwrap();
    assert_eq!(
        d.url,
        "https://openapi.baidu.com/oauth/2.0/device/code?response_type=device_code&client_id=id&scope=basic%2Cnetdisk&openapi=xpansdk"
    );
    let t = oauth_token_device_token_request("dev", "id", "secret").unwrap();
    assert!(t.url.contains("grant_type=device_token&code=dev"));
    let f = oauth_token_refresh_request("rt", "id", "secret").unwrap();
    assert!(f.url.contains("grant_type=refresh_token&refresh_token=rt"));
}

#[test]
fn config_builders_set_fields() {
    let c = Config::new("t")
        .with_timeout(30)
        .with_user_agent("ua/1.0")
        .with_debug(true);
    assert_eq!(c.access_token, "t");
    assert_eq!(c.timeout, 30);
    assert_eq!(c.user_agent, "ua/1.0");
    assert!(c.debug);
    assert_eq!(c.server.pan_url, "https://pan.baidu.com");
    assert_eq!(c.server.pcs_url, "https://d.pcs.baidu.com");
    assert_eq!(c.server.openapi_url, "https://openapi.baidu.com");

    let custom = ServerConfig {
        pcs_url: "https://pcs.example".to_string(),
        pan_url: "https://pan.example".to_string(),
        openapi_url: "https://auth.example".to_string(),
    };
    let c2 = Config::new("t").with_server(custom);
    assert_eq!(c2.server.pan_url, "https://pan.example");
}

#[test]
fn default_config_values() {
    let c = Config::new("t");
    assert_eq!(c.timeout, 120);
    assert_eq!(c.user_agent, "bd-sdk-rust/0.1.0");
    assert!(!c.debug);
}
