use baidupan_sdk::models::{FileInfo, FilePrecreateResponse};
use baidupan_sdk::requests::RequestBody;
use baidupan_sdk::upload::{UploadFlow, UploadPhase, UploadStep};
use baidupan_sdk::{Config, Error};

fn config() -> Config {
    Config::new("tok")
}

fn needs_slices(uploadid: &str) -> FilePrecreateResponse {
    FilePrecreateResponse {
        uploadid: uploadid.to_string(),
        return_type: 0,
        block_list: None,
        file_info: None,
    }
}

fn body_text(body: &RequestBody) -> String {
    match body {
        RequestBody::Json(b) => String::from_utf8(b.clone()).unwrap(),
        other => panic!("expected a JSON body, got {:?}", other),
    }
}

#[test]
fn begin_rejects_zero_chunk_size() {
    let data = vec![0u8; 4];
    match UploadFlow::begin("/t", &data, Some(0)) {
        Err(Error::ParamError(m)) => assert_eq!(m, "chunk size must be positive"),
        other => panic!("expected a parameter error, got {:?}", other),
    }
}

#[test]
fn fast_upload_short_circuits() {
    // Discriminator 1 with a populated record: the record is returned and
    // the flow is done without any slice or create call.
    let data = vec![1u8; 8];
    let mut flow = UploadFlow::begin("/t.bin", &data, Some(4)).unwrap();
    let resp = FilePrecreateResponse {
        uploadid: String::new(),
        return_type: 1,
        block_list: None,
        file_info: Some(FileInfo {
            fs_id: Some(42),
            path: Some("/t.bin".to_string()),
            server_filename: Some("t.bin".to_string()),
            size: Some(8),
            isdir: Some(0),
            category: Some(6),
            ctime: Some(111),
            mtime: Some(222),
            md5: Some("abc".to_string()),
            from_type: None,
        }),
    };
    match flow.on_precreate_response(resp) {
        UploadStep::Finished(rec) => {
            assert_eq!(rec.fs_id, 42);
            assert_eq!(rec.path, "/t.bin");
            assert_eq!(rec.server_filename, "t.bin");
            assert_eq!(rec.size, 8);
            assert_eq!(rec.md5.as_deref(), Some("abc"));
            assert_eq!(rec.ctime, 111);
            assert_eq!(rec.mtime, 222);
            assert_eq!(rec.isdir, 0);
            assert_eq!(rec.category, 6);
        }
        other => panic!("expected the finished record, got {:?}", other),
    }
    assert_eq!(flow.phase, UploadPhase::Done);
}

#[test]
fn fast_discriminator_without_record_still_uploads() {
    let data = vec![1u8; 8];
    let mut flow = UploadFlow::begin("/t.bin", &data, Some(4)).unwrap();
    let resp = FilePrecreateResponse {
        uploadid: "sess".to_string(),
        return_type: 1,
        block_list: None,
        file_info: None,
    };
    assert_eq!(flow.on_precreate_response(resp), UploadStep::NextSlice(0));
    assert_eq!(flow.phase, UploadPhase::Uploading);
    assert_eq!(flow.uploadid.as_deref(), Some("sess"));
}

#[test]
fn ten_mib_upload_issues_expected_calls() {
    // A 10 MiB file with the default 4 MiB chunks: one precreate, three
    // slices with indices 0, 1, 2 and lengths 4 MiB, 4 MiB, 2 MiB, one
    // create.
    let data = vec![7u8; 10 * 1024 * 1024];
    let config = config();
    let mut flow = UploadFlow::begin("/big.bin", &data, None).unwrap();

    let mut precreate_calls = 0;
    let mut create_calls = 0;
    let mut slice_indices: Vec<u64> = Vec::new();
    let mut slice_lengths: Vec<usize> = Vec::new();

    let pre = flow.precreate_request(&config).unwrap();
    precreate_calls += 1;
    let pre_body = body_text(&pre.body);

    let mut step = flow.on_precreate_response(needs_slices("sess"));
    loop {
        match step {
            UploadStep::NextSlice(i) => {
                let req = flow.slice_request(&config, &data).unwrap();
                let qs = format!("partseq={}", i);
                assert!(req.url.contains(&qs));
                match req.body {
                    RequestBody::MultipartFile(bytes) => {
                        slice_indices.push(i as u64);
                        slice_lengths.push(bytes.len());
                    }
                    other => panic!("expected a multipart body, got {:?}", other),
                }
                step = flow.on_slice_acknowledged();
            }
            UploadStep::Finalize => break,
            UploadStep::Finished(rec) => panic!("unexpected fast upload: {:?}", rec),
        }
    }
    let create = flow.create_request(&config).unwrap();
    create_calls += 1;
    let create_body = body_text(&create.body);

    assert_eq!(precreate_calls, 1);
    assert_eq!(create_calls, 1);
    assert_eq!(slice_indices, vec![0, 1, 2]);
    assert_eq!(slice_lengths, vec![4194304, 4194304, 2097152]);

    // The serialized digest list is byte-identical in both bodies.
    let arr = serde_json::to_string(&flow.block_list).unwrap();
    let field = format!("\"block_list\":{}", serde_json::to_string(&arr).unwrap());
    assert!(pre_body.contains(&field));
    assert!(create_body.contains(&field));
}

#[test]
fn slice_indices_stay_ascending() {
    let data = vec![3u8; 10];
    let mut flow = UploadFlow::begin("/s.bin", &data, Some(2)).unwrap();
    let mut step = flow.on_precreate_response(needs_slices("sess"));
    let mut seen: Vec<usize> = Vec::new();
    while let UploadStep::NextSlice(i) = step {
        if let Some(last) = seen.last() {
            assert!(i == last + 1, "indices out of order: {} after {}", i, last);
        } else {
            assert_eq!(i, 0);
        }
        seen.push(i);
        step = flow.on_slice_acknowledged();
    }
    assert_eq!(step, UploadStep::Finalize);
    assert_eq!(seen, vec![0, 1, 2, 3, 4]);
}

#[test]
fn retrying_a_slice_resends_identical_bytes() {
    let data = vec![5u8; 6];
    let config = config();
    let mut flow = UploadFlow::begin("/r.bin", &data, Some(4)).unwrap();
    flow.on_precreate_response(needs_slices("sess"));
    let first = flow.slice_request(&config, &data).unwrap();
    let again = flow.slice_request(&config, &data).unwrap();
    assert_eq!(first, again);
}

#[test]
fn empty_file_skips_slices() {
    let data: Vec<u8> = Vec::new();
    let config = config();
    let mut flow = UploadFlow::begin("/empty", &data, None).unwrap();
    let step = flow.on_precreate_response(needs_slices("sess"));
    assert_eq!(step, UploadStep::Finalize);
    assert_eq!(flow.phase, UploadPhase::Finalizing);
    assert!(flow.create_request(&config).is_ok());
}

#[test]
fn digest_list_is_fixed_at_begin() {
    let data = vec![9u8; 6];
    let mut flow = UploadFlow::begin("/d.bin", &data, Some(4)).unwrap();
    let before = flow.block_list.clone();
    let mut step = flow.on_precreate_response(needs_slices("sess"));
    while let UploadStep::NextSlice(_) = step {
        step = flow.on_slice_acknowledged();
    }
    assert_eq!(flow.block_list, before);
}
