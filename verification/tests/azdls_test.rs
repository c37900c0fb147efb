use azdls::{
    AzdlsBuilder, AzdlsConfig, AzdlsWriters, ByteRange, EntryMode, ErrorKind, Header, HttpMethod,
    ListState, OpWrite, StatPlan,
};
use azdls::backend::AzdlsBackend;
use azdls::endpoint::infer_storage_name_from_endpoint;
use azdls::normalize_root;

fn backend() -> AzdlsBackend {
    AzdlsBuilder::new()
        .filesystem("fs")
        .endpoint("https://acc.dfs.core.windows.net")
        .build()
        .unwrap()
}

#[test]
fn test_infer_storage_name_from_endpoint() {
    let endpoint = "https://account.dfs.core.windows.net";
    let storage_name = infer_storage_name_from_endpoint(endpoint);
    assert_eq!(storage_name, Some("account".to_string()));
}

#[test]
fn test_infer_storage_name_from_endpoint_with_trailing_slash() {
    let endpoint = "https://account.dfs.core.windows.net/";
    let storage_name = infer_storage_name_from_endpoint(endpoint);
    assert_eq!(storage_name, Some("account".to_string()));
}

#[test]
fn infer_rejects_unknown_suffix() {
    assert_eq!(infer_storage_name_from_endpoint("https://example.com"), None);
}

#[test]
fn infer_is_case_insensitive_and_scheme_tolerant() {
    assert_eq!(
        infer_storage_name_from_endpoint("http://acc.DFS.Core.Windows.NET"),
        Some("acc".to_string())
    );
    assert_eq!(
        infer_storage_name_from_endpoint("acc.dfs.core.chinacloudapi.cn"),
        Some("acc".to_string())
    );
    assert_eq!(
        infer_storage_name_from_endpoint("https://acc.dfs.core.usgovcloudapi.net///"),
        Some("acc".to_string())
    );
    assert_eq!(infer_storage_name_from_endpoint("nodotshere"), None);
}

#[test]
fn build_without_filesystem_is_config_invalid() {
    let r = AzdlsBuilder::new()
        .endpoint("https://acc.dfs.core.windows.net")
        .build();
    match r {
        Err(e) => {
            assert_eq!(e.kind, ErrorKind::ConfigInvalid);
            assert_eq!(e.message, "filesystem is empty");
            assert_eq!(e.operation, "Builder::build");
        }
        Ok(_) => panic!("build accepted a blank filesystem"),
    }
}

#[test]
fn build_without_endpoint_is_config_invalid() {
    let r = AzdlsBuilder::new().filesystem("fs").build();
    match r {
        Err(e) => {
            assert_eq!(e.kind, ErrorKind::ConfigInvalid);
            assert_eq!(e.message, "endpoint is empty");
        }
        Ok(_) => panic!("build accepted a missing endpoint"),
    }
}

#[test]
fn build_normalizes_root_and_endpoint() {
    let b = AzdlsBuilder::new()
        .filesystem("fs")
        .endpoint("https://acc.dfs.core.windows.net///")
        .root("//data//logs/")
        .build()
        .unwrap();
    let info = b.info();
    assert_eq!(info.scheme, "azdls");
    assert_eq!(info.root, "/data/logs");
    assert_eq!(info.name, "fs");
    assert!(info.native_capability.stat);
    assert!(info.native_capability.read);
    assert!(info.native_capability.write);
    assert!(info.native_capability.write_can_append);
    assert!(info.native_capability.create_dir);
    assert!(info.native_capability.delete);
    assert!(info.native_capability.rename);
    assert!(info.native_capability.list);
}

#[test]
fn normalize_root_cases() {
    assert_eq!(normalize_root(""), "/");
    assert_eq!(normalize_root("/"), "/");
    assert_eq!(normalize_root("abc"), "/abc");
    assert_eq!(normalize_root("/abc/"), "/abc");
    assert_eq!(normalize_root("//a//b///"), "/a/b");
}

#[test]
fn builder_setters_ignore_empty_overrides() {
    let b = AzdlsBuilder::new()
        .account_name("acct")
        .account_name("")
        .tenant_id("")
        .client_id("cid");
    assert_eq!(b.config.account_name.as_deref(), Some("acct"));
    assert_eq!(b.config.tenant_id, None);
    assert_eq!(b.config.client_id.as_deref(), Some("cid"));
}

#[test]
fn stat_root_needs_no_request() {
    let b = backend();
    match b.stat_plan("/") {
        StatPlan::Ready(m) => {
            assert_eq!(m.mode, EntryMode::Dir);
            assert_eq!(m.content_length, 0);
        }
        StatPlan::Fetch(_) => panic!("stat on the root must not issue a request"),
    }
}

#[test]
fn stat_elsewhere_fetches_metadata() {
    let b = backend();
    match b.stat_plan("a/b.txt") {
        StatPlan::Fetch(req) => {
            assert_eq!(req.method, HttpMethod::Head);
            assert_eq!(req.url, "https://acc.dfs.core.windows.net/fs/a/b.txt");
        }
        StatPlan::Ready(_) => panic!("a non-root path needs a round trip"),
    }
}

#[test]
fn stat_response_reads_resource_type_and_headers() {
    let b = backend();
    let headers = vec![
        Header { name: "Content-Length".to_string(), value: "1024".to_string() },
        Header { name: "ETag".to_string(), value: "\"abc\"".to_string() },
        Header { name: "Last-Modified".to_string(), value: "Mon, 01 Jan 2024 00:00:00 GMT".to_string() },
        Header { name: "x-ms-resource-type".to_string(), value: "file".to_string() },
    ];
    let m = b.stat_response(200, &headers, Vec::new()).unwrap();
    assert_eq!(m.mode, EntryMode::File);
    assert_eq!(m.content_length, 1024);
    assert_eq!(m.etag.as_deref(), Some("\"abc\""));
    assert_eq!(m.last_modified.as_deref(), Some("Mon, 01 Jan 2024 00:00:00 GMT"));

    let dir_headers = vec![
        Header { name: "x-ms-resource-type".to_string(), value: "directory".to_string() },
    ];
    let d = b.stat_response(200, &dir_headers, Vec::new()).unwrap();
    assert_eq!(d.mode, EntryMode::Dir);
    assert_eq!(d.content_length, 0);
}

#[test]
fn stat_response_rejects_bad_remote_answers() {
    let b = backend();
    // status outside the success set
    let e = b.stat_response(404, &Vec::new(), b"gone".to_vec()).unwrap_err();
    assert_eq!(e.kind, ErrorKind::RemoteOperationFailed);
    assert_eq!(e.status, Some(404));
    assert_eq!(e.body, b"gone".to_vec());
    // missing resource type
    let e = b.stat_response(200, &Vec::new(), Vec::new()).unwrap_err();
    assert_eq!(e.kind, ErrorKind::Unexpected);
    // unknown resource type
    let headers = vec![
        Header { name: "x-ms-resource-type".to_string(), value: "symlink".to_string() },
    ];
    let e = b.stat_response(200, &headers, Vec::new()).unwrap_err();
    assert_eq!(e.kind, ErrorKind::Unexpected);
    // unparseable size
    let headers = vec![
        Header { name: "content-length".to_string(), value: "99999999999999999999".to_string() },
        Header { name: "x-ms-resource-type".to_string(), value: "file".to_string() },
    ];
    let e = b.stat_response(200, &headers, Vec::new()).unwrap_err();
    assert_eq!(e.kind, ErrorKind::Unexpected);
}

#[test]
fn create_dir_accepts_created_and_ok() {
    let b = backend();
    let req = b.core.create_dir_request("new/dir");
    assert_eq!(req.method, HttpMethod::Put);
    assert_eq!(req.url, "https://acc.dfs.core.windows.net/fs/new/dir?resource=directory");
    assert!(req.body.is_empty());
    assert!(b.create_dir_response(201, Vec::new()).is_ok());
    assert!(b.create_dir_response(200, Vec::new()).is_ok());
    let e = b.create_dir_response(409, b"conflict".to_vec()).unwrap_err();
    assert_eq!(e.kind, ErrorKind::RemoteOperationFailed);
    assert_eq!(e.status, Some(409));
    assert_eq!(e.operation, "create_dir");
}

#[test]
fn delete_not_found_is_success() {
    let b = backend();
    let req = b.core.delete_request("a.txt");
    assert_eq!(req.method, HttpMethod::Delete);
    assert_eq!(req.url, "https://acc.dfs.core.windows.net/fs/a.txt");
    assert!(b.delete_response(200, Vec::new()).is_ok());
    assert!(b.delete_response(404, Vec::new()).is_ok());
    let e = b.delete_response(403, b"denied".to_vec()).unwrap_err();
    assert_eq!(e.kind, ErrorKind::RemoteOperationFailed);
    assert_eq!(e.status, Some(403));
}

#[test]
fn read_accepts_full_and_partial_content() {
    let b = backend();
    let full = b.core.read_request("f.bin", ByteRange { offset: 0, size: None });
    assert_eq!(full.method, HttpMethod::Get);
    assert_eq!(full.range, None);
    let part = b.core.read_request("f.bin", ByteRange { offset: 100, size: Some(50) });
    assert_eq!(part.range.as_deref(), Some("bytes=100-149"));
    let tail = b.core.read_request("f.bin", ByteRange { offset: 5, size: None });
    assert_eq!(tail.range.as_deref(), Some("bytes=5-"));
    assert!(b.read_response(200, Vec::new()).is_ok());
    assert!(b.read_response(206, Vec::new()).is_ok());
    let e = b.read_response(416, Vec::new()).unwrap_err();
    assert_eq!(e.kind, ErrorKind::RemoteOperationFailed);
}

#[test]
fn write_picks_the_writer_variant() {
    let b = backend();
    match b.write("w.txt", OpWrite { append: true }) {
        AzdlsWriters::Two(w) => assert_eq!(w.offset, 0),
        AzdlsWriters::One(_) => panic!("append requested, one-shot returned"),
    }
    match b.write("w.txt", OpWrite { append: false }) {
        AzdlsWriters::One(w) => assert!(w.buf.is_empty()),
        AzdlsWriters::Two(_) => panic!("append not requested, append writer returned"),
    }
}

#[test]
fn one_shot_writer_buffers_and_sends_once() {
    let b = backend();
    match b.write("data.bin", OpWrite { append: false }) {
        AzdlsWriters::One(mut w) => {
            w.write(&vec![1, 2, 3]);
            w.write(&vec![4, 5]);
            let req = w.close();
            assert_eq!(req.method, HttpMethod::Put);
            assert_eq!(req.url, "https://acc.dfs.core.windows.net/fs/data.bin");
            assert_eq!(req.body, vec![1, 2, 3, 4, 5]);
        }
        AzdlsWriters::Two(_) => panic!("expected the one-shot writer"),
    }
}

#[test]
fn append_writer_tracks_offsets_and_flushes() {
    let b = backend();
    match b.write("log.txt", OpWrite { append: true }) {
        AzdlsWriters::Two(mut w) => {
            let first = w.append_request(&vec![9, 9, 9]);
            assert_eq!(first.method, HttpMethod::Patch);
            assert_eq!(
                first.url,
                "https://acc.dfs.core.windows.net/fs/log.txt?action=append&position=0"
            );
            assert_eq!(first.body, vec![9, 9, 9]);
            let second = w.append_request(&vec![7]);
            assert_eq!(
                second.url,
                "https://acc.dfs.core.windows.net/fs/log.txt?action=append&position=3"
            );
            let flush = w.flush_request();
            assert_eq!(
                flush.url,
                "https://acc.dfs.core.windows.net/fs/log.txt?action=flush&position=4"
            );
            assert!(flush.body.is_empty());
        }
        AzdlsWriters::One(_) => panic!("expected the append writer"),
    }
}

#[test]
fn rename_tolerates_parent_conflict() {
    let b = backend();
    let r = b.rename_after_parent("old/a.txt", "new/a.txt", Some((409, Vec::new())));
    let req = r.expect("a conflict on parent creation must not abort the rename");
    assert_eq!(req.method, HttpMethod::Put);
    assert_eq!(req.url, "https://acc.dfs.core.windows.net/fs/new/a.txt");
    assert_eq!(req.rename_source.as_deref(), Some("/fs/old/a.txt"));
}

#[test]
fn rename_aborts_on_other_parent_failures() {
    let b = backend();
    let r = b.rename_after_parent("old/a.txt", "new/a.txt", Some((500, b"boom".to_vec())));
    let e = r.unwrap_err();
    assert_eq!(e.kind, ErrorKind::RemoteOperationFailed);
    assert_eq!(e.status, Some(500));
    // with no parent request at all, the rename proceeds
    assert!(b.rename_after_parent("a", "b", None).is_ok());
}

#[test]
fn rename_succeeds_only_on_created() {
    let b = backend();
    assert!(b.rename_response(201, Vec::new()).is_ok());
    for status in [200u16, 202, 204, 404, 409, 500] {
        let e = b.rename_response(status, Vec::new()).unwrap_err();
        assert_eq!(e.kind, ErrorKind::RemoteOperationFailed);
        assert_eq!(e.status, Some(status));
        assert_eq!(e.operation, "rename");
    }
}

#[test]
fn ensure_parent_request_skips_the_root() {
    let b = backend();
    assert!(b.core.ensure_parent_request("top.txt").is_none());
    let req = b.core.ensure_parent_request("a/b/c.txt").unwrap();
    assert_eq!(req.method, HttpMethod::Put);
    assert_eq!(req.url, "https://acc.dfs.core.windows.net/fs/a/b?resource=directory");
    let req = b.core.ensure_parent_request("a/b/").unwrap();
    assert_eq!(req.url, "https://acc.dfs.core.windows.net/fs/a?resource=directory");
}

#[test]
fn lister_caps_pages_and_forwards_the_cursor() {
    let b = backend();
    let mut l = b.list("dir/", Some(5));
    let first = l.next_request().unwrap();
    assert_eq!(first.method, HttpMethod::Get);
    assert_eq!(
        first.url,
        "https://acc.dfs.core.windows.net/fs?resource=filesystem&recursive=false&directory=dir/&maxResults=5"
    );
    l.record_continuation(Some("CURSOR==".to_string()));
    assert!(matches!(l.state, ListState::Token(_)));
    let second = l.next_request().unwrap();
    assert_eq!(
        second.url,
        "https://acc.dfs.core.windows.net/fs?resource=filesystem&recursive=false&directory=dir/&maxResults=5&continuation=CURSOR=="
    );
    l.record_continuation(Some(String::new()));
    assert!(l.next_request().is_none());

    let mut unl = b.list("d", None);
    let req = unl.next_request().unwrap();
    assert_eq!(
        req.url,
        "https://acc.dfs.core.windows.net/fs?resource=filesystem&recursive=false&directory=d"
    );
    unl.record_continuation(None);
    assert!(unl.next_request().is_none());
}

#[test]
fn requests_honor_a_non_trivial_root() {
    let b = AzdlsBuilder::new()
        .filesystem("fs")
        .endpoint("https://acc.dfs.core.windows.net")
        .root("/tenant/data")
        .build()
        .unwrap();
    let req = b.core.delete_request("x/y.txt");
    assert_eq!(req.url, "https://acc.dfs.core.windows.net/fs/tenant/data/x/y.txt");
    let rn = b.core.rename_request("a.txt", "b.txt");
    assert_eq!(rn.rename_source.as_deref(), Some("/fs/tenant/data/a.txt"));
    assert_eq!(rn.url, "https://acc.dfs.core.windows.net/fs/tenant/data/b.txt");
    let l = b.list("sub/", None);
    let page = l.next_request().unwrap();
    assert_eq!(
        page.url,
        "https://acc.dfs.core.windows.net/fs?resource=filesystem&recursive=false&directory=tenant/data/sub/"
    );
}

#[test]
fn stat_response_accepts_the_largest_size() {
    let b = backend();
    let headers = vec![
        Header { name: "content-length".to_string(), value: "18446744073709551615".to_string() },
        Header { name: "x-ms-resource-type".to_string(), value: "file".to_string() },
    ];
    let m = b.stat_response(200, &headers, Vec::new()).unwrap();
    assert_eq!(m.content_length, u64::MAX);
}

#[test]
fn read_range_at_the_end_of_the_address_space() {
    let b = backend();
    let r = b.core.read_request(
        "f",
        ByteRange { offset: u64::MAX - 9, size: Some(10) },
    );
    assert_eq!(
        r.range.as_deref(),
        Some("bytes=18446744073709551606-18446744073709551615")
    );
}

#[test]
fn errors_carry_the_backend_identity() {
    let b = backend();
    let e = b.delete_response(500, Vec::new()).unwrap_err();
    assert_eq!(e.service, "azdls");
    assert_eq!(e.operation, "delete");
}

#[test]
fn built_backends_validate() {
    let b = backend();
    assert!(b.core.validate());
}

#[test]
fn build_with_blank_endpoint_is_config_invalid() {
    let mut config = AzdlsConfig::new();
    config.filesystem = "fs".to_string();
    config.endpoint = Some(String::new());
    match config.into_builder().build() {
        Err(e) => {
            assert_eq!(e.kind, ErrorKind::ConfigInvalid);
            assert_eq!(e.message, "endpoint is empty");
            assert_eq!(e.operation, "Builder::build");
        }
        Ok(_) => panic!("build accepted a blank endpoint"),
    }
}

#[test]
fn build_with_all_slash_endpoint_is_config_invalid() {
    let mut config = AzdlsConfig::new();
    config.filesystem = "fs".to_string();
    config.endpoint = Some("///".to_string());
    match config.into_builder().build() {
        Err(e) => {
            assert_eq!(e.kind, ErrorKind::ConfigInvalid);
            assert_eq!(e.message, "endpoint is empty");
        }
        Ok(_) => panic!("build accepted an endpoint that trims to nothing"),
    }
}
