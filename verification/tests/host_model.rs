use proxy_wasm::host::HostState;
use proxy_wasm::traits::{Context, HttpContext, RootContext, StreamContext};
use proxy_wasm::types::{
    BufferType, FilterDataStatus, FilterHeadersStatus, FilterStatus, FilterTrailersStatus,
    MapType, Status,
};

struct NopRoot;

impl Context for NopRoot {}

impl RootContext for NopRoot {}

struct NopStream;

impl Context for NopStream {}

impl StreamContext for NopStream {}

struct NopHttp;

impl Context for NopHttp {}

impl HttpContext for NopHttp {}

fn fresh_host_with_root() -> (HostState, u32) {
    let mut host = HostState::new("vm".to_string());
    let id = host.create_root_context().unwrap();
    (host, id)
}

#[test]
fn cas_success_and_stale_mismatch() {
    let (mut host, root) = fresh_host_with_root();
    host.begin_callback(root).unwrap();
    let key = "k".to_string();
    assert_eq!(host.set_shared_data(&key, Some(b"v1".as_slice()), None), Ok(()));
    let (v, ver) = host.get_shared_data(&key).unwrap();
    assert_eq!(v, Some(b"v1".to_vec()));
    assert_eq!(ver, Some(1));
    assert_eq!(host.set_shared_data(&key, Some(b"v2".as_slice()), Some(1)), Ok(()));
    let (v, ver) = host.get_shared_data(&key).unwrap();
    assert_eq!(v, Some(b"v2".to_vec()));
    assert_eq!(ver, Some(2));
    assert_eq!(
        host.set_shared_data(&key, Some(b"v3".as_slice()), Some(1)),
        Err(Status::CasMismatch)
    );
    let (v, ver) = host.get_shared_data(&key).unwrap();
    assert_eq!(v, Some(b"v2".to_vec()));
    assert_eq!(ver, Some(2));
}

#[test]
fn shared_data_absent_key_reads_twice_absent() {
    let (mut host, root) = fresh_host_with_root();
    host.begin_callback(root).unwrap();
    let (v, ver) = host.get_shared_data(&"missing".to_string()).unwrap();
    assert_eq!(v, None);
    assert_eq!(ver, None);
    assert_eq!(
        host.set_shared_data(&"missing".to_string(), Some(b"x".as_slice()), Some(7)),
        Err(Status::CasMismatch)
    );
}

#[test]
fn queue_fifo_and_empty_is_not_error() {
    let (mut host, root) = fresh_host_with_root();
    host.begin_callback(root).unwrap();
    let q = host.register_shared_queue(&"jobs".to_string()).unwrap();
    assert_eq!(host.enqueue_shared_queue(q, Some(b"v1".as_slice())), Ok(()));
    assert_eq!(host.enqueue_shared_queue(q, Some(b"v2".as_slice())), Ok(()));
    assert_eq!(host.dequeue_shared_queue(q), Ok(Some(b"v1".to_vec())));
    assert_eq!(host.dequeue_shared_queue(q), Ok(Some(b"v2".to_vec())));
    assert_eq!(host.dequeue_shared_queue(q), Ok(None));
    assert_eq!(host.enqueue_shared_queue(9999, Some(b"x".as_slice())), Err(Status::NotFound));
    assert_eq!(host.dequeue_shared_queue(9999), Err(Status::NotFound));
}

#[test]
fn register_rebinds_and_resolve_finds() {
    let (mut host, root) = fresh_host_with_root();
    host.begin_callback(root).unwrap();
    let q1 = host.register_shared_queue(&"jobs".to_string()).unwrap();
    let q2 = host.register_shared_queue(&"jobs".to_string()).unwrap();
    assert_eq!(q1, q2);
    let q3 = host.register_shared_queue(&"other".to_string()).unwrap();
    assert_ne!(q1, q3);
    assert_eq!(
        host.resolve_shared_queue(&"vm".to_string(), &"jobs".to_string()),
        Ok(Some(q1))
    );
    assert_eq!(
        host.resolve_shared_queue(&"vm".to_string(), &"nope".to_string()),
        Ok(None)
    );
    assert_eq!(
        host.resolve_shared_queue(&"othervm".to_string(), &"jobs".to_string()),
        Ok(None)
    );
}

#[test]
fn tokens_unique_and_completion_single_use() {
    let (mut host, root) = fresh_host_with_root();
    host.begin_callback(root).unwrap();
    let t1 = host.dispatch_call("backend", 5000).unwrap();
    let t2 = host.dispatch_call("backend", 5000).unwrap();
    let t3 = host.dispatch_call("other", 1000).unwrap();
    assert_ne!(t1, t2);
    assert_ne!(t1, t3);
    assert_ne!(t2, t3);
    host.end_callback();
    let owner = host.complete_call(t1, vec![], vec![], vec![]).unwrap();
    assert_eq!(owner, root);
    assert_eq!(
        host.complete_call(t1, vec![], vec![], vec![]),
        Err(Status::NotFound)
    );
    assert_eq!(host.complete_call(t2, vec![], vec![], vec![]), Ok(root));
}

#[test]
fn dispatch_rejects_malformed_target() {
    let (mut host, root) = fresh_host_with_root();
    host.begin_callback(root).unwrap();
    assert_eq!(host.dispatch_call("", 5000), Err(Status::BadArgument));
}

#[test]
fn capability_gated_outside_callbacks_and_after_terminal() {
    let (mut host, root) = fresh_host_with_root();
    let key = "k".to_string();
    assert_eq!(host.set_shared_data(&key, Some(b"v".as_slice()), None), Err(Status::BadArgument));
    assert!(host.get_shared_data(&key).is_err());
    assert!(host.time().is_err());
    assert_eq!(host.dispatch_call("backend", 1), Err(Status::BadArgument));
    host.begin_callback(root).unwrap();
    assert_eq!(host.set_shared_data(&key, Some(b"v".as_slice()), None), Ok(()));
    host.end_callback();
    host.finish_context(root).unwrap();
    assert!(host.begin_callback(root).is_err());
    assert_eq!(host.set_shared_data(&key, Some(b"w".as_slice()), None), Err(Status::BadArgument));
}

#[test]
fn root_is_created_first_and_only_once() {
    let mut host = HostState::new("vm".to_string());
    assert_eq!(host.create_stream_context(), Err(Status::BadArgument));
    assert_eq!(host.create_http_context(), Err(Status::BadArgument));
    let root = host.create_root_context().unwrap();
    assert_eq!(host.create_root_context(), Err(Status::BadArgument));
    let s = host.create_stream_context().unwrap();
    let h = host.create_http_context().unwrap();
    assert_ne!(root, s);
    assert_ne!(s, h);
}

#[test]
fn callbacks_are_serialized_per_instance() {
    let (mut host, root) = fresh_host_with_root();
    let other = host.create_http_context().unwrap();
    host.begin_callback(root).unwrap();
    assert!(host.begin_callback(other).is_err());
    host.end_callback();
    assert!(host.begin_callback(other).is_ok());
}

#[test]
fn property_set_get_and_remove() {
    let (mut host, root) = fresh_host_with_root();
    host.begin_callback(root).unwrap();
    let path = vec!["node".to_string(), "id".to_string()];
    assert_eq!(host.get_property(&path), Ok(None));
    assert_eq!(host.set_property(&path, Some(b"a".as_slice())), Ok(()));
    assert_eq!(host.get_property(&path), Ok(Some(b"a".to_vec())));
    assert_eq!(host.set_property(&path, Some(b"bb".as_slice())), Ok(()));
    assert_eq!(host.get_property(&path), Ok(Some(b"bb".to_vec())));
    assert_eq!(host.set_property(&path, None), Ok(()));
    assert_eq!(host.get_property(&path), Ok(None));
    let other = vec!["node".to_string()];
    assert_eq!(host.get_property(&other), Ok(None));
}

#[test]
fn buffer_windows_clip_and_reject() {
    let (mut host, root) = fresh_host_with_root();
    host.append_buffer(BufferType::CallData, b"abcdef").unwrap();
    host.begin_callback(root).unwrap();
    assert_eq!(
        host.get_buffer(BufferType::CallData, 0, 100),
        Ok(Some(b"abcdef".to_vec()))
    );
    assert_eq!(
        host.get_buffer(BufferType::CallData, 2, 3),
        Ok(Some(b"cde".to_vec()))
    );
    assert_eq!(host.get_buffer(BufferType::CallData, 6, 1), Ok(Some(b"".to_vec())));
    assert_eq!(host.get_buffer(BufferType::CallData, 7, 1), Ok(None));
    assert_eq!(
        host.get_buffer(BufferType::GrpcReceiveBuffer, 0, 1),
        Err(Status::Unimplemented)
    );
    assert_eq!(
        host.set_buffer(BufferType::CallData, 1, 2, b"XY"),
        Ok(())
    );
    assert_eq!(
        host.get_buffer(BufferType::CallData, 0, 100),
        Ok(Some(b"aXYdef".to_vec()))
    );
    assert_eq!(
        host.set_buffer(BufferType::CallData, 1, 3, b"XY"),
        Err(Status::BadArgument)
    );
    assert_eq!(
        host.set_buffer(BufferType::CallData, 5, 2, b"XY"),
        Err(Status::BadArgument)
    );
}

#[test]
fn map_set_add_and_first_match() {
    let (mut host, root) = fresh_host_with_root();
    host.begin_callback(root).unwrap();
    let entries = vec![
        ("a".to_string(), "1".to_string()),
        ("b".to_string(), "2".to_string()),
    ];
    host.set_map(MapType::HttpRequestHeaders, entries.clone()).unwrap();
    assert_eq!(host.get_map(MapType::HttpRequestHeaders), Ok(entries));
    host.add_map_value(
        MapType::HttpRequestHeaders,
        &"a".to_string(),
        &"3".to_string(),
    )
    .unwrap();
    assert_eq!(
        host.get_map_value(MapType::HttpRequestHeaders, &"a".to_string()),
        Ok(Some("1".to_string()))
    );
    host.set_map_value(MapType::HttpRequestHeaders, &"a".to_string(), Some("9"))
        .unwrap();
    assert_eq!(
        host.get_map(MapType::HttpRequestHeaders),
        Ok(vec![
            ("b".to_string(), "2".to_string()),
            ("a".to_string(), "9".to_string()),
        ])
    );
    host.set_map_value(MapType::HttpRequestHeaders, &"b".to_string(), None)
        .unwrap();
    assert_eq!(
        host.get_map_value(MapType::HttpRequestHeaders, &"b".to_string()),
        Ok(None)
    );
    assert_eq!(
        host.get_map(MapType::GrpcReceiveInitialMetadata),
        Err(Status::Unimplemented)
    );
}

#[test]
fn status_defaults_for_every_callback() {
    let mut host = HostState::new("vm".to_string());
    let _ = host.create_root_context().unwrap();
    let mut root = NopRoot;
    let mut stream = NopStream;
    let mut http = NopHttp;
    assert!(root.on_vm_start(&mut host, 0));
    assert!(root.on_configure(&mut host, 0));
    assert!(Context::on_done(&mut root, &mut host));
    root.on_tick(&mut host);
    root.on_queue_ready(&mut host, 1);
    RootContext::on_log(&mut root, &mut host);
    assert_eq!(stream.on_new_connection(&mut host), FilterStatus::Continue);
    assert_eq!(
        stream.on_downstream_data(&mut host, 10, false),
        FilterStatus::Continue
    );
    assert_eq!(
        stream.on_upstream_data(&mut host, 10, true),
        FilterStatus::Continue
    );
    StreamContext::on_log(&mut stream, &mut host);
    assert_eq!(
        http.on_http_request_headers(&mut host, 2),
        FilterHeadersStatus::Continue
    );
    assert_eq!(
        http.on_http_request_body(&mut host, 5, false),
        FilterDataStatus::Continue
    );
    assert_eq!(
        http.on_http_request_trailers(&mut host, 0),
        FilterTrailersStatus::Continue
    );
    assert_eq!(
        http.on_http_response_headers(&mut host, 2),
        FilterHeadersStatus::Continue
    );
    assert_eq!(
        http.on_http_response_body(&mut host, 5, true),
        FilterDataStatus::Continue
    );
    assert_eq!(
        http.on_http_response_trailers(&mut host, 0),
        FilterTrailersStatus::Continue
    );
    HttpContext::on_log(&mut http, &mut host);
}

#[test]
fn clock_is_readable_during_callbacks() {
    let (mut host, root) = fresh_host_with_root();
    host.set_time(12345);
    assert!(host.time().is_err());
    host.begin_callback(root).unwrap();
    assert_eq!(host.time(), Ok(12345));
    let nop = NopRoot;
    assert_eq!(nop.get_current_time(&host), 12345);
}

#[test]
fn tick_period_is_replaced_not_accumulated() {
    let (mut host, root) = fresh_host_with_root();
    host.begin_callback(root).unwrap();
    host.set_tick_period(1000).unwrap();
    assert_eq!(host.context_record(root).unwrap().tick_ms, 1000);
    host.set_tick_period(250).unwrap();
    assert_eq!(host.context_record(root).unwrap().tick_ms, 250);
    host.set_tick_period(0).unwrap();
    assert_eq!(host.context_record(root).unwrap().tick_ms, 0);
}

#[test]
fn token_exhaustion_is_reported_as_internal_failure() {
    let (mut host, root) = fresh_host_with_root();
    host.begin_callback(root).unwrap();
    host.next_token = u32::MAX;
    assert_eq!(host.dispatch_call("backend", 1), Err(Status::InternalFailure));
}

#[test]
fn done_signal_marks_the_context() {
    let (mut host, root) = fresh_host_with_root();
    assert!(!host.context_record(root).unwrap().done_requested);
    host.begin_callback(root).unwrap();
    let nop = NopRoot;
    nop.done(&mut host);
    assert!(host.context_record(root).unwrap().done_requested);
}

#[test]
fn resume_without_pause_is_a_no_op() {
    let (mut host, _root) = fresh_host_with_root();
    let id = host.create_http_context().unwrap();
    host.begin_callback(id).unwrap();
    assert_eq!(host.resume_http_request(), Ok(()));
    assert_eq!(host.resume_http_response(), Ok(()));
    let rec = host.context_record(id).unwrap();
    assert_eq!(rec.req_flow, proxy_wasm::types::FlowState::Open);
    assert_eq!(rec.resp_flow, proxy_wasm::types::FlowState::Open);
}

#[test]
fn stream_data_overwrite_through_the_trait() {
    let (mut host, _root) = fresh_host_with_root();
    let id = host.create_stream_context().unwrap();
    host.append_buffer(BufferType::DownstreamData, b"hello world").unwrap();
    host.begin_callback(id).unwrap();
    let nop = NopStream;
    nop.set_downstream_data(&mut host, 6, 5, b"rusty");
    assert_eq!(
        nop.get_downstream_data(&host, 0, 100),
        Some(b"hello rusty".to_vec())
    );
    assert_eq!(nop.get_upstream_data(&host, 0, 100), Some(b"".to_vec()));
}

#[test]
fn header_and_trailer_mutation_through_the_trait() {
    let (mut host, _root) = fresh_host_with_root();
    let id = host.create_http_context().unwrap();
    host.begin_callback(id).unwrap();
    let nop = NopHttp;
    nop.set_http_request_headers(&mut host, vec![("a", "1"), ("b", "2")]);
    nop.add_http_request_header(&mut host, "a", "3");
    assert_eq!(nop.get_http_request_header(&host, "a"), Some("1".to_string()));
    nop.set_http_request_header(&mut host, "a", Some("9"));
    assert_eq!(nop.get_http_request_header(&host, "a"), Some("9".to_string()));
    assert_eq!(
        nop.get_http_request_headers(&host),
        vec![
            ("b".to_string(), "2".to_string()),
            ("a".to_string(), "9".to_string()),
        ]
    );
    nop.set_http_request_header(&mut host, "b", None);
    assert_eq!(nop.get_http_request_header(&host, "b"), None);
    nop.add_http_response_trailer(&mut host, "t", "x");
    nop.add_http_response_trailer(&mut host, "t", "y");
    assert_eq!(
        nop.get_http_response_trailers(&host),
        vec![
            ("t".to_string(), "x".to_string()),
            ("t".to_string(), "y".to_string()),
        ]
    );
    assert_eq!(nop.get_http_response_trailer(&host, "t"), Some("x".to_string()));
    nop.clear_http_route_cache(&mut host);
    assert!(host.route_cache_cleared);
}

#[test]
fn shared_queue_roundtrip_through_the_trait() {
    let (mut host, root) = fresh_host_with_root();
    host.begin_callback(root).unwrap();
    let nop = NopRoot;
    let q = nop.register_shared_queue(&mut host, "work");
    assert_eq!(nop.register_shared_queue(&mut host, "work"), q);
    assert_eq!(nop.resolve_shared_queue(&host, "vm", "work"), Some(q));
    assert_eq!(
        nop.enqueue_shared_queue(&mut host, q, Some(b"item".as_slice())),
        Ok(())
    );
    assert_eq!(
        nop.dequeue_shared_queue(&mut host, q),
        Ok(Some(b"item".to_vec()))
    );
    assert_eq!(nop.dequeue_shared_queue(&mut host, q), Ok(None));
    let (val, ver) = nop.get_shared_data(&host, "nothing");
    assert_eq!(val, None);
    assert_eq!(ver, None);
    assert_eq!(
        nop.set_shared_data(&mut host, "greeting", Some(b"hi".as_slice()), None),
        Ok(())
    );
    let (val, ver) = nop.get_shared_data(&host, "greeting");
    assert_eq!(val, Some(b"hi".to_vec()));
    assert_eq!(ver, Some(1));
    nop.set_property(&mut host, vec!["plugin", "name"], Some(b"demo".as_slice()));
    assert_eq!(
        nop.get_property(&host, vec!["plugin", "name"]),
        Some(b"demo".to_vec())
    );
    nop.set_property(&mut host, vec!["plugin", "name"], None);
    assert_eq!(nop.get_property(&host, vec!["plugin", "name"]), None);
}
