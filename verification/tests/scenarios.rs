use proxy_wasm::dispatch::{
    deliver_configure, deliver_done, deliver_downstream_data, deliver_http_call_response,
    deliver_http_log, deliver_http_request_body, deliver_http_request_headers,
    deliver_http_response_headers, deliver_stream_close, deliver_stream_log, deliver_tick,
    deliver_vm_start,
};
use proxy_wasm::host::HostState;
use proxy_wasm::traits::{Context, HttpContext, RootContext, StreamContext};
use proxy_wasm::types::{
    ChildContext, ContextRole, FilterDataStatus, FilterHeadersStatus, FilterStatus, PeerType,
};

struct CfgPlugin {
    seen: Option<Vec<u8>>,
    started: bool,
}

impl Context for CfgPlugin {}

impl RootContext for CfgPlugin {
    fn on_vm_start(&mut self, _host: &mut HostState, _vm_configuration_size: usize) -> bool {
        self.started = true;
        true
    }

    fn on_configure(&mut self, host: &mut HostState, _plugin_configuration_size: usize) -> bool {
        self.seen = self.get_configuration(host);
        true
    }
}

#[test]
fn configure_reads_exact_config_payload() {
    let mut host = HostState::new("vm".to_string());
    let root = host.create_root_context().unwrap();
    let mut plugin = CfgPlugin { seen: None, started: false };
    assert_eq!(
        deliver_vm_start(&mut host, &mut plugin, root, b"boot".to_vec()),
        Some(true)
    );
    assert!(plugin.started);
    assert_eq!(
        deliver_configure(&mut host, &mut plugin, root, b"max=5".to_vec()),
        Some(true)
    );
    assert_eq!(plugin.seen, Some(b"max=5".to_vec()));
    assert!(host.get_configuration().is_err());
    assert!(deliver_tick(&mut host, &mut plugin, root));
}

struct PausePlugin {
    request_header_calls: u32,
    response_header_calls: u32,
    body_calls: u32,
}

impl Context for PausePlugin {}

impl HttpContext for PausePlugin {
    fn on_http_request_headers(
        &mut self,
        _host: &mut HostState,
        _num_headers: usize,
    ) -> FilterHeadersStatus {
        self.request_header_calls += 1;
        FilterHeadersStatus::StopIteration
    }

    fn on_http_response_headers(
        &mut self,
        _host: &mut HostState,
        _num_headers: usize,
    ) -> FilterHeadersStatus {
        self.response_header_calls += 1;
        FilterHeadersStatus::Continue
    }

    fn on_http_request_body(
        &mut self,
        _host: &mut HostState,
        _body_size: usize,
        _end_of_stream: bool,
    ) -> FilterDataStatus {
        self.body_calls += 1;
        FilterDataStatus::Continue
    }
}

#[test]
fn stop_iteration_blocks_until_resumed() {
    let mut host = HostState::new("vm".to_string());
    let _root = host.create_root_context().unwrap();
    let id = host.create_http_context().unwrap();
    let mut plugin = PausePlugin {
        request_header_calls: 0,
        response_header_calls: 0,
        body_calls: 0,
    };
    let headers = vec![(":path".to_string(), "/".to_string())];
    assert_eq!(
        deliver_http_request_headers(&mut host, &mut plugin, id, headers),
        Some(FilterHeadersStatus::StopIteration)
    );
    assert_eq!(plugin.request_header_calls, 1);
    assert_eq!(
        deliver_http_response_headers(&mut host, &mut plugin, id, vec![]),
        None
    );
    assert_eq!(plugin.response_header_calls, 0);
    assert_eq!(
        deliver_http_request_body(&mut host, &mut plugin, id, b"x".to_vec(), false),
        None
    );
    assert_eq!(plugin.body_calls, 0);
    host.begin_callback(id).unwrap();
    plugin.resume_http_request(&mut host);
    host.end_callback();
    assert_eq!(
        deliver_http_request_body(&mut host, &mut plugin, id, b"x".to_vec(), true),
        Some(FilterDataStatus::Continue)
    );
    assert_eq!(plugin.body_calls, 1);
    assert_eq!(
        deliver_http_response_headers(&mut host, &mut plugin, id, vec![]),
        Some(FilterHeadersStatus::Continue)
    );
    assert_eq!(plugin.response_header_calls, 1);
}

struct CallPlugin {
    fired: u32,
    token_seen: Option<u32>,
    headers_seen: Option<Vec<(String, String)>>,
    body_seen: Option<Option<Vec<u8>>>,
}

impl Context for CallPlugin {
    fn on_http_call_response(
        &mut self,
        host: &mut HostState,
        token_id: u32,
        _num_headers: usize,
        body_size: usize,
        _num_trailers: usize,
    ) {
        self.fired += 1;
        self.token_seen = Some(token_id);
        self.headers_seen = Some(self.get_http_call_response_headers(host));
        self.body_seen = Some(self.get_http_call_response_body(host, 0, body_size));
    }
}

impl HttpContext for CallPlugin {}

#[test]
fn call_response_matches_dispatch_and_only_its_context() {
    let mut host = HostState::new("vm".to_string());
    let _root = host.create_root_context().unwrap();
    let a = host.create_http_context().unwrap();
    let b = host.create_http_context().unwrap();
    let mut plugin_a = CallPlugin { fired: 0, token_seen: None, headers_seen: None, body_seen: None };
    let mut plugin_b = CallPlugin { fired: 0, token_seen: None, headers_seen: None, body_seen: None };
    host.begin_callback(a).unwrap();
    let token = plugin_a
        .dispatch_http_call(
            &mut host,
            "backend",
            vec![("x", "1")],
            None,
            vec![],
            5000,
        )
        .unwrap();
    host.end_callback();
    let staged = vec![
        ("status".to_string(), "200".to_string()),
        ("server".to_string(), "mock".to_string()),
    ];
    assert!(deliver_http_call_response(
        &mut host,
        &mut plugin_b,
        b,
        token,
        staged.clone(),
        b"0123456789".to_vec(),
        vec![],
    )
    .is_err());
    assert_eq!(plugin_b.fired, 0);
    assert!(deliver_http_call_response(
        &mut host,
        &mut plugin_a,
        a,
        token,
        staged.clone(),
        b"0123456789".to_vec(),
        vec![],
    )
    .is_ok());
    assert_eq!(plugin_a.fired, 1);
    assert_eq!(plugin_a.token_seen, Some(token));
    assert_eq!(plugin_a.headers_seen, Some(staged.clone()));
    assert_eq!(plugin_a.body_seen, Some(Some(b"0123456789".to_vec())));
    assert!(deliver_http_call_response(
        &mut host,
        &mut plugin_a,
        a,
        token,
        staged,
        vec![],
        vec![],
    )
    .is_err());
    assert_eq!(plugin_a.fired, 1);
}

struct StreamPlugin {
    total: Option<Option<Vec<u8>>>,
}

impl Context for StreamPlugin {}

impl StreamContext for StreamPlugin {
    fn on_downstream_data(
        &mut self,
        host: &mut HostState,
        _data_size: usize,
        end_of_stream: bool,
    ) -> FilterStatus {
        if end_of_stream {
            self.total = Some(self.get_downstream_data(host, 0, 150));
        }
        FilterStatus::Continue
    }
}

#[test]
fn downstream_chunks_concatenate_in_arrival_order() {
    let mut host = HostState::new("vm".to_string());
    let _root = host.create_root_context().unwrap();
    let id = host.create_stream_context().unwrap();
    let mut plugin = StreamPlugin { total: None };
    let first = vec![7u8; 100];
    let second = vec![9u8; 50];
    assert_eq!(
        deliver_downstream_data(&mut host, &mut plugin, id, first.clone(), false),
        Some(FilterStatus::Continue)
    );
    assert_eq!(
        deliver_downstream_data(&mut host, &mut plugin, id, second.clone(), true),
        Some(FilterStatus::Continue)
    );
    let mut expected = first;
    expected.extend_from_slice(&second);
    assert_eq!(plugin.total, Some(Some(expected)));
}

struct DenyPlugin;

impl Context for DenyPlugin {}

impl HttpContext for DenyPlugin {
    fn on_http_request_headers(
        &mut self,
        host: &mut HostState,
        _num_headers: usize,
    ) -> FilterHeadersStatus {
        self.send_http_response(
            host,
            403,
            vec![("content-type", "text/plain")],
            Some(b"denied"),
        );
        FilterHeadersStatus::StopIteration
    }
}

#[test]
fn synthetic_response_short_circuits_the_exchange() {
    let mut host = HostState::new("vm".to_string());
    let _root = host.create_root_context().unwrap();
    let id = host.create_http_context().unwrap();
    let mut plugin = DenyPlugin;
    assert_eq!(
        deliver_http_request_headers(&mut host, &mut plugin, id, vec![]),
        Some(FilterHeadersStatus::StopIteration)
    );
    let staged = host.staged_response.clone().unwrap();
    assert_eq!(staged.0, 403);
    assert_eq!(
        staged.1,
        vec![("content-type".to_string(), "text/plain".to_string())]
    );
    assert_eq!(staged.2, b"denied".to_vec());
    assert_eq!(
        deliver_http_request_headers(&mut host, &mut plugin, id, vec![]),
        None
    );
    assert!(deliver_http_log(&mut host, &mut plugin, id));
    assert_eq!(
        deliver_http_request_headers(&mut host, &mut plugin, id, vec![]),
        None
    );
}

struct NopStream2;

impl Context for NopStream2 {}

impl StreamContext for NopStream2 {}

#[test]
fn stream_log_fires_only_after_both_directions_close() {
    let mut host = HostState::new("vm".to_string());
    let _root = host.create_root_context().unwrap();
    let id = host.create_stream_context().unwrap();
    let mut plugin = NopStream2;
    assert!(!deliver_stream_log(&mut host, &mut plugin, id));
    assert!(deliver_stream_close(&mut host, &mut plugin, id, true, PeerType::Remote));
    assert!(!deliver_stream_log(&mut host, &mut plugin, id));
    assert!(deliver_stream_close(&mut host, &mut plugin, id, false, PeerType::Local));
    assert!(deliver_stream_log(&mut host, &mut plugin, id));
    assert!(!deliver_stream_log(&mut host, &mut plugin, id));
}

struct NopHttp2;

impl Context for NopHttp2 {}

impl HttpContext for NopHttp2 {}

#[test]
fn done_query_then_terminal_log_retires_context() {
    let mut host = HostState::new("vm".to_string());
    let _root = host.create_root_context().unwrap();
    let id = host.create_http_context().unwrap();
    let mut plugin = NopHttp2;
    assert_eq!(deliver_done(&mut host, &mut plugin, id), Some(true));
    assert!(deliver_http_log(&mut host, &mut plugin, id));
    assert_eq!(deliver_done(&mut host, &mut plugin, id), None);
}

#[test]
fn child_context_carries_its_role() {
    let stream: ChildContext<NopStream2, NopHttp2> = ChildContext::StreamContext(NopStream2);
    let http: ChildContext<NopStream2, NopHttp2> = ChildContext::HttpContext(NopHttp2);
    assert_eq!(stream.role(), ContextRole::Stream);
    assert_eq!(http.role(), ContextRole::Http);
}
