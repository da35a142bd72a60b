use scaffold_gateway::gateway::{
    error_reply_body, export_request_body, fresh_upload_record, gateway_reply, metrics_url,
    proxy_url, FetchOutcome, GatewayReply,
};

#[test]
fn backend_response_passes_through_unchanged() {
    let payload = "{\"scaffold\":\"gyroid\",\"porosity\":0.8}".to_string();
    let GatewayReply { status, body } = gateway_reply(FetchOutcome::Response {
        status: 200,
        body: payload.clone(),
    });
    assert_eq!(status, 200);
    assert_eq!(body, payload);
}

#[test]
fn backend_error_status_passes_through_unchanged() {
    let body_in = "{\"error\":\"bad mesh\"}".to_string();
    let reply = gateway_reply(FetchOutcome::Response {
        status: 422,
        body: body_in.clone(),
    });
    assert_eq!(reply.status, 422);
    assert_eq!(reply.body, body_in);
}

#[test]
fn unreachable_backend_maps_to_gateway_error() {
    let reply = gateway_reply(FetchOutcome::Unreachable {
        message: "connection refused".to_string(),
    });
    assert_eq!(reply.status, 502);
    let v: serde_json::Value = serde_json::from_str(&reply.body).unwrap();
    assert_eq!(v.get("error").unwrap().as_str().unwrap(), "connection refused");
}

#[test]
fn invalid_body_maps_to_server_error() {
    let reply = gateway_reply(FetchOutcome::InvalidBody {
        message: "expected value at line 1".to_string(),
    });
    assert_eq!(reply.status, 500);
    let v: serde_json::Value = serde_json::from_str(&reply.body).unwrap();
    assert!(v.get("error").is_some());
}

#[test]
fn error_body_escapes_the_message() {
    let body = error_reply_body("path \"C:\\tmp\" not\nfound");
    let v: serde_json::Value = serde_json::from_str(&body).unwrap();
    assert_eq!(
        v.get("error").unwrap().as_str().unwrap(),
        "path \"C:\\tmp\" not\nfound"
    );
}

#[test]
fn urls_are_built_from_the_base_in_force() {
    assert_eq!(
        proxy_url("http://localhost:8081", "analyze"),
        "http://localhost:8081/analyze"
    );
    assert_eq!(
        proxy_url("http://localhost:8081", "tpms/generate"),
        "http://localhost:8081/tpms/generate"
    );
    assert_eq!(
        proxy_url("http://127.0.0.1:9000", "agents/chat"),
        "http://127.0.0.1:9000/agents/chat"
    );
    assert_eq!(
        metrics_url("http://localhost:8081", "ws-17"),
        "http://localhost:8081/workspace/ws-17/metrics"
    );
}

#[test]
fn export_request_carries_its_fields() {
    let body = export_request_body("ws-1", "/out/model.stl", "high");
    let v: serde_json::Value = serde_json::from_str(&body).unwrap();
    assert_eq!(v.get("workspace_id").unwrap(), "ws-1");
    assert_eq!(v.get("output_path").unwrap(), "/out/model.stl");
    assert_eq!(v.get("quality").unwrap(), "high");
}

#[test]
fn upload_record_names_the_staged_file() {
    let r = fresh_upload_record("/tmp/darwin_uploads", "scan.dat");
    assert_eq!(r.original_name, "scan.dat");
    assert_eq!(r.file_id.len(), 36);
    for (i, c) in r.file_id.chars().enumerate() {
        if i == 8 || i == 13 || i == 18 || i == 23 {
            assert_eq!(c, '-');
        } else {
            assert!(c.is_ascii_hexdigit() && !c.is_ascii_uppercase());
        }
    }
    assert_eq!(
        r.file_path,
        format!("/tmp/darwin_uploads/{}_scan.dat", r.file_id)
    );
    assert!(r.file_path.ends_with("_scan.dat"));
}

#[test]
fn fresh_ids_differ_between_uploads() {
    let a = fresh_upload_record("/tmp/darwin_uploads", "a.stl");
    let b = fresh_upload_record("/tmp/darwin_uploads", "a.stl");
    assert_ne!(a.file_id, b.file_id);
}
