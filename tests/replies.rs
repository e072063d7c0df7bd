use yukari_engine::keystore::{ApiKeyStore, SetOutcome};
use yukari_engine::reply::{
    file_reply, key_reply, malformed_body_reply, no_content_reply, set_reply, text_reply,
    version_reply, Body, Reply, CORS_HEADER, CORS_ORIGIN,
};

#[test]
fn version() {
    assert_eq!(
        version_reply(),
        Reply { status: 200, body: Body::Text("yukari-engine: 0.1.0".to_string()) }
    );
}

#[test]
fn key_present_and_absent() {
    let mut store = ApiKeyStore::new();
    assert_eq!(
        key_reply(&store),
        Reply { status: 404, body: Body::Text("API key not found".to_string()) }
    );
    store.set("secret123".to_string());
    assert_eq!(key_reply(&store), Reply { status: 200, body: Body::Text("secret123".to_string()) });
}

#[test]
fn set_replies() {
    assert_eq!(
        set_reply(SetOutcome::Persisted),
        Reply { status: 200, body: Body::Text("API key set successfully".to_string()) }
    );
    let partial = set_reply(SetOutcome::MemoryOnly);
    assert_eq!(partial.status, 200);
    assert_eq!(
        partial.body,
        Body::Text("API key set in memory only: it could not be persisted".to_string())
    );
}

#[test]
fn asset_replies() {
    assert_eq!(no_content_reply(), Reply { status: 204, body: Body::Empty });
    assert_eq!(file_reply(Some(vec![1, 2, 3])), Reply { status: 200, body: Body::Bytes(vec![1, 2, 3]) });
    assert_eq!(
        file_reply(None),
        Reply { status: 404, body: Body::Text("File not found".to_string()) }
    );
}

#[test]
fn other_replies() {
    assert_eq!(malformed_body_reply().status, 400);
    assert_eq!(text_reply(201, "x"), Reply { status: 201, body: Body::Text("x".to_string()) });
    assert_eq!((CORS_HEADER, CORS_ORIGIN), ("Access-Control-Allow-Origin", "*"));
}
