use kube_typed::custom::CustomObject;
use kube_typed::raw::ListParams;
use kube_typed::resource::{ObjectList, WatchEvent};
use kube_typed::status::Status;
use kube_typed::typed::{APIClient, Api};
use kube_typed::watch::{decode_all, decode_frame, WatchDecoder};

fn obj(name: &str) -> CustomObject {
    CustomObject { name: name.as_bytes().to_vec() }
}

#[test]
fn stream_with_malformed_frame_yields_two_events_in_order() {
    let stream = b"{\"type\":\"ADDED\",\"object\":{\"name\":\"a\"}}\n\
                   not a frame\n\
                   {\"type\":\"MODIFIED\",\"object\":{\"name\":\"b\"}}\n";
    let events = decode_all::<CustomObject>(stream);
    assert_eq!(events.len(), 2);
    assert_eq!(events[0], WatchEvent::Added(obj("a")));
    assert_eq!(events[1], WatchEvent::Modified(obj("b")));
}

#[test]
fn deleted_and_error_frames_decode() {
    let status = Status { code: 410, message: b"expired".to_vec(), reason: b"Gone".to_vec() };
    let mut stream = b"{\"type\":\"DELETED\",\"object\":{\"name\":\"a\"}}\n".to_vec();
    stream.extend_from_slice(b"{\"type\":\"ERROR\",\"object\":");
    stream.extend_from_slice(&kube_typed::resource::KubeObject::encode(&status).unwrap());
    stream.extend_from_slice(b"}\n");
    let events = decode_all::<CustomObject>(&stream);
    assert_eq!(events.len(), 2);
    assert_eq!(events[0], WatchEvent::Deleted(obj("a")));
    assert_eq!(events[1], WatchEvent::Error(status));
}

#[test]
fn unknown_discriminator_is_dropped() {
    let events = decode_all::<CustomObject>(b"{\"type\":\"BOGUS\",\"object\":{\"name\":\"a\"}}\n");
    assert!(events.is_empty());
}

#[test]
fn frame_without_newline_is_not_consumed() {
    let events = decode_all::<CustomObject>(b"{\"type\":\"ADDED\",\"object\":{\"name\":\"a\"}}");
    assert!(events.is_empty());
}

#[test]
fn single_frame_decodes_directly() {
    let event = decode_frame::<CustomObject>(b"{\"type\":\"ADDED\",\"object\":{\"name\":\"a\"}}");
    assert_eq!(event, Some(WatchEvent::Added(obj("a"))));
    assert_eq!(decode_frame::<CustomObject>(b"plainly wrong"), None);
}

#[test]
fn decoder_assembles_frames_across_chunk_boundaries() {
    let mut dec = WatchDecoder::<CustomObject>::new();
    dec.push_bytes(b"{\"type\":\"ADDED\",\"obj");
    assert!(dec.next_event().is_none());
    dec.push_bytes(b"ect\":{\"name\":\"a\"}}\n{\"type\":\"MODIF");
    assert_eq!(dec.next_event(), Some(WatchEvent::Added(obj("a"))));
    assert!(dec.next_event().is_none());
    dec.push_bytes(b"IED\",\"object\":{\"name\":\"b\"}}\n");
    assert_eq!(dec.next_event(), Some(WatchEvent::Modified(obj("b"))));
    assert!(dec.next_event().is_none());
}

#[test]
fn decoder_skips_malformed_frames_without_erroring() {
    let mut dec = WatchDecoder::<CustomObject>::new();
    dec.push_bytes(b"garbage\n\n{\"type\":\"DELETED\",\"object\":{\"name\":\"z\"}}\n");
    assert_eq!(dec.next_event(), Some(WatchEvent::Deleted(obj("z"))));
    assert!(dec.next_event().is_none());
}

#[test]
fn watch_from_list_version_replays_nothing() {
    let client = APIClient::new("https://example.test");
    let api: Api<CustomObject> = Api::customResource(client, "foos");
    // A stub transport answered the list with this decoded result.
    let list = ObjectList::<CustomObject> {
        items: vec![obj("a"), obj("b")],
        resource_version: "12".to_string(),
        continue_token: None,
    };
    // The watch starts at exactly the listed version snapshot...
    let req = api.watch(&ListParams::default(), &list.resource_version).unwrap();
    assert_eq!(req.start_version.as_deref(), Some("12"));
    // ...and with no concurrent mutation the server pushes no frame, so no
    // event for the already-listed objects is replayed.
    let mut dec = WatchDecoder::<CustomObject>::new();
    assert!(dec.next_event().is_none());
}
