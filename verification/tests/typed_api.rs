use kube_typed::custom::{CustomObject, CustomObjectList};
use kube_typed::raw::{DeleteParams, ListParams, Method, OpOptions, PatchParams, PostParams};
use kube_typed::resolver::{interpret_object, resolve_deletion, DeletionOutcome};
use kube_typed::resource::{KubeObject, SerializeKubeObject};
use kube_typed::status::Status;
use kube_typed::typed::{APIClient, Api};
use kube_typed::Error;

fn handle() -> Api<CustomObject> {
    let client = APIClient::new("https://example.test");
    Api::customResource(client, "foos")
}

#[test]
fn custom_resource_defaults() {
    let api = handle();
    assert_eq!(api.api.resource, "foos");
    assert_eq!(api.api.group, "");
    assert_eq!(api.api.version, "v1");
    assert!(api.api.namespace.is_none());
    assert_eq!(api.client.base_url, "https://example.test");
}

#[test]
fn within_last_write_wins() {
    let api = handle().within("a").within("b");
    assert_eq!(api.api.namespace.as_deref(), Some("b"));
}

#[test]
fn group_and_version_override() {
    let api = handle().group("acme.example").version("v2").version("v3");
    assert_eq!(api.api.group, "acme.example");
    assert_eq!(api.api.version, "v3");
}

#[test]
fn get_plans_request() {
    let api = handle().within("ns1");
    let req = api.get("mine").unwrap();
    assert_eq!(req.method, Method::Get);
    assert_eq!(req.resource, "foos");
    assert_eq!(req.namespace.as_deref(), Some("ns1"));
    assert_eq!(req.name.as_deref(), Some("mine"));
    assert_eq!(req.options, OpOptions::Bare);
    assert!(req.start_version.is_none());
    assert!(req.body.is_none());
}

#[test]
fn get_empty_name_is_config_error() {
    let api = handle();
    assert_eq!(api.get("").unwrap_err(), Error::ConfigError);
}

#[test]
fn empty_namespace_is_config_error() {
    let api = handle().within("");
    assert_eq!(api.get("mine").unwrap_err(), Error::ConfigError);
}

#[test]
fn create_typed_body_matches_direct_encoding() {
    let api = handle();
    let obj = CustomObject { name: b"alpha".to_vec() };
    let req = api.create(&PostParams::default(), &obj).unwrap();
    let direct = obj.encode().unwrap();
    assert_eq!(req.method, Method::Post);
    assert_eq!(req.body.as_ref().unwrap(), &direct);
}

#[test]
fn create_raw_body_passes_through_unchanged() {
    let api = handle();
    let raw = b"{\"name\":\"alpha\"}".to_vec();
    let req = api.create(&PostParams::default(), raw.clone()).unwrap();
    assert_eq!(req.body.as_ref().unwrap(), &raw);
}

#[test]
fn create_unencodable_object_is_serialization_error() {
    let api = handle();
    let bad = CustomObject { name: b"a\"b".to_vec() };
    let err = api.create(&PostParams::default(), &bad).unwrap_err();
    assert_eq!(err, Error::SerializationError);
}

#[test]
fn create_then_get_returns_equal_object() {
    let api = handle();
    let obj = CustomObject { name: b"alpha".to_vec() };
    // Stub transport: persist exactly the body the create request carries.
    let req = api.create(&PostParams::default(), &obj).unwrap();
    let persisted: Vec<u8> = req.body.unwrap();
    // A following get is answered with the persisted body.
    let get_req = api.get("alpha").unwrap();
    assert_eq!(get_req.method, Method::Get);
    let fetched: CustomObject = interpret_object(&persisted).unwrap();
    assert_eq!(fetched, obj);
}

#[test]
fn replace_plans_put_with_name_and_body() {
    let api = handle();
    let obj = CustomObject { name: b"alpha".to_vec() };
    let req = api.replace("alpha", &PostParams { dry_run: true }, &obj).unwrap();
    assert_eq!(req.method, Method::Put);
    assert_eq!(req.name.as_deref(), Some("alpha"));
    assert_eq!(req.options, OpOptions::Post(PostParams { dry_run: true }));
    assert_eq!(req.body.as_ref().unwrap(), &obj.encode().unwrap());
}

#[test]
fn patch_passes_raw_bytes_through() {
    let api = handle();
    let patch = b"[{\"op\":\"remove\",\"path\":\"/x\"}]".to_vec();
    let req = api.patch("mine", &PatchParams::default(), patch.clone()).unwrap();
    assert_eq!(req.method, Method::Patch);
    assert_eq!(req.body.as_ref().unwrap(), &patch);
}

#[test]
fn delete_plans_delete_with_options() {
    let api = handle();
    let dp = DeleteParams { grace_period_seconds: Some(5), orphan_dependents: false };
    let req = api.delete("mine", &dp).unwrap();
    assert_eq!(req.method, Method::Delete);
    assert_eq!(req.name.as_deref(), Some("mine"));
    assert_eq!(req.options, OpOptions::Delete(dp));
}

#[test]
fn list_and_delete_collection_plan_collection_requests() {
    let api = handle();
    let lp = ListParams::default();
    let list_req = api.list(&lp).unwrap();
    assert_eq!(list_req.method, Method::Get);
    assert!(list_req.name.is_none());
    assert_eq!(list_req.options, OpOptions::List(lp));
    let dc_req = api.delete_collection(&lp).unwrap();
    assert_eq!(dc_req.method, Method::Delete);
    assert!(dc_req.name.is_none());
    assert_eq!(dc_req.options, OpOptions::List(lp));
}

#[test]
fn resolver_tags_object_shape() {
    let body = b"{\"name\":\"gone\"}";
    match resolve_deletion::<CustomObject>(body).unwrap() {
        DeletionOutcome::Object(k) => assert_eq!(k.name, b"gone".to_vec()),
        DeletionOutcome::Status(_) => panic!("expected the object tag"),
    }
}

#[test]
fn resolver_tags_status_shape() {
    let st = Status { code: 200, message: b"ok".to_vec(), reason: b"Deleted".to_vec() };
    let body = st.encode().unwrap();
    match resolve_deletion::<CustomObject>(&body).unwrap() {
        DeletionOutcome::Status(s) => assert_eq!(s, st),
        DeletionOutcome::Object(_) => panic!("expected the status tag"),
    }
}

#[test]
fn resolver_surfaces_decode_error_last() {
    let err = resolve_deletion::<CustomObject>(b"not a known shape").unwrap_err();
    assert_eq!(err, Error::DecodeError);
}

#[test]
fn status_encodes_to_exact_wire_form() {
    let st = Status { code: 404, message: b"not found".to_vec(), reason: b"NotFound".to_vec() };
    let encoded = st.encode().unwrap();
    assert_eq!(
        encoded,
        b"{\"kind\":\"Status\",\"code\":404,\"message\":\"not found\",\"reason\":\"NotFound\"}"
            .to_vec()
    );
    let back = Status::decode(&encoded).unwrap();
    assert_eq!(back, st);
}

#[test]
fn status_with_escape_needing_field_is_rejected() {
    let st = Status { code: 500, message: b"line\nbreak".to_vec(), reason: b"Oops".to_vec() };
    assert_eq!(st.encode().unwrap_err(), Error::SerializationError);
}

#[test]
fn custom_object_encodes_to_exact_wire_form() {
    let obj = CustomObject { name: b"alpha".to_vec() };
    let encoded = obj.encode().unwrap();
    assert_eq!(encoded, b"{\"name\":\"alpha\"}".to_vec());
    assert_eq!(CustomObject::decode(&encoded).unwrap(), obj);
}

#[test]
fn custom_object_decode_rejects_other_shapes() {
    assert!(CustomObject::decode(b"{\"kind\":\"Status\"}").is_none());
    assert!(CustomObject::decode(b"{\"name\":\"a\\\"b\"}").is_none());
    assert!(CustomObject::decode(b"").is_none());
}

#[test]
fn list_encodes_to_exact_wire_form() {
    let list = CustomObjectList {
        items: vec![
            CustomObject { name: b"a".to_vec() },
            CustomObject { name: b"b".to_vec() },
        ],
        resource_version: b"12".to_vec(),
    };
    let encoded = list.encode().unwrap();
    assert_eq!(
        encoded,
        b"{\"resourceVersion\":\"12\",\"items\":[{\"name\":\"a\"},{\"name\":\"b\"}]}".to_vec()
    );
    assert_eq!(CustomObjectList::decode(&encoded).unwrap(), list);
}

#[test]
fn empty_list_round_trips() {
    let list = CustomObjectList { items: vec![], resource_version: b"7".to_vec() };
    let encoded = list.encode().unwrap();
    assert_eq!(encoded, b"{\"resourceVersion\":\"7\",\"items\":[]}".to_vec());
    assert_eq!(CustomObjectList::decode(&encoded).unwrap(), list);
}

#[test]
fn delete_collection_response_resolves_over_lists() {
    let list = CustomObjectList {
        items: vec![CustomObject { name: b"gone".to_vec() }],
        resource_version: b"9".to_vec(),
    };
    let body = list.encode().unwrap();
    match resolve_deletion::<CustomObjectList>(&body).unwrap() {
        DeletionOutcome::Object(l) => assert_eq!(l, list),
        DeletionOutcome::Status(_) => panic!("expected the list tag"),
    }
    let st = Status { code: 200, message: b"ok".to_vec(), reason: b"Deleted".to_vec() };
    let status_body = st.encode().unwrap();
    match resolve_deletion::<CustomObjectList>(&status_body).unwrap() {
        DeletionOutcome::Status(s) => assert_eq!(s, st),
        DeletionOutcome::Object(_) => panic!("expected the status tag"),
    }
}

#[test]
fn transport_error_values_are_distinct() {
    let st = Status { code: 403, message: b"denied".to_vec(), reason: b"Forbidden".to_vec() };
    let http = Error::HttpStatusError(403, Some(st));
    assert_ne!(http, Error::NetworkError);
    assert_ne!(Error::NetworkError, Error::DecodeError);
}

#[test]
fn adapter_trait_is_usable_directly() {
    let raw = b"payload".to_vec();
    let bytes = <Vec<u8> as SerializeKubeObject<CustomObject>>::serialize_kube_object(raw.clone())
        .unwrap();
    assert_eq!(bytes, raw);
    let obj = CustomObject { name: b"x".to_vec() };
    let typed = (&obj).serialize_kube_object().unwrap();
    assert_eq!(typed, obj.encode().unwrap());
}
