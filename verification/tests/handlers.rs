use blend_server::blend::{Action, BlendCall, Cycle};
use blend_server::handlers::{
    blend_files, delete_todo, do_stuff, list_to_blend, mark_done, upload_to_blend,
};
use blend_server::ingress::AuthError;
use blend_server::staging::{StagedDocument, Storage};
use blend_server::todo::{Todo, TodoError};
use hyper::header::{HeaderName, HeaderValue};
use hyper::HeaderMap;

fn with_key(key: &'static str) -> HeaderMap {
    let mut headers = HeaderMap::new();
    headers.insert(HeaderName::from_static("theapikey"), HeaderValue::from_static(key));
    headers
}

fn staged() -> Storage {
    let mut store = Storage::new();
    store.upload("a.txt".to_string(), "x".to_string());
    store.upload("b.txt".to_string(), "y".to_string());
    store
}

fn todos() -> blend_server::todo::Storage {
    let mut store = blend_server::todo::Storage::new();
    store.create(Todo { id: 1, value: "one".to_string(), done: false }).unwrap();
    store.create(Todo { id: 2, value: "two".to_string(), done: false }).unwrap();
    store
}

#[test]
fn upload_with_the_right_credential_stages_the_document() {
    let mut store = Storage::new();
    let outcome = upload_to_blend(
        Some("secret"),
        &with_key("secret"),
        &mut store,
        "r1.xml".to_string(),
        "<robot/>".to_string(),
    );
    assert_eq!(outcome, Ok(()));
    assert_eq!(
        store.drain_all(),
        vec![StagedDocument { name: "r1.xml".to_string(), content: "<robot/>".to_string() }]
    );
}

#[test]
fn refused_upload_stages_nothing() {
    let mut store = staged();
    let wrong = upload_to_blend(
        Some("secret"),
        &with_key("guess"),
        &mut store,
        "c.txt".to_string(),
        "z".to_string(),
    );
    assert_eq!(wrong, Err(AuthError::Invalid));
    let absent = upload_to_blend(
        Some("secret"),
        &HeaderMap::new(),
        &mut store,
        "c.txt".to_string(),
        "z".to_string(),
    );
    assert_eq!(absent, Err(AuthError::Missing));
    let unconfigured =
        upload_to_blend(None, &with_key("secret"), &mut store, "c.txt".to_string(), "z".to_string());
    assert_eq!(unconfigured, Err(AuthError::Misconfigured));
    assert_eq!(store.list_names(), vec!["a.txt".to_string(), "b.txt".to_string()]);
}

#[test]
fn list_shows_the_names_as_a_debug_list() {
    let store = staged();
    assert_eq!(
        list_to_blend(Some("secret"), &with_key("secret"), &store),
        Ok("[\"a.txt\", \"b.txt\"]".to_string())
    );
    assert_eq!(
        list_to_blend(Some("secret"), &with_key("secret"), &Storage::new()),
        Ok("[]".to_string())
    );
}

#[test]
fn list_escapes_what_a_name_holds() {
    let mut store = Storage::new();
    store.upload("say \"hi\"".to_string(), String::new());
    store.upload("tab\there".to_string(), String::new());
    store.upload("back\\slash".to_string(), String::new());
    assert_eq!(store.listing(), "[\"say \\\"hi\\\"\", \"tab\\there\", \"back\\\\slash\"]");
}

#[test]
fn refused_list_shows_nothing() {
    let store = staged();
    assert_eq!(list_to_blend(Some("secret"), &with_key("nope"), &store), Err(AuthError::Invalid));
    assert_eq!(list_to_blend(Some("secret"), &HeaderMap::new(), &store), Err(AuthError::Missing));
    assert_eq!(list_to_blend(None, &with_key("secret"), &store), Err(AuthError::Misconfigured));
}

#[test]
fn blend_with_the_right_credential_drains_the_store() {
    let mut store = staged();
    let outcome = blend_files::<()>(Some("secret"), &with_key("secret"), &mut store);
    assert_eq!(
        outcome,
        Ok((
            Cycle::Blending,
            Action::Blend(BlendCall {
                contents: vec!["x".to_string(), "y".to_string()],
                names: vec!["a.txt".to_string(), "b.txt".to_string()],
                limit: 5,
            })
        ))
    );
    assert!(store.is_empty());
}

#[test]
fn refused_blend_leaves_the_store_as_it_is() {
    let mut store = staged();
    assert_eq!(
        blend_files::<()>(Some("secret"), &with_key("Secret"), &mut store),
        Err(AuthError::Invalid)
    );
    assert_eq!(
        blend_files::<()>(Some("secret"), &HeaderMap::new(), &mut store),
        Err(AuthError::Missing)
    );
    assert_eq!(
        blend_files::<()>(None, &with_key("secret"), &mut store),
        Err(AuthError::Misconfigured)
    );
    assert_eq!(store.list_names(), vec!["a.txt".to_string(), "b.txt".to_string()]);
}

#[test]
fn stuff_wants_the_static_credential() {
    assert_eq!(do_stuff(&with_key("rocks"), 2), Ok("StuffStuff".to_string()));
    assert_eq!(do_stuff(&with_key("rocks"), 0), Ok(String::new()));
    assert_eq!(do_stuff(&with_key("sand"), 2), Err(AuthError::Invalid));
    assert_eq!(do_stuff(&HeaderMap::new(), 2), Err(AuthError::Missing));
}

#[test]
fn mark_done_lets_anonymous_callers_through() {
    let mut store = todos();
    assert_eq!(mark_done(&HeaderMap::new(), &mut store, 2), Ok(()));
    assert!(store.list()[1].done);
    assert_eq!(mark_done(&with_key("rocks"), &mut store, 1), Ok(()));
    assert!(store.list()[0].done);
    assert_eq!(
        mark_done(&HeaderMap::new(), &mut store, 5),
        Err(TodoError::NotFound("id = 5".to_string()))
    );
}

#[test]
fn mark_done_refuses_a_wrong_credential() {
    let mut store = todos();
    assert_eq!(
        mark_done(&with_key("utoipa-rocks"), &mut store, 2),
        Err(TodoError::Unauthorized("incorrect api key".to_string()))
    );
    assert!(!store.list()[1].done);
}

#[test]
fn delete_wants_the_credential() {
    let mut store = todos();
    assert_eq!(
        delete_todo(&HeaderMap::new(), &mut store, 1),
        Err(TodoError::Unauthorized("missing api key in request".to_string()))
    );
    assert_eq!(
        delete_todo(&with_key("stones"), &mut store, 1),
        Err(TodoError::Unauthorized("incorrect api key".to_string()))
    );
    assert_eq!(store.list().len(), 2);
    assert_eq!(delete_todo(&with_key("rocks"), &mut store, 1), Ok(()));
    assert_eq!(store.list().len(), 1);
    assert_eq!(store.list()[0].id, 2);
    assert_eq!(
        delete_todo(&with_key("rocks"), &mut store, 1),
        Err(TodoError::NotFound("id = 1".to_string()))
    );
}
