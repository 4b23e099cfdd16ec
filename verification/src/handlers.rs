//! What each request does, once its header fields and its body are at hand
//! and before its answer is written: the credential check first, then the
//! operation, and nothing of the operation where the check refuses.
//!
//! The caller holds the lock of the store that it passes in.

use crate::blend::{begin, call_for, Action, Cycle};
use crate::ingress::{
    check_api_key, presented_in, utf8_of, verdict, AuthError, STATIC_API_KEY,
};
use crate::staging::{names_of, DocumentView, Storage};
use crate::stuff::{repeated, stuff};
use crate::text::debug_listing;
use crate::todo::{after_mark, has_id, not_found_text, TodoError, TodoView};
use hyper::HeaderMap;
use vstd::prelude::*;
use vstd::string::StringSliceAdditionalSpecFns;

verus! {

/// The decision on a request to the staging store or the blend: the
/// credential is mandatory and `key` is the one that the service was
/// configured with.
pub open spec fn admitted(key: Option<&str>, headers: HeaderMap) -> Result<(), AuthError> {
    verdict(utf8_of(key), true, presented_in(headers))
}

/// The decision on a request to the todo list or for stuff: the credential
/// is the static one, and mandatory where `required` is set.
pub open spec fn admitted_static(required: bool, headers: HeaderMap) -> Result<(), AuthError> {
    verdict(Some(STATIC_API_KEY.spec_bytes()), required, presented_in(headers))
}

/// Stages one document.
pub fn upload_to_blend(
    key: Option<&str>,
    headers: &HeaderMap,
    store: &mut Storage,
    name: String,
    data: String,
) -> (outcome: Result<(), AuthError>)
    ensures
        outcome == admitted(key, *headers),
        outcome is Ok ==> final(store)@ == old(store)@.push(
            DocumentView { name: name@, content: data@ },
        ),
        outcome is Err ==> final(store)@ == old(store)@,
{
    match check_api_key(key, true, headers) {
        Ok(_) => {
            store.upload(name, data);
            Ok(())
        },
        Err(refusal) => Err(refusal),
    }
}

/// Lists the names of the staged documents.
pub fn list_to_blend(key: Option<&str>, headers: &HeaderMap, store: &Storage) -> (outcome: Result<
    String,
    AuthError,
>)
    ensures
        match outcome {
            Ok(text) => admitted(key, *headers) is Ok && text@ == debug_listing(names_of(store@)),
            Err(refusal) => admitted(key, *headers) == Err::<(), AuthError>(refusal),
        },
{
    match check_api_key(key, true, headers) {
        Ok(_) => Ok(store.listing()),
        Err(refusal) => Err(refusal),
    }
}

/// Begins a blend cycle on what is staged. A request that is refused
/// leaves the store as it is.
pub fn blend_files<B>(key: Option<&str>, headers: &HeaderMap, store: &mut Storage) -> (outcome:
    Result<(Cycle, Action<B>), AuthError>)
    ensures
        match outcome {
            Ok(started) => {
                &&& admitted(key, *headers) is Ok
                &&& final(store)@ == Seq::<DocumentView>::empty()
                &&& started.0 == Cycle::Blending
                &&& started.1 matches Action::Blend(call) && call@ == call_for(old(store)@)
            },
            Err(refusal) => {
                &&& admitted(key, *headers) == Err::<(), AuthError>(refusal)
                &&& final(store)@ == old(store)@
            },
        },
{
    match check_api_key(key, true, headers) {
        Ok(_) => Ok(begin(store)),
        Err(refusal) => Err(refusal),
    }
}

/// Stuff.
pub fn do_stuff(headers: &HeaderMap, mul: u32) -> (outcome: Result<String, AuthError>)
    ensures
        match outcome {
            Ok(text) => admitted_static(true, *headers) is Ok && text@ == repeated(
                "Stuff"@,
                mul as nat,
            ),
            Err(refusal) => admitted_static(true, *headers) == Err::<(), AuthError>(refusal),
        },
{
    match check_api_key(Some(STATIC_API_KEY), true, headers) {
        Ok(_) => Ok(stuff(mul)),
        Err(refusal) => Err(refusal),
    }
}

/// Mark Todo item done by id. A caller without a credential may; one with
/// a wrong credential may not.
pub fn mark_done(headers: &HeaderMap, store: &mut crate::todo::Storage, id: i32) -> (outcome:
    Result<(), TodoError>)
    ensures
        admitted_static(false, *headers) matches Err(refusal) ==> {
            &&& final(store)@ == old(store)@
            &&& outcome matches Err(TodoError::Unauthorized(text)) && text@ == refusal.text()
        },
        admitted_static(false, *headers) is Ok ==> {
            &&& final(store)@ == after_mark(old(store)@, id as int)
            &&& outcome is Ok <==> has_id(old(store)@, id as int)
            &&& outcome matches Err(error) ==> error matches TodoError::NotFound(text) && text@
                == not_found_text(id as int)
        },
{
    match check_api_key(Some(STATIC_API_KEY), false, headers) {
        Ok(_) => store.mark_done(id),
        Err(refusal) => Err(TodoError::unauthorized(refusal)),
    }
}

/// Delete Todo item by id. The credential is mandatory.
pub fn delete_todo(headers: &HeaderMap, store: &mut crate::todo::Storage, id: i32) -> (outcome:
    Result<(), TodoError>)
    ensures
        admitted_static(true, *headers) matches Err(refusal) ==> {
            &&& final(store)@ == old(store)@
            &&& outcome matches Err(TodoError::Unauthorized(text)) && text@ == refusal.text()
        },
        admitted_static(true, *headers) is Ok ==> {
            &&& final(store)@ == old(store)@.filter(|todo: TodoView| todo.id != id)
            &&& outcome is Ok <==> has_id(old(store)@, id as int)
            &&& outcome matches Err(error) ==> error matches TodoError::NotFound(text) && text@
                == not_found_text(id as int)
        },
{
    match check_api_key(Some(STATIC_API_KEY), true, headers) {
        Ok(_) => store.delete(id),
        Err(refusal) => Err(TodoError::unauthorized(refusal)),
    }
}

} // verus!
