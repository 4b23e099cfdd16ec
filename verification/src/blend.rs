//! One blend cycle: drain the staging store, have the documents blended,
//! have the blend exported as a spreadsheet, answer.
//!
//! The blending and the export are somebody else's work, done outside this
//! library and outside the store's lock. What is decided here is what to
//! ask for next and how the cycle ends. The caller performs each
//! [`Action`] and reports what came of it as an [`Event`]:
//!
//! ```text
//! begin -> Blend(call) --Blended(Ok)--> Export --Exported(Ok(bytes))--> Finish(Ok(bytes))
//!                      \--Blended(Err(m))--> Finish(Err(BlendFailed(m)))
//!                                        \--Exported(Err(m))--> Finish(Err(ExportFailed(m)))
//! ```
//!
//! The store is emptied by `begin`, before anything is blended. A cycle
//! that fails does not put the documents back.

use crate::staging::{
    apply, contents_of, names_of, DocumentView, StagedDocument, Storage, StoreOp,
};
use crate::status::{BAD_REQUEST, OK};
use vstd::prelude::*;
use vstd::string::StrSliceExecFns;
use vstd::utf8::encode_utf8;

verus! {

/// The cap that every blend is asked for.
pub const BLEND_LIMIT: usize = 5;

/// What the blend is called with: `names[i]` belongs to `contents[i]`.
#[derive(Debug, PartialEq, Eq)]
pub struct BlendCall {
    pub contents: Vec<String>,
    pub names: Vec<String>,
    pub limit: usize,
}

/// What a call is in contracts.
pub struct BlendCallView {
    pub contents: Seq<Seq<char>>,
    pub names: Seq<Seq<char>>,
    pub limit: nat,
}

impl View for BlendCall {
    type V = BlendCallView;

    open spec fn view(&self) -> BlendCallView {
        BlendCallView {
            contents: self.contents.deep_view(),
            names: self.names.deep_view(),
            limit: self.limit as nat,
        }
    }
}

/// The call that blends `documents`: their contents and their names, each
/// in the order of the documents, and the fixed limit.
pub open spec fn call_for(documents: Seq<DocumentView>) -> BlendCallView {
    BlendCallView {
        contents: contents_of(documents),
        names: names_of(documents),
        limit: BLEND_LIMIT as nat,
    }
}

/// How outside work failed, with the message that it failed with.
#[derive(Debug, PartialEq, Eq)]
pub enum BlendError {
    /// The blend refused the documents.
    BlendFailed(String),
    /// The blend was there and could not be exported.
    ExportFailed(String),
    /// A document could not be parsed.
    ParseFailed(String),
}

impl BlendError {
    /// The message that the outside work failed with.
    pub open spec fn text(self) -> Seq<char> {
        match self {
            BlendError::BlendFailed(message) => message@,
            BlendError::ExportFailed(message) => message@,
            BlendError::ParseFailed(message) => message@,
        }
    }

    /// The status that the failure is answered with.
    pub fn status(&self) -> (code: u16)
        ensures
            code == BAD_REQUEST,
    {
        BAD_REQUEST
    }

    /// The text that the failure is answered with.
    pub fn message(&self) -> (text: String)
        ensures
            text@ == self.text(),
    {
        match self {
            BlendError::BlendFailed(message) => message.clone(),
            BlendError::ExportFailed(message) => message.clone(),
            BlendError::ParseFailed(message) => message.clone(),
        }
    }
}

/// The answer to a request: a status and a body.
#[derive(Debug, PartialEq, Eq)]
pub struct Answer {
    pub status: u16,
    pub body: Vec<u8>,
}

/// Where a cycle stands.
#[derive(Debug, Clone, Copy, PartialEq, Eq, Structural)]
pub enum Cycle {
    /// The documents are captured; the blend is awaited.
    Blending,
    /// The blend is there; its export is awaited.
    Exporting,
    /// The cycle has its outcome. Nothing more is accepted.
    Finished,
}

/// What came of the action that was asked for. `B` is whatever the blend
/// returns; it is carried from the blend to the export and never looked
/// into.
#[derive(Debug, PartialEq, Eq)]
pub enum Event<B> {
    /// The blend returned: its result, or the message of its failure.
    Blended(Result<B, String>),
    /// The export returned: the artifact, or the message of its failure.
    Exported(Result<Vec<u8>, String>),
}

/// What the caller is to do next.
#[derive(Debug, PartialEq, Eq)]
pub enum Action<B> {
    /// Call the blend with these arguments.
    Blend(BlendCall),
    /// Export this result of the blend.
    Export(B),
    /// Answer with the artifact, or with the failure.
    Finish(Result<Vec<u8>, BlendError>),
}

/// The transition of a cycle: `None` where `state` does not await `event`.
pub open spec fn next<B>(state: Cycle, event: Event<B>) -> Option<(Cycle, Action<B>)> {
    match (state, event) {
        (Cycle::Blending, Event::Blended(Ok(blended))) => Some(
            (Cycle::Exporting, Action::Export(blended)),
        ),
        (Cycle::Blending, Event::Blended(Err(message))) => Some(
            (Cycle::Finished, Action::Finish(Err(BlendError::BlendFailed(message)))),
        ),
        (Cycle::Exporting, Event::Exported(Ok(artifact))) => Some(
            (Cycle::Finished, Action::Finish(Ok(artifact))),
        ),
        (Cycle::Exporting, Event::Exported(Err(message))) => Some(
            (Cycle::Finished, Action::Finish(Err(BlendError::ExportFailed(message)))),
        ),
        _ => None,
    }
}

/// How many more events a cycle can take.
pub open spec fn steps_left(state: Cycle) -> nat {
    match state {
        Cycle::Blending => 2,
        Cycle::Exporting => 1,
        Cycle::Finished => 0,
    }
}

/// Separates documents into their contents and their names, keeping the
/// order, so that the two run in parallel.
pub fn split(documents: &Vec<StagedDocument>) -> (call: BlendCall)
    ensures
        call@ == call_for(documents.deep_view()),
{
    let mut names: Vec<String> = Vec::new();
    let mut contents: Vec<String> = Vec::new();
    let mut i: usize = 0;
    while i < documents.len()
        invariant
            i <= documents.len(),
            names.len() == i,
            contents.len() == i,
            forall|k: int| 0 <= k < i ==> names[k]@ == documents[k].name@,
            forall|k: int| 0 <= k < i ==> contents[k]@ == documents[k].content@,
        decreases documents.len() - i,
    {
        names.push(documents[i].name.clone());
        contents.push(documents[i].content.clone());
        i += 1;
    }
    assert(names.deep_view() =~= names_of(documents.deep_view()));
    assert(contents.deep_view() =~= contents_of(documents.deep_view()));
    BlendCall { contents, names, limit: BLEND_LIMIT }
}

/// Begins a cycle: empties the store and asks for the blend of what was
/// in it.
///
/// The store is empty from here on, however the cycle ends. An empty store
/// is no failure: the blend is then asked for with no documents.
pub fn begin<B>(store: &mut Storage) -> (started: (Cycle, Action<B>))
    ensures
        final(store)@ == Seq::<DocumentView>::empty(),
        started.0 == Cycle::Blending,
        started.1 matches Action::Blend(call) && call@ == call_for(old(store)@),
{
    let documents = store.drain_all();
    (Cycle::Blending, Action::Blend(split(&documents)))
}

/// Takes the cycle one step on.
pub fn step<B>(state: Cycle, event: Event<B>) -> (result: Option<(Cycle, Action<B>)>)
    ensures
        result == next(state, event),
{
    match state {
        Cycle::Blending => match event {
            Event::Blended(Ok(blended)) => Some((Cycle::Exporting, Action::Export(blended))),
            Event::Blended(Err(message)) => Some(
                (Cycle::Finished, Action::Finish(Err(BlendError::BlendFailed(message)))),
            ),
            Event::Exported(_) => None,
        },
        Cycle::Exporting => match event {
            Event::Exported(Ok(artifact)) => Some((Cycle::Finished, Action::Finish(Ok(artifact)))),
            Event::Exported(Err(message)) => Some(
                (Cycle::Finished, Action::Finish(Err(BlendError::ExportFailed(message)))),
            ),
            Event::Blended(_) => None,
        },
        Cycle::Finished => None,
    }
}

/// The answer to the caller of a cycle that has finished: the artifact
/// as it is, or the text of the failure in UTF-8.
pub fn answer(outcome: Result<Vec<u8>, BlendError>) -> (reply: Answer)
    ensures
        match outcome {
            Ok(artifact) => reply.status == OK && reply.body@ == artifact@,
            Err(error) => reply.status == BAD_REQUEST && reply.body@ == encode_utf8(error.text()),
        },
{
    match outcome {
        Ok(artifact) => Answer { status: OK, body: artifact },
        Err(error) => {
            let text = error.message();
            Answer { status: error.status(), body: text.as_str().as_bytes_vec() }
        },
    }
}

/// What becomes of a document that was handed to the outside parser: its
/// text, or a failure that the caller can answer with. A document that
/// does not parse is a failed request and nothing worse.
pub fn parsed(outcome: Result<String, String>) -> (result: Result<String, BlendError>)
    ensures
        match outcome {
            Ok(text) => result == Ok::<String, BlendError>(text),
            Err(message) => result == Err::<String, BlendError>(BlendError::ParseFailed(message)),
        },
{
    match outcome {
        Ok(text) => Ok(text),
        Err(message) => Err(BlendError::ParseFailed(message)),
    }
}

/// A blend that follows a failed one goes ahead with no documents.
///
/// The cycle before emptied the store when it began, so however it ended,
/// and unless something was uploaded since, the next cycle begins on an
/// empty store. What it asks for is a blend of nothing under the same
/// limit: what comes of that is for the blend to say.
pub proof fn lemma_blend_after_failure(before: Seq<DocumentView>)
    ensures
        call_for(apply(before, StoreOp::Drain)) == (BlendCallView {
            contents: Seq::empty(),
            names: Seq::empty(),
            limit: BLEND_LIMIT as nat,
        }),
{
    assert(contents_of(Seq::<DocumentView>::empty()) =~= Seq::<Seq<char>>::empty());
    assert(names_of(Seq::<DocumentView>::empty()) =~= Seq::<Seq<char>>::empty());
}

/// A cycle runs straight to its end.
///
/// Every step that is taken leaves fewer steps to take, so a cycle takes
/// two events at most and never goes back. The step that ends it is the one
/// that asks for the answer, and a cycle that has ended takes no event:
/// there is no retry.
pub proof fn lemma_cycle_is_linear<B>(state: Cycle, event: Event<B>)
    ensures
        state == Cycle::Finished ==> next(state, event) is None,
        next(state, event) matches Some((after, action)) ==> {
            &&& steps_left(after) < steps_left(state)
            &&& after == Cycle::Finished <==> action is Finish
        },
{
}

/// A failure ends the cycle at once, with the message that the outside
/// work failed with.
pub proof fn lemma_failure_ends_cycle<B>(message: String)
    ensures
        next::<B>(Cycle::Blending, Event::Blended(Err(message))) == Some(
            (Cycle::Finished, Action::<B>::Finish(Err(BlendError::BlendFailed(message)))),
        ),
        next::<B>(Cycle::Exporting, Event::Exported(Err(message))) == Some(
            (Cycle::Finished, Action::<B>::Finish(Err(BlendError::ExportFailed(message)))),
        ),
{
}

} // verus!
