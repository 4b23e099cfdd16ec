use blend_server::blend::{
    answer, begin, parsed, split, step, Action, Answer, BlendCall, BlendError, Cycle, Event,
    BLEND_LIMIT,
};
use blend_server::status::{BAD_REQUEST, OK};
use blend_server::ingress::{authorize, AuthError};
use blend_server::staging::{StagedDocument, Storage};

fn doc(name: &str, content: &str) -> StagedDocument {
    StagedDocument { name: name.to_string(), content: content.to_string() }
}

fn strings(items: &[&str]) -> Vec<String> {
    items.iter().map(|s| s.to_string()).collect()
}

/// Stands in for the blend: fails on a document that is no XML element,
/// else keeps the pairs.
fn fake_blend(call: &BlendCall) -> Result<Vec<(String, String)>, String> {
    assert_eq!(call.names.len(), call.contents.len());
    for (name, content) in call.names.iter().zip(call.contents.iter()) {
        if !content.starts_with('<') {
            return Err(format!("{}: not a result file", name));
        }
    }
    Ok(call.names.iter().cloned().zip(call.contents.iter().cloned()).take(call.limit).collect())
}

/// Stands in for the export: some bytes for each pair behind a magic number.
fn fake_export(blended: Vec<(String, String)>) -> Result<Vec<u8>, String> {
    let mut bytes = vec![0x50, 0x4b, 0x03, 0x04];
    for (name, content) in blended {
        if name.is_empty() {
            return Err("sheet without a name".to_string());
        }
        bytes.extend_from_slice(name.as_bytes());
        bytes.push(0);
        bytes.extend_from_slice(content.as_bytes());
        bytes.push(0);
    }
    Ok(bytes)
}

/// Runs one cycle against the two stand-ins, as a service would against
/// the real ones.
fn run_cycle(store: &mut Storage) -> (Answer, Vec<BlendCall>) {
    let mut calls = Vec::new();
    let (mut state, mut action) = begin::<Vec<(String, String)>>(store);
    loop {
        let event = match action {
            Action::Blend(call) => {
                let blended = fake_blend(&call);
                calls.push(call);
                Event::Blended(blended)
            }
            Action::Export(blended) => Event::Exported(fake_export(blended)),
            Action::Finish(outcome) => {
                assert_eq!(state, Cycle::Finished);
                return (answer(outcome), calls);
            }
        };
        let (after, then) = step(state, event).unwrap();
        state = after;
        action = then;
    }
}

#[test]
fn split_keeps_names_and_contents_in_step() {
    let call = split(&vec![doc("a.txt", "x"), doc("b.txt", "y")]);
    assert_eq!(call.names, strings(&["a.txt", "b.txt"]));
    assert_eq!(call.contents, strings(&["x", "y"]));
    assert_eq!(call.limit, 5);
    assert_eq!(BLEND_LIMIT, 5);
}

#[test]
fn split_does_not_swap_names_and_contents() {
    let call = split(&vec![doc("name", "content")]);
    assert_eq!(call.names, strings(&["name"]));
    assert_eq!(call.contents, strings(&["content"]));
}

#[test]
fn split_of_nothing() {
    let call = split(&Vec::new());
    assert_eq!(call, BlendCall { contents: Vec::new(), names: Vec::new(), limit: 5 });
}

#[test]
fn split_keeps_duplicates_and_more_than_the_limit() {
    let documents: Vec<StagedDocument> =
        (0..7).map(|i| doc("same", &format!("<r{}/>", i))).collect();
    let call = split(&documents);
    assert_eq!(call.names, strings(&["same"; 7]));
    assert_eq!(call.contents.len(), 7);
    assert_eq!(call.contents[6], "<r6/>");
    assert_eq!(call.limit, 5);
}

#[test]
fn begin_drains_the_store_and_asks_for_the_blend() {
    let mut store = Storage::new();
    store.upload("a.txt".to_string(), "x".to_string());
    store.upload("b.txt".to_string(), "y".to_string());
    let (state, action) = begin::<()>(&mut store);
    assert_eq!(state, Cycle::Blending);
    assert_eq!(
        action,
        Action::Blend(BlendCall {
            contents: strings(&["x", "y"]),
            names: strings(&["a.txt", "b.txt"]),
            limit: 5,
        })
    );
    assert!(store.is_empty());
}

#[test]
fn begin_on_an_empty_store_asks_for_a_blend_of_nothing() {
    let mut store = Storage::new();
    let (state, action) = begin::<()>(&mut store);
    assert_eq!(state, Cycle::Blending);
    assert_eq!(
        action,
        Action::Blend(BlendCall { contents: Vec::new(), names: Vec::new(), limit: 5 })
    );
    assert!(store.is_empty());
}

#[test]
fn step_after_a_blend_asks_for_the_export() {
    assert_eq!(
        step(Cycle::Blending, Event::Blended(Ok(7u32))),
        Some((Cycle::Exporting, Action::Export(7u32)))
    );
}

#[test]
fn step_after_a_failed_blend_finishes() {
    assert_eq!(
        step::<u32>(Cycle::Blending, Event::Blended(Err("no robot".to_string()))),
        Some((
            Cycle::Finished,
            Action::Finish(Err(BlendError::BlendFailed("no robot".to_string())))
        ))
    );
}

#[test]
fn step_after_an_export_finishes_with_the_artifact() {
    assert_eq!(
        step::<u32>(Cycle::Exporting, Event::Exported(Ok(vec![1, 2, 3]))),
        Some((Cycle::Finished, Action::Finish(Ok(vec![1, 2, 3]))))
    );
}

#[test]
fn step_after_a_failed_export_finishes() {
    assert_eq!(
        step::<u32>(Cycle::Exporting, Event::Exported(Err("disk".to_string()))),
        Some((Cycle::Finished, Action::Finish(Err(BlendError::ExportFailed("disk".to_string())))))
    );
}

#[test]
fn step_refuses_an_event_that_is_not_awaited() {
    assert_eq!(step::<u32>(Cycle::Blending, Event::Exported(Ok(vec![1]))), None);
    assert_eq!(step::<u32>(Cycle::Blending, Event::Exported(Err("e".to_string()))), None);
    assert_eq!(step(Cycle::Exporting, Event::Blended(Ok(1u32))), None);
    assert_eq!(step::<u32>(Cycle::Exporting, Event::Blended(Err("e".to_string()))), None);
}

#[test]
fn a_finished_cycle_takes_nothing() {
    assert_eq!(step(Cycle::Finished, Event::Blended(Ok(1u32))), None);
    assert_eq!(step::<u32>(Cycle::Finished, Event::Blended(Err("e".to_string()))), None);
    assert_eq!(step::<u32>(Cycle::Finished, Event::Exported(Ok(vec![1]))), None);
    assert_eq!(step::<u32>(Cycle::Finished, Event::Exported(Err("e".to_string()))), None);
}

#[test]
fn answer_carries_the_artifact() {
    assert_eq!(answer(Ok(vec![0x50, 0x4b])), Answer { status: 200, body: vec![0x50, 0x4b] });
    assert_eq!(answer(Ok(Vec::new())), Answer { status: 200, body: Vec::new() });
    assert_eq!(OK, 200);
}

#[test]
fn answer_to_a_failure_is_its_text() {
    assert_eq!(
        answer(Err(BlendError::BlendFailed("bad input".to_string()))),
        Answer { status: 400, body: b"bad input".to_vec() }
    );
    assert_eq!(
        answer(Err(BlendError::ExportFailed("caf\u{e9}".to_string()))),
        Answer { status: 400, body: vec![b'c', b'a', b'f', 0xc3, 0xa9] }
    );
    assert_eq!(
        answer(Err(BlendError::ParseFailed(String::new()))),
        Answer { status: 400, body: Vec::new() }
    );
    assert_eq!(BAD_REQUEST, 400);
}

#[test]
fn failures_are_bad_requests_with_their_message() {
    let failures = [
        BlendError::BlendFailed("one".to_string()),
        BlendError::ExportFailed("two".to_string()),
        BlendError::ParseFailed("three".to_string()),
    ];
    let messages: Vec<String> = failures.iter().map(|f| f.message()).collect();
    assert_eq!(messages, strings(&["one", "two", "three"]));
    for failure in &failures {
        assert_eq!(failure.status(), 400);
    }
}

#[test]
fn parsed_text_passes_and_failure_is_recoverable() {
    assert_eq!(parsed(Ok("<robot/>".to_string())), Ok("<robot/>".to_string()));
    assert_eq!(
        parsed(Err("unexpected end of file".to_string())),
        Err(BlendError::ParseFailed("unexpected end of file".to_string()))
    );
}

#[test]
fn authorized_blend_of_two_documents() {
    assert_eq!(authorize(None, Some(b"secret")), Err(AuthError::Misconfigured));
    assert_eq!(authorize(Some(b"secret"), Some(b"secret")), Ok(()));
    let mut store = Storage::new();
    store.upload("a.txt".to_string(), "<x/>".to_string());
    store.upload("b.txt".to_string(), "<y/>".to_string());
    let (reply, calls) = run_cycle(&mut store);
    assert_eq!(
        calls,
        vec![BlendCall {
            contents: strings(&["<x/>", "<y/>"]),
            names: strings(&["a.txt", "b.txt"]),
            limit: 5,
        }]
    );
    assert_eq!(reply.status, 200);
    assert_eq!(reply.body, b"PK\x03\x04a.txt\0<x/>\0b.txt\0<y/>\0".to_vec());
}

#[test]
fn blend_call_for_plain_documents() {
    let mut store = Storage::new();
    store.upload("a.txt".to_string(), "x".to_string());
    store.upload("b.txt".to_string(), "y".to_string());
    let (_, action) = begin::<()>(&mut store);
    match action {
        Action::Blend(call) => {
            assert_eq!(call.names, strings(&["a.txt", "b.txt"]));
            assert_eq!(call.contents, strings(&["x", "y"]));
        }
        other => panic!("expected a blend, got {:?}", other),
    }
}

#[test]
fn end_to_end_upload_blend_list() {
    let mut store = Storage::new();
    store.upload("r1.xml".to_string(), "<robot/>".to_string());
    let (reply, _) = run_cycle(&mut store);
    assert_eq!(reply.status, 200);
    assert!(!reply.body.is_empty());
    assert_eq!(store.list_names(), Vec::<String>::new());
}

#[test]
fn failed_blend_leaves_the_store_empty() {
    let mut store = Storage::new();
    store.upload("notes.txt".to_string(), "plain text".to_string());
    let (reply, calls) = run_cycle(&mut store);
    assert_eq!(calls.len(), 1);
    assert_eq!(reply, Answer { status: 400, body: b"notes.txt: not a result file".to_vec() });
    assert!(store.is_empty());
    assert_eq!(store.drain_all(), Vec::<StagedDocument>::new());
}

#[test]
fn failed_export_leaves_the_store_empty() {
    let mut store = Storage::new();
    store.upload(String::new(), "<robot/>".to_string());
    let (reply, _) = run_cycle(&mut store);
    assert_eq!(reply, Answer { status: 400, body: b"sheet without a name".to_vec() });
    assert!(store.is_empty());
}

#[test]
fn blend_after_a_failure_goes_on_with_no_documents() {
    let mut store = Storage::new();
    store.upload("notes.txt".to_string(), "plain text".to_string());
    let (first, _) = run_cycle(&mut store);
    assert_eq!(first.status, 400);
    let (second, calls) = run_cycle(&mut store);
    assert_eq!(calls, vec![BlendCall { contents: Vec::new(), names: Vec::new(), limit: 5 }]);
    assert_eq!(second, Answer { status: 200, body: vec![0x50, 0x4b, 0x03, 0x04] });
}

#[test]
fn uploads_during_a_cycle_wait_for_the_next() {
    let mut store = Storage::new();
    store.upload("first.xml".to_string(), "<a/>".to_string());
    let (state, action) = begin::<Vec<(String, String)>>(&mut store);
    store.upload("late.xml".to_string(), "<b/>".to_string());
    let call = match action {
        Action::Blend(call) => call,
        other => panic!("expected a blend, got {:?}", other),
    };
    assert_eq!(call.names, strings(&["first.xml"]));
    let (state, action) = step(state, Event::Blended(fake_blend(&call))).unwrap();
    assert_eq!(state, Cycle::Exporting);
    assert_eq!(store.list_names(), strings(&["late.xml"]));
    let blended = match action {
        Action::Export(blended) => blended,
        other => panic!("expected an export, got {:?}", other),
    };
    let (state, _) =
        step::<Vec<(String, String)>>(state, Event::Exported(fake_export(blended))).unwrap();
    assert_eq!(state, Cycle::Finished);
    let (_, calls) = run_cycle(&mut store);
    assert_eq!(calls[0].names, strings(&["late.xml"]));
}
