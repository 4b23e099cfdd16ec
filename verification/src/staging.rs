//! The staging store: uploaded documents waiting for the next blend.
//!
//! The store is an ordered sequence. A name may occur more than once; a
//! later upload never replaces an earlier one. The only operation that
//! removes anything is the drain, which hands out everything and leaves
//! the store empty.
//!
//! A `Storage` is a plain value. Whoever shares one between tasks puts it
//! behind a lock; every method here takes the store by reference, so one
//! call is one critical section.

use crate::text::{debug_listing, render_list};
use vstd::prelude::*;

verus! {

/// One uploaded unit of input.
#[derive(Debug, PartialEq, Eq)]
pub struct StagedDocument {
    pub name: String,
    pub content: String,
}

/// What a document is in contracts: its name and its content.
pub struct DocumentView {
    pub name: Seq<char>,
    pub content: Seq<char>,
}

impl View for StagedDocument {
    type V = DocumentView;

    open spec fn view(&self) -> DocumentView {
        DocumentView { name: self.name@, content: self.content@ }
    }
}

impl DeepView for StagedDocument {
    type V = DocumentView;

    open spec fn deep_view(&self) -> DocumentView {
        self@
    }
}

/// The names of `docs`, in order.
pub open spec fn names_of(docs: Seq<DocumentView>) -> Seq<Seq<char>> {
    Seq::new(docs.len(), |i: int| docs[i].name)
}

/// The contents of `docs`, in order.
pub open spec fn contents_of(docs: Seq<DocumentView>) -> Seq<Seq<char>> {
    Seq::new(docs.len(), |i: int| docs[i].content)
}

/// One operation on the store. The lock that guards a shared store lets
/// one operation run at a time, so whatever the callers do at once reaches
/// the store as a sequence of these.
pub enum StoreOp {
    /// A document is appended.
    Upload(DocumentView),
    /// Everything is handed out and the store is left empty.
    Drain,
}

/// The store after `op`.
pub open spec fn apply(store: Seq<DocumentView>, op: StoreOp) -> Seq<DocumentView> {
    match op {
        StoreOp::Upload(document) => store.push(document),
        StoreOp::Drain => Seq::empty(),
    }
}

/// What `op` hands to its caller.
pub open spec fn handed_out(store: Seq<DocumentView>, op: StoreOp) -> Seq<DocumentView> {
    match op {
        StoreOp::Upload(_) => Seq::empty(),
        StoreOp::Drain => store,
    }
}

/// The store after `ops`, one after the other.
pub open spec fn run(store: Seq<DocumentView>, ops: Seq<StoreOp>) -> Seq<DocumentView>
    decreases ops.len(),
{
    if ops.len() == 0 {
        store
    } else {
        apply(run(store, ops.drop_last()), ops.last())
    }
}

/// Everything that the drains among `ops` hand out, drain after drain.
pub open spec fn drained(store: Seq<DocumentView>, ops: Seq<StoreOp>) -> Seq<DocumentView>
    decreases ops.len(),
{
    if ops.len() == 0 {
        Seq::empty()
    } else {
        drained(store, ops.drop_last()) + handed_out(run(store, ops.drop_last()), ops.last())
    }
}

/// The documents that the uploads among `ops` bring, in the order of the
/// uploads.
pub open spec fn uploaded(ops: Seq<StoreOp>) -> Seq<DocumentView>
    decreases ops.len(),
{
    if ops.len() == 0 {
        Seq::empty()
    } else {
        match ops.last() {
            StoreOp::Upload(document) => uploaded(ops.drop_last()).push(document),
            StoreOp::Drain => uploaded(ops.drop_last()),
        }
    }
}

/// One upload for each of `documents`, in their order.
pub open spec fn uploads(documents: Seq<DocumentView>) -> Seq<StoreOp> {
    Seq::new(documents.len(), |i: int| StoreOp::Upload(documents[i]))
}

/// The staging store.
pub struct Storage {
    blend_storage: Vec<StagedDocument>,
}

impl View for Storage {
    type V = Seq<DocumentView>;

    closed spec fn view(&self) -> Seq<DocumentView> {
        self.blend_storage.deep_view()
    }
}

impl Storage {
    /// An empty store.
    pub fn new() -> (store: Self)
        ensures
            store@ == Seq::<DocumentView>::empty(),
    {
        let store = Storage { blend_storage: Vec::new() };
        assert(store.blend_storage.deep_view() =~= Seq::<DocumentView>::empty());
        store
    }

    /// The number of staged documents.
    pub fn len(&self) -> (n: usize)
        ensures
            n == self@.len(),
    {
        self.blend_storage.len()
    }

    /// Whether nothing is staged.
    pub fn is_empty(&self) -> (empty: bool)
        ensures
            empty <==> self@.len() == 0,
    {
        self.blend_storage.len() == 0
    }

    /// Appends one document. Nothing is checked and nothing is replaced.
    pub fn upload(&mut self, name: String, content: String)
        ensures
            final(self)@ == old(self)@.push(DocumentView { name: name@, content: content@ }),
            final(self)@ == apply(
                old(self)@,
                StoreOp::Upload(DocumentView { name: name@, content: content@ }),
            ),
    {
        self.blend_storage.push(StagedDocument { name, content });
        assert(self.blend_storage.deep_view() =~= old(self).blend_storage.deep_view().push(
            DocumentView { name: name@, content: content@ },
        ));
    }

    /// The names of all staged documents, in the order of their upload.
    pub fn list_names(&self) -> (names: Vec<String>)
        ensures
            names.deep_view() == names_of(self@),
    {
        let mut names: Vec<String> = Vec::new();
        let mut i: usize = 0;
        while i < self.blend_storage.len()
            invariant
                i <= self.blend_storage.len(),
                names.len() == i,
                forall|k: int| 0 <= k < i ==> names[k]@ == self.blend_storage[k].name@,
            decreases self.blend_storage.len() - i,
        {
            names.push(self.blend_storage[i].name.clone());
            i += 1;
        }
        assert(names.deep_view() =~= names_of(self@));
        names
    }

    /// The names of all staged documents as one text, in the form in which
    /// a list of strings is shown for debugging.
    pub fn listing(&self) -> (text: String)
        ensures
            text@ == debug_listing(names_of(self@)),
    {
        let names = self.list_names();
        render_list(&names)
    }

    /// Hands out every staged document, in order, and leaves the store
    /// empty.
    pub fn drain_all(&mut self) -> (documents: Vec<StagedDocument>)
        ensures
            documents.deep_view() == old(self)@,
            final(self)@ == Seq::<DocumentView>::empty(),
            documents.deep_view() == handed_out(old(self)@, StoreOp::Drain),
            final(self)@ == apply(old(self)@, StoreOp::Drain),
    {
        let mut documents: Vec<StagedDocument> = Vec::new();
        core::mem::swap(&mut self.blend_storage, &mut documents);
        assert(self.blend_storage.deep_view() =~= Seq::<DocumentView>::empty());
        documents
    }
}

/// Nothing is lost and nothing is handed out twice.
///
/// Whatever operations reach the store, in whatever order: what the drains
/// handed out, followed by what is still staged, is what the store held at
/// first followed by every uploaded document, each once and in the order of
/// the uploads. With two drains among `ops` the documents are parted
/// between them: each drain gets those that came in since the one before.
pub proof fn lemma_nothing_lost_nothing_twice(store: Seq<DocumentView>, ops: Seq<StoreOp>)
    ensures
        drained(store, ops) + run(store, ops) == store + uploaded(ops),
    decreases ops.len(),
{
    if ops.len() == 0 {
        assert(drained(store, ops) + run(store, ops) =~= store + uploaded(ops));
    } else {
        let before = ops.drop_last();
        lemma_nothing_lost_nothing_twice(store, before);
        match ops.last() {
            StoreOp::Upload(document) => {
                assert(drained(store, ops) + run(store, ops) =~= (drained(store, before) + run(
                    store,
                    before,
                )).push(document));
                assert((store + uploaded(before)).push(document) =~= store + uploaded(ops));
            },
            StoreOp::Drain => {
                assert(drained(store, ops) + run(store, ops) =~= drained(store, before) + run(
                    store,
                    before,
                ));
            },
        }
    }
}

/// Uploads alone append, in their order, and hand nothing out.
pub proof fn lemma_uploads_append(store: Seq<DocumentView>, documents: Seq<DocumentView>)
    ensures
        run(store, uploads(documents)) == store + documents,
        drained(store, uploads(documents)) == Seq::<DocumentView>::empty(),
        uploaded(uploads(documents)) == documents,
    decreases documents.len(),
{
    let ops = uploads(documents);
    if documents.len() == 0 {
        assert(run(store, ops) =~= store + documents);
        assert(uploaded(ops) =~= documents);
    } else {
        lemma_uploads_append(store, documents.drop_last());
        assert(ops.drop_last() =~= uploads(documents.drop_last()));
        assert(ops.last() == StoreOp::Upload(documents.last()));
        assert(run(store, ops) =~= store + documents);
        assert(drained(store, ops) =~= Seq::<DocumentView>::empty());
        assert(uploaded(ops) =~= documents);
    }
}

/// A listing between two uploads shows the uploads made so far.
///
/// Of `documents` uploaded one after the other into an empty store, the
/// names listed once the first `done` of them are in are the names of
/// those, in the order of their upload.
pub proof fn lemma_listing_follows_uploads(documents: Seq<DocumentView>, done: int)
    requires
        0 <= done <= documents.len(),
    ensures
        names_of(run(Seq::empty(), uploads(documents.take(done)))) == names_of(documents).take(
            done,
        ),
{
    lemma_uploads_append(Seq::empty(), documents.take(done));
    assert(Seq::<DocumentView>::empty() + documents.take(done) =~= documents.take(done));
    assert(names_of(documents.take(done)) =~= names_of(documents).take(done));
}

/// Uploads made at once lose nothing.
///
/// Let `sent` be documents uploaded at the same time into an empty store,
/// and `order` the order in which the lock let them in: any arrangement of
/// `sent`. The drain that follows hands out `order`: as many documents as
/// were sent, each as often as it was sent, and it leaves the store empty.
pub proof fn lemma_drain_gets_every_upload(sent: Seq<DocumentView>, order: Seq<DocumentView>)
    requires
        order.to_multiset() == sent.to_multiset(),
    ensures
        handed_out(run(Seq::empty(), uploads(order)), StoreOp::Drain) == order,
        handed_out(run(Seq::empty(), uploads(order)), StoreOp::Drain).len() == sent.len(),
        handed_out(run(Seq::empty(), uploads(order)), StoreOp::Drain).to_multiset()
            == sent.to_multiset(),
        apply(run(Seq::empty(), uploads(order)), StoreOp::Drain) == Seq::<DocumentView>::empty(),
{
    lemma_uploads_append(Seq::empty(), order);
    assert(Seq::<DocumentView>::empty() + order =~= order);
    vstd::seq_lib::to_multiset_len(order);
    vstd::seq_lib::to_multiset_len(sent);
}

/// Two drains part the uploads between them.
///
/// Where a second drain runs while documents are still coming in, the lock
/// lets some uploads in before the first drain and the others after it.
/// The first drain hands out the former, the second the latter: no
/// document goes to both, and none to neither.
pub proof fn lemma_two_drains_part_the_uploads(
    before: Seq<DocumentView>,
    between: Seq<DocumentView>,
)
    ensures
        handed_out(run(Seq::empty(), uploads(before)), StoreOp::Drain) == before,
        handed_out(
            run(apply(run(Seq::empty(), uploads(before)), StoreOp::Drain), uploads(between)),
            StoreOp::Drain,
        ) == between,
{
    lemma_uploads_append(Seq::empty(), before);
    lemma_uploads_append(Seq::empty(), between);
    assert(Seq::<DocumentView>::empty() + before =~= before);
    assert(Seq::<DocumentView>::empty() + between =~= between);
}

/// A drain leaves the store empty, whatever it held and whatever becomes of
/// the documents that it handed out.
pub proof fn lemma_drain_empties(store: Seq<DocumentView>)
    ensures
        apply(store, StoreOp::Drain) == Seq::<DocumentView>::empty(),
        handed_out(store, StoreOp::Drain) == store,
        handed_out(apply(store, StoreOp::Drain), StoreOp::Drain) == Seq::<DocumentView>::empty(),
{
}

} // verus!
