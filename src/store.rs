//! The document store: each open document's text and version, by identifier.

use dashmap::DashMap;
use vstd::prelude::*;

use crate::buffer::TextBuffer;
use crate::error::SessionError;
use crate::text::{range_offsets, splice, Range};

verus! {

/// One edit of a change notification: a range and the text that replaces it,
/// or, without a range, the whole new text.
pub struct TextChange {
    pub range: Option<Range>,
    pub text: String,
}

impl TextChange {
    pub fn new(range: Option<Range>, text: String) -> (c: TextChange)
        ensures
            c.range == range,
            c.text@ == text@,
    {
        TextChange { range, text }
    }
}

/// What a document is: its text and the version the editor last gave it.
pub struct DocumentView {
    pub text: Seq<char>,
    pub version: int,
}

pub struct Document {
    pub buffer: TextBuffer,
    pub version: i32,
}

impl View for Document {
    type V = DocumentView;

    open spec fn view(&self) -> DocumentView {
        DocumentView { text: self.buffer@, version: self.version as int }
    }
}

/// The text of the document under `uri`, if it is open.
pub open spec fn text_of(docs: Map<Seq<char>, DocumentView>, uri: Seq<char>) -> Option<Seq<char>> {
    if docs.contains_key(uri) {
        Some(docs[uri].text)
    } else {
        None
    }
}

/// One edit applied to a text: an edit with a range replaces that range,
/// which must lie in the text (`None` where it does not); one without a range
/// gives the whole text.
pub open spec fn apply_edit(s: Seq<char>, c: TextChange) -> Option<Seq<char>> {
    match c.range {
        None => Some(c.text@),
        Some(r) => match range_offsets(s, r) {
            None => None,
            Some((a, b)) => Some(splice(s, a as int, b as int, c.text@)),
        },
    }
}

/// Edits applied one after another, in order, to `s`; `None` where one of
/// them does not fit the text it meets.
pub open spec fn replay(s: Seq<char>, cs: Seq<TextChange>) -> Option<Seq<char>>
    decreases cs.len(),
{
    if cs.len() == 0 {
        Some(s)
    } else {
        match replay(s, cs.drop_last()) {
            None => None,
            Some(t) => apply_edit(t, cs.last()),
        }
    }
}

/// Edits `a` and then edits `b` give what `a + b` gives.
pub proof fn lemma_replay_append(s: Seq<char>, a: Seq<TextChange>, b: Seq<TextChange>)
    ensures
        replay(s, a + b) == match replay(s, a) {
            None => None,
            Some(t) => replay(t, b),
        },
    decreases b.len(),
{
    if b.len() == 0 {
        assert(a + b =~= a);
    } else {
        assert((a + b).drop_last() =~= a + b.drop_last());
        assert((a + b).last() == b.last());
        lemma_replay_append(s, a, b.drop_last());
    }
}

/// Whether every edit of `cs` fits the text it meets in document `uri`. A
/// document that is not open leaves nothing to fit.
pub open spec fn edits_fit(docs: Map<Seq<char>, DocumentView>, uri: Seq<char>, cs: Seq<TextChange>) -> bool {
    docs.contains_key(uri) ==> replay(docs[uri].text, cs) is Some
}

/// The documents after one change notification for `uri` with edits `cs`
/// and version `version`. Only an open document can change; its version is
/// set when there is at least one edit.
pub open spec fn after_changes(
    docs: Map<Seq<char>, DocumentView>,
    uri: Seq<char>,
    cs: Seq<TextChange>,
    version: int,
) -> Result<Map<Seq<char>, DocumentView>, SessionError> {
    if !docs.contains_key(uri) {
        Err(SessionError::MissingDocument)
    } else {
        match replay(docs[uri].text, cs) {
            None => Err(SessionError::MalformedRequest),
            Some(t) => if cs.len() == 0 {
                Ok(docs)
            } else {
                Ok(docs.insert(uri, DocumentView { text: t, version }))
            },
        }
    }
}

/// A copy of `buffer` with `changes` applied in order; `None` where an edit
/// does not fit the text it meets. `buffer` itself stays as it is.
fn replay_on(buffer: &TextBuffer, changes: &Vec<TextChange>) -> (r: Option<TextBuffer>)
    ensures
        r is None <==> replay(buffer@, changes@) is None,
        r matches Some(b) ==> replay(buffer@, changes@) == Some(b@),
{
    let mut working = buffer.snapshot();
    let mut k: usize = 0;
    while k < changes.len()
        invariant
            k <= changes@.len(),
            replay(buffer@, changes@.take(k as int)) == Some(working@),
        decreases changes@.len() - k,
    {
        let c = &changes[k];
        assert(changes@.take(k + 1).drop_last() =~= changes@.take(k as int));
        assert(changes@.take(k + 1).last() == changes@[k as int]);
        match c.range {
            None => {
                working = TextBuffer::from_text(c.text.as_str());
            },
            Some(range) => match working.range_of(range) {
                None => {
                    proof {
                        lemma_replay_append(buffer@, changes@.take(k + 1), changes@.skip(k + 1));
                        assert(changes@.take(k + 1) + changes@.skip(k + 1) =~= changes@);
                    }
                    return None;
                },
                Some((a, b)) => {
                    working.replace(a, b, c.text.as_str());
                },
            },
        }
        k = k + 1;
    }
    assert(changes@.take(k as int) =~= changes@);
    Some(working)
}

#[verifier::external_type_specification]
#[verifier::external_body]
#[verifier::reject_recursive_types(K)]
#[verifier::reject_recursive_types(V)]
#[verifier::reject_recursive_types(S)]
pub struct ExDashMap<K, V, S>(DashMap<K, V, S>);

/// What a map of documents holds: the view of the document under each
/// identifier.
pub uninterp spec fn document_entries(m: DashMap<String, Document>) -> Map<Seq<char>, DocumentView>;

/// Relies on dashmap's `DashMap::new`: the map starts empty.
#[verifier::external_body]
fn new_documents() -> (r: DashMap<String, Document>)
    ensures
        document_entries(r).dom() == Set::<Seq<char>>::empty(),
{
    DashMap::new()
}

/// Relies on dashmap's `DashMap::contains_key`: whether a document is under
/// `uri`.
#[verifier::external_body]
fn contains_document(m: &DashMap<String, Document>, uri: &String) -> (b: bool)
    ensures
        b == document_entries(*m).contains_key(uri@),
{
    m.contains_key(uri)
}

/// Relies on dashmap's `DashMap::insert`: `doc` is under `uri` afterwards, in
/// place of any document there.
#[verifier::external_body]
fn insert_document(m: &mut DashMap<String, Document>, uri: String, doc: Document)
    ensures
        document_entries(*final(m)) == document_entries(*old(m)).insert(uri@, doc@),
{
    m.insert(uri, doc);
}

/// Relies on dashmap's `DashMap::remove`: nothing is under `uri` afterwards,
/// and the other documents stay.
#[verifier::external_body]
fn remove_document(m: &mut DashMap<String, Document>, uri: &String)
    ensures
        document_entries(*final(m)) == document_entries(*old(m)).remove(uri@),
{
    m.remove(uri);
}

/// Relies on dashmap's `DashMap::get`: the version of the document under
/// `uri`, if there is one.
#[verifier::external_body]
fn document_version(m: &DashMap<String, Document>, uri: &String) -> (r: Option<i32>)
    ensures
        r is None <==> !document_entries(*m).contains_key(uri@),
        r matches Some(v) ==> v as int == document_entries(*m)[uri@].version,
{
    m.get(uri).map(|d| d.version)
}

/// Relies on dashmap's `DashMap::get`: a snapshot of the text of the document
/// under `uri`, if there is one.
#[verifier::external_body]
fn document_buffer(m: &DashMap<String, Document>, uri: &String) -> (r: Option<TextBuffer>)
    ensures
        r is None <==> !document_entries(*m).contains_key(uri@),
        r matches Some(b) ==> b@ == document_entries(*m)[uri@].text,
{
    m.get(uri).map(|d| d.buffer.snapshot())
}

/// The open documents, by identifier.
pub struct DocumentStore {
    documents: DashMap<String, Document>,
}

impl View for DocumentStore {
    type V = Map<Seq<char>, DocumentView>;

    closed spec fn view(&self) -> Map<Seq<char>, DocumentView> {
        document_entries(self.documents)
    }
}

impl DocumentStore {
    pub fn new() -> (s: DocumentStore)
        ensures
            s@ == Map::<Seq<char>, DocumentView>::empty(),
    {
        let s = DocumentStore { documents: new_documents() };
        assert(s@ =~= Map::<Seq<char>, DocumentView>::empty());
        s
    }

    pub fn contains(&self, uri: &String) -> (b: bool)
        ensures
            b == self@.contains_key(uri@),
    {
        contains_document(&self.documents, uri)
    }

    /// A snapshot of the document under `uri`, if it is open: later changes
    /// to the store leave it as it is.
    pub fn get(&self, uri: &String) -> (r: Option<Document>)
        ensures
            r is None <==> !self@.contains_key(uri@),
            r matches Some(d) ==> d@ == self@[uri@],
    {
        match (document_buffer(&self.documents, uri), document_version(&self.documents, uri)) {
            (Some(buffer), Some(version)) => Some(Document { buffer, version }),
            _ => None,
        }
    }

    /// Opens the document `uri` with `text` at `version`, in place of any
    /// document there.
    pub fn open(&mut self, uri: String, text: &str, version: i32)
        ensures
            final(self)@ == old(self)@.insert(uri@, DocumentView { text: text@, version: version as int }),
    {
        insert_document(&mut self.documents, uri, Document { buffer: TextBuffer::from_text(text), version });
    }

    /// Closes the document `uri`; closing one that is not open does nothing.
    pub fn close(&mut self, uri: &String)
        ensures
            final(self)@ == old(self)@.remove(uri@),
    {
        remove_document(&mut self.documents, uri);
    }

    /// Whether every edit of `changes` fits the text it meets in document
    /// `uri`, which `apply_changes` asks of its caller.
    pub fn changes_fit(&self, uri: &String, changes: &Vec<TextChange>) -> (b: bool)
        ensures
            b == edits_fit(self@, uri@, changes@),
    {
        match self.get(uri) {
            Some(d) => replay_on(&d.buffer, changes).is_some(),
            None => true,
        }
    }

    /// Applies the edits of one change notification to the open document
    /// `uri`, in order, and sets its version to `version`; no edits change
    /// nothing. A document that is not open is reported missing, and nothing
    /// changes. Each edit must fit the text it meets: a range outside it is
    /// the caller's error.
    pub fn apply_changes(&mut self, uri: &String, changes: &Vec<TextChange>, version: i32) -> (r:
        Result<(), SessionError>)
        requires
            edits_fit(old(self)@, uri@, changes@),
        ensures
            match after_changes(old(self)@, uri@, changes@, version as int) {
                Ok(m) => r is Ok && final(self)@ == m,
                Err(e) => r == Err::<(), SessionError>(e) && final(self)@ == old(self)@,
            },
    {
        let updated = match self.get(uri) {
            Some(d) => replay_on(&d.buffer, changes),
            None => return Err(SessionError::MissingDocument),
        };
        match updated {
            Some(buffer) => {
                if changes.len() > 0 {
                    insert_document(&mut self.documents, uri.clone(), Document { buffer, version });
                }
                Ok(())
            },
            None => Err(SessionError::MalformedRequest),
        }
    }
}

} // verus!
