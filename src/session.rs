//! The session engine. It keeps the documents in step with the editor's
//! notifications, turns completion and rewrite requests into jobs for a
//! generation backend, and turns what the backend gave back into replies.
//! Whoever runs the loop performs the jobs and hands their outcomes in.

use vstd::prelude::*;

use crate::error::SessionError;
use crate::store::{after_changes, edits_fit, text_of, DocumentStore, DocumentView, TextChange};
use crate::tasks::{RequestKey, RequestKeyView, TaskRegistry};
use crate::text::{char_offset, range_offsets, Position, Range};

verus! {

/// One completion candidate: text to insert over `range`.
pub struct CompletionItem {
    pub insert_text: String,
    pub range: Range,
}

#[derive(Clone, Copy, PartialEq, Eq, Structural, Debug)]
pub enum FailureKind {
    /// The request was well formed, but could not be served.
    RequestFailed,
    /// The request's arguments do not fit the document.
    InvalidRequest,
}

/// A response to a request.
pub enum Reply {
    Completions { id: RequestKey, items: Vec<CompletionItem> },
    Acknowledged { id: RequestKey },
    Failed { id: RequestKey, kind: FailureKind, message: String },
}

/// An edit that the server asks the editor to apply to version `version` of
/// document `uri`.
pub struct EditRequest {
    pub uri: String,
    pub version: i32,
    pub range: Range,
    pub new_text: String,
}

/// The work behind a completion request: the text before and after the
/// cursor, to be handed to a completion backend.
pub struct InfillJob {
    pub id: RequestKey,
    pub position: Position,
    pub prefix: String,
    pub suffix: String,
}

/// The work behind a rewrite request: the selection, what stands around it
/// and the prompt, to be rendered into messages for a chat backend, and the
/// version of the document they were taken from.
pub struct RewriteJob {
    pub id: RequestKey,
    pub uri: String,
    pub range: Range,
    pub version: i32,
    pub prompt: String,
    pub selection: String,
    pub prefix: String,
    pub suffix: String,
}

pub struct SessionView {
    pub documents: Map<Seq<char>, DocumentView>,
    pub pending: Set<RequestKeyView>,
}

/// The candidates that are worth offering, in order: the non-empty ones.
pub open spec fn completion_texts(cands: Seq<String>) -> Seq<Seq<char>>
    decreases cands.len(),
{
    if cands.len() == 0 {
        Seq::empty()
    } else {
        let rest = completion_texts(cands.drop_last());
        if cands.last()@.len() > 0 {
            rest.push(cands.last()@)
        } else {
            rest
        }
    }
}

pub proof fn lemma_completion_texts_nonempty(cands: Seq<String>)
    ensures
        forall|i: int|
            0 <= i < completion_texts(cands).len() ==> #[trigger] completion_texts(cands)[i].len()
                > 0,
    decreases cands.len(),
{
    if cands.len() > 0 {
        let rest = completion_texts(cands.drop_last());
        lemma_completion_texts_nonempty(cands.drop_last());
        if cands.last()@.len() > 0 {
            assert forall|i: int| 0 <= i < rest.len() + 1 implies #[trigger] rest.push(
                cands.last()@,
            )[i].len() > 0 by {
                if i < rest.len() {
                    assert(rest[i].len() > 0);
                }
            }
        }
    }
}

/// Whether an edit computed against version `version` of `uri` still fits
/// the documents: the document is open and has not changed version since.
pub open spec fn edit_allowed(docs: Map<Seq<char>, DocumentView>, uri: Seq<char>, version: int) -> bool {
    docs.contains_key(uri) && docs[uri].version == version
}

/// The text that a finished rewrite puts over its selection: the first reply,
/// if there is one and the edit still fits the documents.
pub open spec fn rewrite_edit(
    docs: Map<Seq<char>, DocumentView>,
    uri: Seq<char>,
    version: int,
    choices: Seq<String>,
) -> Option<Seq<char>> {
    if choices.len() > 0 && edit_allowed(docs, uri, version) {
        Some(choices[0]@)
    } else {
        None
    }
}

impl SessionError {
    /// How the error is reported to the editor.
    pub fn failure_kind(&self) -> (k: FailureKind)
        ensures
            *self == SessionError::MissingDocument ==> k == FailureKind::RequestFailed,
            *self == SessionError::MalformedRequest ==> k == FailureKind::InvalidRequest,
    {
        match self {
            SessionError::MissingDocument => FailureKind::RequestFailed,
            SessionError::MalformedRequest => FailureKind::InvalidRequest,
        }
    }
}

pub struct Session {
    documents: DocumentStore,
    tasks: TaskRegistry,
}

impl View for Session {
    type V = SessionView;

    closed spec fn view(&self) -> SessionView {
        SessionView { documents: self.documents@, pending: self.tasks@ }
    }
}

impl Session {
    pub closed spec fn wf(&self) -> bool {
        self.tasks.wf()
    }

    /// A session with no documents and no requests in flight.
    pub fn new() -> (s: Session)
        ensures
            s.wf(),
            s@.documents == Map::<Seq<char>, DocumentView>::empty(),
            s@.pending == Set::<RequestKeyView>::empty(),
    {
        Session { documents: DocumentStore::new(), tasks: TaskRegistry::new() }
    }

    pub fn documents(&self) -> (d: &DocumentStore)
        requires
            self.wf(),
        ensures
            d@ == self@.documents,
    {
        &self.documents
    }

    /// Whether the work of request `id` is still in flight.
    pub fn is_pending(&self, id: &RequestKey) -> (b: bool)
        requires
            self.wf(),
        ensures
            b == self@.pending.contains(id@),
    {
        self.tasks.contains(id)
    }

    /// The editor opened `uri` with `text` at `version`.
    pub fn did_open_text_document(&mut self, uri: String, text: &str, version: i32)
        requires
            old(self).wf(),
        ensures
            final(self).wf(),
            final(self)@.documents == old(self)@.documents.insert(
                uri@,
                DocumentView { text: text@, version: version as int },
            ),
            final(self)@.pending == old(self)@.pending,
    {
        self.documents.open(uri, text, version);
    }

    /// The editor closed `uri`. Work in flight for it goes on, and finds it
    /// gone.
    pub fn did_close_text_document(&mut self, uri: &String)
        requires
            old(self).wf(),
        ensures
            final(self).wf(),
            final(self)@.documents == old(self)@.documents.remove(uri@),
            final(self)@.pending == old(self)@.pending,
    {
        self.documents.close(uri);
    }

    /// Whether every edit of `changes` fits the text it meets in document
    /// `uri`, which `did_change_text_document` asks of its caller.
    pub fn changes_fit(&self, uri: &String, changes: &Vec<TextChange>) -> (b: bool)
        requires
            self.wf(),
        ensures
            b == edits_fit(self@.documents, uri@, changes@),
    {
        self.documents.changes_fit(uri, changes)
    }

    /// The editor changed `uri` by `changes`, which bring it to `version`. A
    /// document that is not open is reported missing. An edit whose range
    /// does not lie in the text it meets is the caller's error.
    pub fn did_change_text_document(
        &mut self,
        uri: &String,
        changes: &Vec<TextChange>,
        version: i32,
    ) -> (r: Result<(), SessionError>)
        requires
            old(self).wf(),
            edits_fit(old(self)@.documents, uri@, changes@),
        ensures
            final(self).wf(),
            final(self)@.pending == old(self)@.pending,
            match after_changes(old(self)@.documents, uri@, changes@, version as int) {
                Ok(m) => r is Ok && final(self)@.documents == m,
                Err(e) => r == Err::<(), SessionError>(e) && final(self)@.documents == old(
                    self,
                )@.documents,
            },
    {
        self.documents.apply_changes(uri, changes, version)
    }

    /// A completion request `id` at `position` of `uri`: the text is split
    /// at the cursor, and the request is recorded as in flight.
    pub fn inline_completion_request(
        &mut self,
        id: RequestKey,
        uri: &String,
        position: Position,
    ) -> (r: Result<InfillJob, SessionError>)
        requires
            old(self).wf(),
        ensures
            final(self).wf(),
            final(self)@.documents == old(self)@.documents,
            match text_of(old(self)@.documents, uri@) {
                None => r matches Err(SessionError::MissingDocument) && final(self)@.pending == old(
                    self,
                )@.pending,
                Some(t) => match char_offset(t, position) {
                    None => r matches Err(SessionError::MalformedRequest) && final(self)@.pending
                        == old(self)@.pending,
                    Some(o) => r matches Ok(job) && job.id@ == id@ && job.position == position
                        && job.prefix@ == t.take(o as int) && job.suffix@ == t.skip(o as int)
                        && final(self)@.pending == old(self)@.pending.insert(id@),
                },
            },
    {
        let doc = match self.documents.get(uri) {
            Some(d) => d,
            None => return Err(SessionError::MissingDocument),
        };
        let offset = match doc.buffer.offset_of(position) {
            Some(o) => o,
            None => return Err(SessionError::MalformedRequest),
        };
        let n = doc.buffer.len_chars();
        let prefix = doc.buffer.slice(0, offset);
        let suffix = doc.buffer.slice(offset, n);
        proof {
            assert(doc.buffer@.subrange(0, offset as int) =~= doc.buffer@.take(offset as int));
            assert(doc.buffer@.subrange(offset as int, n as int) =~= doc.buffer@.skip(
                offset as int,
            ));
        }
        let job = InfillJob { id: id.duplicate(), position, prefix, suffix };
        self.tasks.register(id);
        Ok(job)
    }

    /// The backend finished the completion request `id` made at `position`.
    /// If the request was cancelled meanwhile nothing is sent; else the
    /// non-empty candidates go back as insertions at the cursor, or the
    /// backend's error as a failure. Either way the request is no longer in
    /// flight.
    pub fn infill_finished(
        &mut self,
        id: RequestKey,
        position: Position,
        outcome: Result<Vec<String>, String>,
    ) -> (r: Option<Reply>)
        requires
            old(self).wf(),
        ensures
            final(self).wf(),
            final(self)@.documents == old(self)@.documents,
            final(self)@.pending == old(self)@.pending.remove(id@),
            !old(self)@.pending.contains(id@) ==> r is None,
            old(self)@.pending.contains(id@) ==> match outcome {
                Ok(cands) => r matches Some(Reply::Completions { id: k, items }) && k@ == id@
                    && items@.len() == completion_texts(cands@).len() && forall|i: int|
                    0 <= i < items@.len() ==> (#[trigger] items@[i]).insert_text@
                        == completion_texts(cands@)[i] && items@[i].insert_text@.len() > 0
                        && items@[i].range == (Range { start: position, end: position }),
                Err(m) => r matches Some(Reply::Failed { id: k, kind, message }) && k@ == id@
                    && kind == FailureKind::RequestFailed && message@ == m@,
            },
    {
        if !self.tasks.remove(&id) {
            return None;
        }
        match outcome {
            Ok(cands) => {
                proof {
                    lemma_completion_texts_nonempty(cands@);
                }
                let range = Range::collapsed(position);
                let mut items: Vec<CompletionItem> = Vec::new();
                let mut k: usize = 0;
                while k < cands.len()
                    invariant
                        k <= cands@.len(),
                        range == (Range { start: position, end: position }),
                        items@.len() == completion_texts(cands@.take(k as int)).len(),
                        forall|i: int|
                            0 <= i < items@.len() ==> (#[trigger] items@[i]).insert_text@
                                == completion_texts(cands@.take(k as int))[i] && items@[i].range
                                == range,
                    decreases cands@.len() - k,
                {
                    assert(cands@.take(k + 1).drop_last() =~= cands@.take(k as int));
                    assert(cands@.take(k + 1).last() == cands@[k as int]);
                    if !cands[k].as_str().is_empty() {
                        items.push(CompletionItem { insert_text: cands[k].clone(), range });
                    }
                    k = k + 1;
                }
                assert(cands@.take(k as int) =~= cands@);
                Some(Reply::Completions { id, items })
            },
            Err(message) => Some(
                Reply::Failed { id, kind: FailureKind::RequestFailed, message },
            ),
        }
    }

    /// A rewrite request `id` for `range` of `uri` with `prompt`: the
    /// selection and what stands around it are taken, with the document's
    /// version, and the request is recorded as in flight.
    pub fn rewrite(&mut self, id: RequestKey, uri: String, range: Range, prompt: String) -> (r:
        Result<RewriteJob, SessionError>)
        requires
            old(self).wf(),
        ensures
            final(self).wf(),
            final(self)@.documents == old(self)@.documents,
            match text_of(old(self)@.documents, uri@) {
                None => r matches Err(SessionError::MissingDocument) && final(self)@.pending == old(
                    self,
                )@.pending,
                Some(t) => match range_offsets(t, range) {
                    None => r matches Err(SessionError::MalformedRequest) && final(self)@.pending
                        == old(self)@.pending,
                    Some((a, b)) => r matches Ok(job) && job.id@ == id@ && job.uri@ == uri@
                        && job.range == range && job.version == old(self)@.documents[uri@].version
                        && job.prompt@ == prompt@ && job.selection@ == t.subrange(a as int, b as int)
                        && job.prefix@ == t.take(a as int) && job.suffix@ == t.skip(b as int)
                        && final(self)@.pending == old(self)@.pending.insert(id@),
                },
            },
    {
        let doc = match self.documents.get(&uri) {
            Some(d) => d,
            None => return Err(SessionError::MissingDocument),
        };
        let (start, end) = match doc.buffer.range_of(range) {
            Some(o) => o,
            None => return Err(SessionError::MalformedRequest),
        };
        let n = doc.buffer.len_chars();
        let selection = doc.buffer.slice(start, end);
        let prefix = doc.buffer.slice(0, start);
        let suffix = doc.buffer.slice(end, n);
        let version = doc.version;
        proof {
            assert(doc.buffer@.subrange(0, start as int) =~= doc.buffer@.take(start as int));
            assert(doc.buffer@.subrange(end as int, n as int) =~= doc.buffer@.skip(end as int));
        }
        let job = RewriteJob {
            id: id.duplicate(),
            uri,
            range,
            version,
            prompt,
            selection,
            prefix,
            suffix,
        };
        self.tasks.register(id);
        Ok(job)
    }

    /// The backend finished the rewrite request `id`, which was taken from
    /// version `version` of `uri` over `range`. If the request was cancelled
    /// meanwhile nothing is sent. On success the request is acknowledged, and
    /// the first reply goes to the editor as an edit of the selection, but
    /// only while the document is open at that same version: an edit computed
    /// against text that has since changed is dropped. On failure the
    /// backend's error goes back instead. Either way the request is no longer
    /// in flight.
    pub fn rewrite_finished(
        &mut self,
        id: RequestKey,
        uri: String,
        range: Range,
        version: i32,
        outcome: Result<Vec<String>, String>,
    ) -> (r: (Option<Reply>, Option<EditRequest>))
        requires
            old(self).wf(),
        ensures
            final(self).wf(),
            final(self)@.documents == old(self)@.documents,
            final(self)@.pending == old(self)@.pending.remove(id@),
            !old(self)@.pending.contains(id@) ==> r.0 is None && r.1 is None,
            old(self)@.pending.contains(id@) ==> match outcome {
                Ok(choices) => r.0 matches Some(Reply::Acknowledged { id: k }) && k@ == id@ && (
                r.1 is None <==> rewrite_edit(
                    old(self)@.documents,
                    uri@,
                    version as int,
                    choices@,
                ) is None),
                Err(m) => r.0 matches Some(Reply::Failed { id: k, kind, message }) && k@ == id@
                    && kind == FailureKind::RequestFailed && message@ == m@ && r.1 is None,
            },
            r.1 matches Some(e) ==> outcome matches Ok(choices) && rewrite_edit(
                old(self)@.documents,
                uri@,
                version as int,
                choices@,
            ) == Some(e.new_text@) && e.uri@ == uri@ && e.version == version && e.range == range,
    {
        if !self.tasks.remove(&id) {
            return (None, None);
        }
        match outcome {
            Ok(choices) => {
                let reply = Reply::Acknowledged { id };
                if choices.len() == 0 {
                    return (Some(reply), None);
                }
                let current = match self.documents.get(&uri) {
                    Some(d) => d.version == version,
                    None => false,
                };
                if !current {
                    return (Some(reply), None);
                }
                let new_text = choices[0].clone();
                (Some(reply), Some(EditRequest { uri, version, range, new_text }))
            },
            Err(message) => (
                Some(Reply::Failed { id, kind: FailureKind::RequestFailed, message }),
                None,
            ),
        }
    }

    /// The editor cancelled request `id`. Its work, if still in flight, is no
    /// longer so, and the answer says whether it must be told to stop; once
    /// the work has finished, cancelling does nothing.
    pub fn cancel(&mut self, id: &RequestKey) -> (cancelled: bool)
        requires
            old(self).wf(),
        ensures
            final(self).wf(),
            final(self)@.documents == old(self)@.documents,
            cancelled == old(self)@.pending.contains(id@),
            final(self)@.pending == old(self)@.pending.remove(id@),
    {
        self.tasks.cancel(id)
    }
}

} // verus!
