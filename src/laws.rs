//! Properties that relate several operations of the session.

use vstd::prelude::*;

use crate::error::SessionError;
use crate::session::rewrite_edit;
use crate::store::{
    after_changes, lemma_replay_append, replay, DocumentView, TextChange,
};
use crate::tasks::RequestKeyView;

verus! {

/// Change notifications for `uri`, each with its edits and its version,
/// applied to the documents one after another; the first that fails stops.
pub open spec fn after_notifications(
    docs: Map<Seq<char>, DocumentView>,
    uri: Seq<char>,
    notes: Seq<(Seq<TextChange>, int)>,
) -> Result<Map<Seq<char>, DocumentView>, SessionError>
    decreases notes.len(),
{
    if notes.len() == 0 {
        Ok(docs)
    } else {
        match after_changes(docs, uri, notes[0].0, notes[0].1) {
            Err(e) => Err(e),
            Ok(m) => after_notifications(m, uri, notes.drop_first()),
        }
    }
}

/// All the edits of the notifications, in order.
pub open spec fn all_edits(notes: Seq<(Seq<TextChange>, int)>) -> Seq<TextChange> {
    notes.map_values(|n: (Seq<TextChange>, int)| n.0).flatten()
}

/// Replay equivalence: applying change notifications one by one to an open
/// document leaves it with the text that the same edits give, applied in
/// order to the text it had at the start; and where one edit does not fit,
/// both ways fail.
pub proof fn lemma_replay_equivalence(
    docs: Map<Seq<char>, DocumentView>,
    uri: Seq<char>,
    notes: Seq<(Seq<TextChange>, int)>,
)
    requires
        docs.contains_key(uri),
    ensures
        match after_notifications(docs, uri, notes) {
            Ok(m) => m.contains_key(uri) && replay(docs[uri].text, all_edits(notes)) == Some(
                m[uri].text,
            ),
            Err(e) => e == SessionError::MalformedRequest && replay(
                docs[uri].text,
                all_edits(notes),
            ) is None,
        },
    decreases notes.len(),
{
    let f = |n: (Seq<TextChange>, int)| n.0;
    let t = docs[uri].text;
    if notes.len() == 0 {
        assert(all_edits(notes) =~= Seq::<TextChange>::empty());
    } else {
        let first = notes[0].0;
        let rest = notes.drop_first();
        assert(notes.map_values(f).drop_first() =~= rest.map_values(f));
        assert(all_edits(notes) == first + all_edits(rest));
        lemma_replay_append(t, first, all_edits(rest));
        match after_changes(docs, uri, first, notes[0].1) {
            Err(e) => {},
            Ok(m) => {
                assert(replay(t, first) == Some(m[uri].text));
                lemma_replay_equivalence(m, uri, rest);
            },
        }
    }
}

/// A rewrite taken from version `version` of `uri` puts no edit once a change
/// notification has brought the document to another version, nor once the
/// document is closed.
pub proof fn lemma_stale_rewrite_drops_edit(
    docs: Map<Seq<char>, DocumentView>,
    uri: Seq<char>,
    changes: Seq<TextChange>,
    new_version: int,
    version: int,
    choices: Seq<String>,
)
    requires
        changes.len() > 0,
        new_version != version,
    ensures
        after_changes(docs, uri, changes, new_version) matches Ok(m) ==> rewrite_edit(
            m,
            uri,
            version,
            choices,
        ) is None,
        rewrite_edit(docs.remove(uri), uri, version, choices) is None,
{
}

/// Once a request's work has finished and left the registry, cancelling it
/// finds nothing and leaves the registry as it is.
pub proof fn lemma_cancel_after_finish(pending: Set<RequestKeyView>, id: RequestKeyView)
    ensures
        !pending.remove(id).contains(id),
        pending.remove(id).remove(id) == pending.remove(id),
{
    assert(pending.remove(id).remove(id) =~= pending.remove(id));
}

/// Cancelling one request leaves every other request as it was.
pub proof fn lemma_cancel_keeps_others(
    pending: Set<RequestKeyView>,
    cancelled: RequestKeyView,
    other: RequestKeyView,
)
    requires
        cancelled != other,
    ensures
        pending.remove(cancelled).contains(other) == pending.contains(other),
{
}

} // verus!
