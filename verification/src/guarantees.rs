//! What the runtime guarantees over any run of events, each statement with
//! its proof.

use crate::client::{
    document_pending, document_reaction, message_pending, message_reaction, request_pending,
    Ignored, PolledView, ReactionView, RequestDataView,
};
use crate::json::{json_parse, DocumentView};
use std::task::Waker;
use vstd::prelude::*;

verus! {

/// The pending requests after the cells `cells` were submitted one after
/// another, the `i`-th under the drawn identifier `ids[i]`.
pub open spec fn submit_all<C>(pending: Map<u128, C>, ids: Seq<u128>, cells: Seq<C>) -> Map<
    u128,
    C,
>
    decreases ids.len(),
{
    if ids.len() == 0 || cells.len() != ids.len() {
        pending
    } else {
        request_pending(
            submit_all(pending, ids.drop_last(), cells.drop_last()),
            ids.last(),
            cells.last(),
        )
    }
}

/// Whether each of the submissions was accepted: its identifier was free
/// when it was drawn.
pub open spec fn all_accepted<C>(pending: Map<u128, C>, ids: Seq<u128>, cells: Seq<C>) -> bool
    decreases ids.len(),
{
    ids.len() == 0 || cells.len() != ids.len() || {
        &&& all_accepted(pending, ids.drop_last(), cells.drop_last())
        &&& !submit_all(pending, ids.drop_last(), cells.drop_last()).contains_key(ids.last())
    }
}

/// The pending requests after the documents `documents` came in one after
/// another.
pub open spec fn deliver_all<C>(pending: Map<u128, C>, documents: Seq<DocumentView>) -> Map<
    u128,
    C,
>
    decreases documents.len(),
{
    if documents.len() == 0 {
        pending
    } else {
        document_pending(deliver_all(pending, documents.drop_last()), documents.last())
    }
}

/// Identifiers are unique: however many requests are accepted one after
/// another, their identifiers differ from one another and from those already
/// in flight, every request that was in flight still is, and each accepted
/// cell is pending under its own identifier.
pub proof fn lemma_accepted_identifiers_differ<C>(
    pending: Map<u128, C>,
    ids: Seq<u128>,
    cells: Seq<C>,
)
    requires
        ids.len() == cells.len(),
        all_accepted(pending, ids, cells),
    ensures
        ids.no_duplicates(),
        forall|i: int| 0 <= i < ids.len() ==> !pending.contains_key(#[trigger] ids[i]),
        forall|i: int|
            0 <= i < ids.len() ==> {
                &&& submit_all(pending, ids, cells).contains_key(#[trigger] ids[i])
                &&& submit_all(pending, ids, cells)[ids[i]] == cells[i]
            },
        forall|k: u128| #[trigger]
            pending.contains_key(k) ==> {
                &&& submit_all(pending, ids, cells).contains_key(k)
                &&& submit_all(pending, ids, cells)[k] == pending[k]
            },
    decreases ids.len(),
{
    if ids.len() > 0 {
        let front = ids.drop_last();
        let front_cells = cells.drop_last();
        lemma_accepted_identifiers_differ(pending, front, front_cells);
        let before = submit_all(pending, front, front_cells);
        let after = submit_all(pending, ids, cells);
        assert(after == before.insert(ids.last(), cells.last()));
        assert forall|i: int| 0 <= i < ids.len() implies !pending.contains_key(
            #[trigger] ids[i],
        ) by {
            if i < front.len() {
                assert(front[i] == ids[i]);
            }
        }
        assert forall|i: int, j: int| 0 <= i < ids.len() && 0 <= j < ids.len() && i != j implies
            ids[i] != ids[j] by {
            if i < front.len() {
                assert(front[i] == ids[i]);
                assert(before.contains_key(front[i]));
            }
            if j < front.len() {
                assert(front[j] == ids[j]);
                assert(before.contains_key(front[j]));
            }
        }
        assert forall|i: int| 0 <= i < ids.len() implies after.contains_key(#[trigger] ids[i])
            && after[ids[i]] == cells[i] by {
            if i < front.len() {
                assert(front[i] == ids[i]);
                assert(front_cells[i] == cells[i]);
                assert(before.contains_key(front[i]));
            }
        }
    }
}

/// Each response reaches its own request: after any number of requests were
/// accepted, the response that carries the identifier of the `i`-th resolves
/// the cell of the `i`-th.
pub proof fn lemma_response_reaches_its_request<C>(
    pending: Map<u128, C>,
    ids: Seq<u128>,
    cells: Seq<C>,
    i: int,
    resp: DocumentView,
)
    requires
        ids.len() == cells.len(),
        all_accepted(pending, ids, cells),
        0 <= i < ids.len(),
        !resp.is_update(),
        resp.correlation() == Some(ids[i]),
    ensures
        document_reaction(submit_all(pending, ids, cells), resp) == (ReactionView::Resolve {
            data: cells[i],
            resp,
        }),
{
    lemma_accepted_identifiers_differ(pending, ids, cells);
}

/// Responses resolve in any order: where the documents carry, each its own,
/// identifiers of requests in flight, then in whatever order they come in,
/// the `i`-th resolves the cell that was pending under its identifier.
pub proof fn lemma_responses_resolve_in_any_order<C>(
    pending: Map<u128, C>,
    ids: Seq<u128>,
    documents: Seq<DocumentView>,
    i: int,
)
    requires
        ids.len() == documents.len(),
        ids.no_duplicates(),
        forall|j: int| 0 <= j < ids.len() ==> pending.contains_key(#[trigger] ids[j]),
        forall|j: int|
            0 <= j < ids.len() ==> !(#[trigger] documents[j]).is_update()
                && documents[j].correlation() == Some(ids[j]),
        0 <= i < ids.len(),
    ensures
        document_reaction(deliver_all(pending, documents.take(i)), documents[i]) == (
        ReactionView::Resolve { data: pending[ids[i]], resp: documents[i] }),
{
    lemma_delivered(pending, ids, documents, i);
    let gone = ids.take(i);
    assert(!gone.contains(ids[i])) by {
        if gone.contains(ids[i]) {
            let j = choose|j: int| 0 <= j < gone.len() && gone[j] == ids[i];
            assert(ids[j] == ids[i]);
        }
    }
}

/// After the first `n` of the documents came in, exactly the requests under
/// their identifiers have left the map.
proof fn lemma_delivered<C>(
    pending: Map<u128, C>,
    ids: Seq<u128>,
    documents: Seq<DocumentView>,
    n: int,
)
    requires
        ids.len() == documents.len(),
        forall|j: int|
            0 <= j < ids.len() ==> !(#[trigger] documents[j]).is_update()
                && documents[j].correlation() == Some(ids[j]),
        0 <= n <= ids.len(),
    ensures
        forall|k: u128| #[trigger]
            deliver_all(pending, documents.take(n)).contains_key(k) <==> pending.contains_key(k)
                && !ids.take(n).contains(k),
        forall|k: u128| #[trigger]
            deliver_all(pending, documents.take(n)).contains_key(k) ==> deliver_all(
                pending,
                documents.take(n),
            )[k] == pending[k],
    decreases n,
{
    if n > 0 {
        lemma_delivered(pending, ids, documents, n - 1);
        assert(documents.take(n).drop_last() == documents.take(n - 1));
        assert(documents.take(n).last() == documents[n - 1]);
        let before = deliver_all(pending, documents.take(n - 1));
        let after = deliver_all(pending, documents.take(n));
        assert(after == before.remove(ids[n - 1]));
        let gone = ids.take(n);
        let gone_before = ids.take(n - 1);
        assert forall|k: u128| #[trigger]
            after.contains_key(k) <==> pending.contains_key(k) && !gone.contains(k) by {
            if gone.contains(k) {
                let j = choose|j: int| 0 <= j < gone.len() && gone[j] == k;
                if j < n - 1 {
                    assert(gone_before[j] == k);
                }
            }
            if gone_before.contains(k) {
                let j = choose|j: int| 0 <= j < gone_before.len() && gone_before[j] == k;
                assert(gone[j] == k);
            }
            if k == ids[n - 1] {
                assert(gone[n - 1] == k);
            }
        }
    } else {
        assert(documents.take(0).len() == 0);
        assert(ids.take(0).len() == 0);
    }
}

/// Updates and responses never mix: a document is handed to the handler if
/// and only if it is an update, and an update leaves every pending request
/// as it is.
pub proof fn lemma_update_routing<C>(pending: Map<u128, C>, document: DocumentView)
    ensures
        document.is_update() ==> document_reaction(pending, document) == ReactionView::<
            C,
        >::Update(document),
        document.is_update() ==> document_pending(pending, document) == pending,
        !document.is_update() ==> !(document_reaction(pending, document) is Update),
{
}

/// An unknown identifier does no harm: a response under whose identifier
/// nothing is pending is dropped and leaves the pending requests as they
/// are, so that whatever comes in later is handled as if it had never come.
pub proof fn lemma_unknown_id_changes_nothing<C>(
    pending: Map<u128, C>,
    resp: DocumentView,
    id: u128,
    later: DocumentView,
)
    requires
        !resp.is_update(),
        resp.correlation() == Some(id),
        !pending.contains_key(id),
    ensures
        document_reaction(pending, resp) == ReactionView::<C>::Ignore(Ignored::UnknownId(id)),
        document_pending(pending, resp) == pending,
        document_reaction(document_pending(pending, resp), later) == document_reaction(
            pending,
            later,
        ),
        document_pending(document_pending(pending, resp), later) == document_pending(
            pending,
            later,
        ),
{
    assert(pending.remove(id) =~= pending);
}

/// A malformed message does no harm: a text that is no JSON is dropped and
/// leaves the pending requests as they are, so that whatever comes in later
/// is handled as if it had never come.
pub proof fn lemma_malformed_changes_nothing<C>(
    pending: Map<u128, C>,
    text: Seq<char>,
    later: Seq<char>,
)
    requires
        json_parse(text) is None,
    ensures
        message_reaction(pending, text) == ReactionView::<C>::Ignore(Ignored::Malformed),
        message_pending(pending, text) == pending,
        message_reaction(message_pending(pending, text), later) == message_reaction(
            pending,
            later,
        ),
        message_pending(message_pending(pending, text), later) == message_pending(pending, later),
{
}

/// A resolved cell is ready: once a response was stored, whatever its shape,
/// every poll gives that response and leaves the cell as it is.
pub proof fn lemma_resolved_cell_is_ready(cell: RequestDataView, resp: DocumentView, waker: Waker)
    ensures
        cell.resolve(resp).polled() == PolledView::Ready(resp),
        cell.resolve(resp).poll(waker) == cell.resolve(resp),
{
}

/// A cell that nobody polls takes its response all the same: resolving a
/// cell without a waker stores the response and wakes nobody, and a cell
/// that nobody polls afterwards keeps it.
pub proof fn lemma_unpolled_cell_takes_response(cell: RequestDataView, resp: DocumentView)
    requires
        cell.waker is None,
    ensures
        !cell.wakes(),
        cell.resolve(resp) == (RequestDataView { resp: Some(resp), waker: None }),
{
}

} // verus!
