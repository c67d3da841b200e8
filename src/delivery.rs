use vstd::prelude::*;

use crate::async_handler::{routes_to, ChannelStatus, HandlerModel, PayloadView, ResponseView};

verus! {

/// How many responses in `s` carry the identifier `id`.
pub open spec fn count_matching(s: Seq<ResponseView>, id: Seq<char>) -> nat
    decreases s.len(),
{
    if s.len() == 0 {
        0
    } else {
        count_matching(s.drop_last(), id) + if s.last().id == id {
            1nat
        } else {
            0nat
        }
    }
}

/// The identifier of the request in flight under `ticket`.
pub open spec fn ticket_id(m: HandlerModel, ticket: u64) -> Seq<char> {
    m.outstanding[m.position(ticket)].1
}

/// The state after the completions in `order` are reported one after another.
pub open spec fn complete_all(m: HandlerModel, order: Seq<(u64, Option<PayloadView>)>) -> HandlerModel
    decreases order.len(),
{
    if order.len() == 0 {
        m
    } else {
        complete_all(m.after_complete(order[0].0, order[0].1), order.drop_first())
    }
}

proof fn lemma_count_none(s: Seq<ResponseView>, id: Seq<char>)
    requires
        forall|i: int| 0 <= i < s.len() ==> #[trigger] s[i].id != id,
    ensures
        count_matching(s, id) == 0,
    decreases s.len(),
{
    if s.len() > 0 {
        lemma_count_none(s.drop_last(), id);
    }
}

proof fn lemma_count_push(s: Seq<ResponseView>, x: ResponseView, id: Seq<char>)
    ensures
        count_matching(s.push(x), id) == count_matching(s, id) + if x.id == id {
            1nat
        } else {
            0nat
        },
{
    assert(s.push(x).drop_last() =~= s);
}

proof fn lemma_position(m: HandlerModel, ticket: u64, j: int)
    requires
        m.wf(),
        0 <= j < m.outstanding.len(),
        m.outstanding[j].0 == ticket,
    ensures
        m.is_outstanding(ticket),
        m.position(ticket) == j,
{
    assert(m.outstanding[j].0 == ticket);
    let k = m.position(ticket);
    assert(0 <= k < m.outstanding.len() && m.outstanding[k].0 == ticket);
}

/// Dispatching keeps tickets distinct.
pub proof fn lemma_dispatch_wf(m: HandlerModel, id: Seq<char>)
    requires
        m.wf(),
    ensures
        m.after_dispatch(id).wf(),
{
    let m1 = m.after_dispatch(id);
    if m.dispatch_result() is Ok {
        assert forall|i: int| 0 <= i < m1.outstanding.len() implies #[trigger] m1.outstanding[i].0
            < m1.next_ticket by {
            if i < m.outstanding.len() {
                assert(m1.outstanding[i] == m.outstanding[i]);
            }
        }
        assert forall|i: int, j: int|
            0 <= i < m1.outstanding.len() && 0 <= j < m1.outstanding.len() && i != j
                implies #[trigger] m1.outstanding[i].0 != #[trigger] m1.outstanding[j].0 by {
            if i < m.outstanding.len() {
                assert(m1.outstanding[i] == m.outstanding[i]);
            }
            if j < m.outstanding.len() {
                assert(m1.outstanding[j] == m.outstanding[j]);
            }
        }
    }
}

/// Reporting a completion keeps tickets distinct, and leaves every other
/// request in flight with its identifier.
pub proof fn lemma_complete_keeps_others(
    m: HandlerModel,
    ticket: u64,
    payload: Option<PayloadView>,
    other: u64,
)
    requires
        m.wf(),
        m.is_outstanding(other),
        other != ticket,
    ensures
        m.after_complete(ticket, payload).wf(),
        m.after_complete(ticket, payload).is_outstanding(other),
        ticket_id(m.after_complete(ticket, payload), other) == ticket_id(m, other),
{
    lemma_complete_wf(m, ticket, payload);
    let m1 = m.after_complete(ticket, payload);
    let j = m.position(other);
    if m.is_outstanding(ticket) {
        let k = m.position(ticket);
        let j1 = if j < k {
            j
        } else {
            j - 1
        };
        assert(j != k);
        assert(m1.outstanding[j1] == m.outstanding[j]);
        lemma_position(m1, other, j1);
    }
}

/// Reporting a completion keeps tickets distinct.
pub proof fn lemma_complete_wf(m: HandlerModel, ticket: u64, payload: Option<PayloadView>)
    requires
        m.wf(),
    ensures
        m.after_complete(ticket, payload).wf(),
{
    let m1 = m.after_complete(ticket, payload);
    if m.is_outstanding(ticket) {
        let k = m.position(ticket);
        assert forall|i: int| 0 <= i < m1.outstanding.len() implies #[trigger] m1.outstanding[i].0
            < m1.next_ticket by {
            if i < k {
                assert(m1.outstanding[i] == m.outstanding[i]);
            } else {
                assert(m1.outstanding[i] == m.outstanding[i + 1]);
            }
        }
        assert forall|i: int, j: int|
            0 <= i < m1.outstanding.len() && 0 <= j < m1.outstanding.len() && i != j
                implies #[trigger] m1.outstanding[i].0 != #[trigger] m1.outstanding[j].0 by {
            let i0 = if i < k {
                i
            } else {
                i + 1
            };
            let j0 = if j < k {
                j
            } else {
                j + 1
            };
            assert(m1.outstanding[i] == m.outstanding[i0]);
            assert(m1.outstanding[j] == m.outstanding[j0]);
        }
    }
}

/// A request dispatched under an identifier that no other request in flight
/// and no waiting response carries is answered by exactly one response with
/// that identifier, unchanged, once it completes.
pub proof fn lemma_unique_request_answered_once(
    m: HandlerModel,
    id: Seq<char>,
    payload: Option<PayloadView>,
)
    requires
        m.wf(),
        m.channel == ChannelStatus::Open,
        m.next_ticket < u64::MAX,
        forall|i: int| 0 <= i < m.outstanding.len() ==> #[trigger] m.outstanding[i].1 != id,
        forall|i: int| 0 <= i < m.inbox.len() ==> #[trigger] m.inbox[i].id != id,
    ensures
        m.dispatch_result() == Ok::<u64, crate::async_handler::DispatchError>(m.next_ticket),
        ({
            let done = m.after_dispatch(id).after_complete(m.next_ticket, payload);
            &&& count_matching(done.inbox, id) == 1
            &&& done.inbox.last() == ResponseView { id, payload }
            &&& routes_to(done.inbox.last(), id)
            &&& !done.is_outstanding(m.next_ticket)
        }),
{
    let t = m.next_ticket;
    let m1 = m.after_dispatch(id);
    lemma_dispatch_wf(m, id);
    let last = m.outstanding.len() as int;
    assert(m1.outstanding[last] == (t, id));
    lemma_position(m1, t, last);
    let done = m1.after_complete(t, payload);
    assert(done.inbox == m.inbox.push(ResponseView { id, payload }));
    lemma_count_none(m.inbox, id);
    lemma_count_push(m.inbox, ResponseView { id, payload }, id);
    lemma_complete_wf(m1, t, payload);
    assert(m1.outstanding.remove(last) =~= m.outstanding);
    if done.is_outstanding(t) {
        let k = done.position(t);
        assert(done.outstanding[k] == m.outstanding[k]);
    }
}

/// Two requests dispatched under one identifier yield two responses under that
/// same identifier, and which completes first decides only the order of the
/// payloads: a response site expecting the identifier accepts both and cannot
/// tell which request each one answers.
pub proof fn lemma_shared_identifier_ambiguous(
    m: HandlerModel,
    id: Seq<char>,
    a: Option<PayloadView>,
    b: Option<PayloadView>,
)
    requires
        m.wf(),
        m.channel == ChannelStatus::Open,
        m.next_ticket + 2 <= u64::MAX,
    ensures
        ({
            let first = m.next_ticket;
            let second = (m.next_ticket + 1) as u64;
            let both = m.after_dispatch(id).after_dispatch(id);
            let in_order = both.after_complete(first, a).after_complete(second, b);
            let reversed = both.after_complete(second, b).after_complete(first, a);
            &&& in_order.inbox == m.inbox.push(ResponseView { id, payload: a }).push(
                ResponseView { id, payload: b },
            )
            &&& reversed.inbox == m.inbox.push(ResponseView { id, payload: b }).push(
                ResponseView { id, payload: a },
            )
            &&& routes_to(in_order.inbox[m.inbox.len() as int], id)
            &&& routes_to(in_order.inbox[m.inbox.len() as int + 1], id)
            &&& routes_to(reversed.inbox[m.inbox.len() as int], id)
            &&& routes_to(reversed.inbox[m.inbox.len() as int + 1], id)
        }),
{
    let first = m.next_ticket;
    let second = (m.next_ticket + 1) as u64;
    let m1 = m.after_dispatch(id);
    lemma_dispatch_wf(m, id);
    let both = m1.after_dispatch(id);
    lemma_dispatch_wf(m1, id);
    let n = m.outstanding.len() as int;
    assert(both.outstanding[n] == (first, id));
    assert(both.outstanding[n + 1] == (second, id));
    lemma_position(both, first, n);
    lemma_position(both, second, n + 1);

    let x = both.after_complete(first, a);
    lemma_complete_keeps_others(both, first, a, second);
    assert(x.inbox == m.inbox.push(ResponseView { id, payload: a }));
    let y = both.after_complete(second, b);
    lemma_complete_keeps_others(both, second, b, first);
    assert(y.inbox == m.inbox.push(ResponseView { id, payload: b }));
}

/// Every request in flight, completed in any order, is answered: nothing is
/// dropped, and the i-th response that arrives carries the identifier of the
/// i-th request to complete, with its payload.
pub proof fn lemma_all_completions_delivered(
    m: HandlerModel,
    order: Seq<(u64, Option<PayloadView>)>,
)
    requires
        m.wf(),
        m.channel == ChannelStatus::Open,
        order.len() == m.outstanding.len(),
        forall|i: int| 0 <= i < order.len() ==> m.is_outstanding(#[trigger] order[i].0),
        forall|i: int, j: int|
            0 <= i < order.len() && 0 <= j < order.len() && i != j ==> #[trigger] order[i].0
                != #[trigger] order[j].0,
    ensures
        ({
            let done = complete_all(m, order);
            &&& done.outstanding.len() == 0
            &&& done.inbox.len() == m.inbox.len() + order.len()
            &&& done.inbox.subrange(0, m.inbox.len() as int) == m.inbox
            &&& forall|i: int|
                0 <= i < order.len() ==> #[trigger] done.inbox[m.inbox.len() + i] == ResponseView {
                    id: ticket_id(m, order[i].0),
                    payload: order[i].1,
                }
        }),
    decreases order.len(),
{
    if order.len() == 0 {
        assert(m.inbox.subrange(0, m.inbox.len() as int) =~= m.inbox);
    } else {
        let t = order[0].0;
        let m1 = m.after_complete(t, order[0].1);
        lemma_complete_wf(m, t, order[0].1);
        let k = m.position(t);
        assert(m1.inbox == m.inbox.push(ResponseView { id: ticket_id(m, t), payload: order[0].1 }));
        let rest = order.drop_first();
        assert forall|i: int| 0 <= i < rest.len() implies m1.is_outstanding(#[trigger] rest[i].0)
            && ticket_id(m1, rest[i].0) == ticket_id(m, rest[i].0) by {
            assert(rest[i] == order[i + 1]);
            assert(order[i + 1].0 != order[0].0);
            lemma_complete_keeps_others(m, t, order[0].1, rest[i].0);
        }
        assert forall|i: int, j: int|
            0 <= i < rest.len() && 0 <= j < rest.len() && i != j implies #[trigger] rest[i].0
                != #[trigger] rest[j].0 by {
            assert(rest[i] == order[i + 1]);
            assert(rest[j] == order[j + 1]);
        }
        lemma_all_completions_delivered(m1, rest);
        let done = complete_all(m, order);
        assert(done == complete_all(m1, rest));
        assert(done.inbox.subrange(0, m1.inbox.len() as int) == m1.inbox);
        assert forall|i: int| 0 <= i < m.inbox.len() implies #[trigger] done.inbox[i] == m.inbox[i] by {
            assert(done.inbox.subrange(0, m1.inbox.len() as int)[i] == m1.inbox[i]);
        }
        assert(done.inbox.subrange(0, m.inbox.len() as int) =~= m.inbox);
        assert forall|i: int| 0 <= i < order.len() implies #[trigger] done.inbox[m.inbox.len() + i]
            == ResponseView { id: ticket_id(m, order[i].0), payload: order[i].1 } by {
            if i == 0 {
                assert(done.inbox.subrange(0, m1.inbox.len() as int)[m.inbox.len() as int]
                    == m1.inbox[m.inbox.len() as int]);
            } else {
                assert(rest[i - 1] == order[i]);
                assert(done.inbox[m1.inbox.len() + (i - 1)] == ResponseView {
                    id: ticket_id(m1, rest[i - 1].0),
                    payload: rest[i - 1].1,
                });
            }
        }
    }
}

} // verus!
