//! How connections and streams come to a server and leave it.

use crate::quiche::conn::{
    number_after, ConnOpenHandle, ConnState, DriverEvent, PhpStreamCallbacks, StreamId,
    StreamSlots,
};
use crate::quiche::read_order::open_in;
use vstd::prelude::*;

verus! {

/// A connection, as its server knows it.
pub struct ConnView<C> {
    pub peer_addr: String,
    pub handle: ConnOpenHandle,
    /// The slots of its streams.
    pub slots: Map<StreamId, StreamSlots<C>>,
    /// The number of the next slots.
    pub next_number: u64,
    /// Whether the peer ended the connection, once it has ended.
    pub ending: Option<bool>,
}

/// The connections of a server.
pub struct ServerView<C> {
    pub conns: Map<u64, ConnView<C>>,
    /// The identifier of the next connection.
    pub id_counter: u64,
}

/// The slots of one stream of one connection, told from all others by their number.
pub struct SlotsId {
    pub conn_id: u64,
    pub stream_id: StreamId,
    pub number: u64,
}

impl<C> ConnState<C> {
    pub open spec fn conn_view(&self) -> ConnView<C> {
        ConnView {
            peer_addr: self.peer_addr,
            handle: self.open_handle,
            slots: self.php_stream_callbacks@,
            next_number: self.php_stream_callbacks.next_number,
            ending: self.ending,
        }
    }
}

/// What can happen to the connections and streams of a server.
pub enum Step<C> {
    /// A connection is accepted.
    Accept(ConnView<C>),
    /// A stream of a connection is given slots.
    Open(u64, StreamId),
    /// A stream's slots take in callbacks.
    Install(u64, StreamId, StreamSlots<C>),
    /// The peer ends a stream, which is told at once.
    End(u64, StreamId),
    /// A connection ends; the flag tells whether the peer ended it.
    EndConn(u64, bool),
    /// The server is shut down, which ends every connection.
    Shutdown,
    /// The end of a connection is told to one of its streams.
    Tell(u64, StreamId),
    /// The record of a connection that has ended goes, where there is nothing left to tell.
    Retire(u64),
}

impl<C> ConnView<C> {
    /// The connection once a stream has new, empty slots.
    pub open spec fn open(self, s: StreamId) -> ConnView<C> {
        ConnView {
            slots: self.slots.insert(
                s,
                StreamSlots { number: self.next_number, on_data: None, on_close: None },
            ),
            next_number: number_after(self.next_number),
            ..self
        }
    }

    /// The connection once a stream has ended.
    pub open spec fn end(self, s: StreamId) -> ConnView<C> {
        ConnView { slots: self.slots.remove(s), ..self }
    }

    /// The connection once the server is shut down: it has ended, and not by the peer's doing,
    /// unless it had ended before.
    pub open spec fn shut(self) -> ConnView<C> {
        if self.ending is None {
            ConnView { ending: Some(false), ..self }
        } else {
            self
        }
    }
}

impl<C> ServerView<C> {
    pub open spec fn with(self, conn_id: u64, conn: ConnView<C>) -> ServerView<C> {
        ServerView { conns: self.conns.insert(conn_id, conn), ..self }
    }

    /// The server once the step was taken. A step on a connection or stream that is not there
    /// changes nothing.
    pub open spec fn take(self, step: Step<C>) -> ServerView<C> {
        match step {
            Step::Accept(conn) => ServerView {
                conns: self.conns.insert(self.id_counter, conn),
                id_counter: number_after(self.id_counter),
            },
            Step::Open(c, s) => if self.conns.contains_key(c) {
                self.with(c, self.conns[c].open(s))
            } else {
                self
            },
            Step::Install(c, s, slots) => if self.current(c, s, slots.number) {
                self.with(
                    c,
                    ConnView { slots: self.conns[c].slots.insert(s, slots), ..self.conns[c] },
                )
            } else {
                self
            },
            Step::End(c, s) => if self.serves(c) {
                self.with(c, self.conns[c].end(s))
            } else {
                self
            },
            Step::EndConn(c, peer_closed) => if self.serves(c) {
                self.with(c, ConnView { ending: Some(peer_closed), ..self.conns[c] })
            } else {
                self
            },
            Step::Shutdown => ServerView {
                conns: self.conns.map_values(|conn: ConnView<C>| conn.shut()),
                ..self
            },
            Step::Tell(c, s) => if self.has_stream(c, s) && self.conns[c].ending is Some {
                self.with(c, self.conns[c].end(s))
            } else {
                self
            },
            Step::Retire(c) => if self.conns.contains_key(c) && self.conns[c].ending is Some
                && self.conns[c].slots == Map::<StreamId, StreamSlots<C>>::empty() {
                ServerView { conns: self.conns.remove(c), ..self }
            } else {
                self
            },
        }
    }

    /// The connection is there and has not ended.
    pub open spec fn serves(self, c: u64) -> bool {
        self.conns.contains_key(c) && self.conns[c].ending is None
    }

    /// No connection that has ended is left.
    pub open spec fn settled(self) -> bool {
        forall|c: u64| #[trigger] self.conns.contains_key(c) ==> self.conns[c].ending is None
    }

    /// The stream has slots.
    pub open spec fn has_stream(self, c: u64, s: StreamId) -> bool {
        self.conns.contains_key(c) && self.conns[c].slots.contains_key(s)
    }

    /// These are the slots that the stream has now.
    pub open spec fn current(self, c: u64, s: StreamId, number: u64) -> bool {
        self.has_stream(c, s) && self.conns[c].slots[s].number == number
    }

    pub open spec fn live(self, id: SlotsId) -> bool {
        self.current(id.conn_id, id.stream_id, id.number)
    }

    /// The end of the stream is told to what is registered in these slots.
    pub open spec fn notifies(self, step: Step<C>, id: SlotsId) -> bool {
        self.live(id) && match step {
            Step::End(c, s) => id.conn_id == c && id.stream_id == s && self.conns[c].ending is None,
            Step::Tell(c, s) => id.conn_id == c && id.stream_id == s && self.conns[c].ending is Some,
            _ => false,
        }
    }

    /// What is told of the end of a stream: whether the peer brought it about.
    pub open spec fn told_flag(self, step: Step<C>) -> bool {
        match step {
            Step::Tell(c, _) => self.conns[c].ending->0,
            _ => true,
        }
    }

    /// Every connection and all slots bear numbers that were given out.
    pub open spec fn wf(self) -> bool {
        &&& forall|c: u64| #[trigger] self.conns.contains_key(c) ==> c < self.id_counter
        &&& forall|c: u64, s: StreamId|
            #![trigger self.conns[c].slots.contains_key(s)]
            self.conns.contains_key(c) && self.conns[c].slots.contains_key(s)
                ==> self.conns[c].slots[s].number < self.conns[c].next_number
    }

    /// The step does not use up the last number that there is, and a connection starts without
    /// streams and has not ended.
    pub open spec fn regular(self, step: Step<C>) -> bool {
        match step {
            Step::Accept(conn) => self.id_counter < u64::MAX && conn.slots == Map::<
                StreamId,
                StreamSlots<C>,
            >::empty() && conn.ending is None,
            Step::Open(c, _) => self.conns.contains_key(c) ==> self.conns[c].next_number < u64::MAX,
            _ => true,
        }
    }

    /// The slots were given out and are no stream's any more.
    pub open spec fn spent(self, id: SlotsId) -> bool {
        &&& id.conn_id < self.id_counter
        &&& self.conns.contains_key(id.conn_id) ==> id.number < self.conns[id.conn_id].next_number
        &&& !self.live(id)
    }

    /// The server after the first `k` of the steps.
    pub open spec fn after(self, steps: Seq<Step<C>>, k: int) -> ServerView<C>
        decreases k,
    {
        if k <= 0 {
            self
        } else {
            self.after(steps, k - 1).take(steps[k - 1])
        }
    }

    /// Each of the steps is regular at its turn.
    pub open spec fn all_regular(self, steps: Seq<Step<C>>) -> bool {
        forall|k: int| 0 <= k < steps.len() ==> #[trigger] self.after(steps, k).regular(steps[k])
    }
}

/// Numbers are given out in order: a new connection never takes the identifier of another, nor do
/// new slots take the number of others.
pub proof fn law_numbers_are_fresh<C>(server: ServerView<C>, step: Step<C>)
    requires
        server.wf(),
        server.regular(step),
    ensures
        server.take(step).wf(),
        step is Accept ==> !server.conns.contains_key(server.id_counter),
        step matches Step::Open(c, s) ==> forall|t: StreamId|
            !server.current(c, t, server.conns[c].next_number),
{
    let next = server.take(step);
    assert forall|c: u64, s: StreamId|
        #![trigger next.conns[c].slots.contains_key(s)]
        next.conns.contains_key(c) && next.conns[c].slots.contains_key(s) implies next.conns[c].slots[s].number
        < next.conns[c].next_number by {
        assert(server.conns.contains_key(c) && server.conns[c].slots.contains_key(s)
            ==> server.conns[c].slots[s].number < server.conns[c].next_number);
    }
}

/// Where the end of a stream is told, its slots are spent with it.
pub proof fn law_notice_spends_slots<C>(server: ServerView<C>, step: Step<C>, id: SlotsId)
    requires
        server.wf(),
        server.notifies(step, id),
    ensures
        server.live(id),
        server.take(step).spent(id),
{
    assert(server.conns[id.conn_id].slots.contains_key(id.stream_id));
}

/// Spent slots stay spent, and nothing is told to what was registered in them.
pub proof fn law_spent_slots_stay_silent<C>(server: ServerView<C>, step: Step<C>, id: SlotsId)
    requires
        server.spent(id),
        server.regular(step),
    ensures
        server.take(step).spent(id),
        !server.notifies(step, id),
{
}

/// However the server goes on, the end of a stream is told at most once.
pub proof fn law_end_told_once<C>(
    server: ServerView<C>,
    steps: Seq<Step<C>>,
    i: int,
    j: int,
    id: SlotsId,
)
    requires
        server.wf(),
        server.all_regular(steps),
        0 <= i < j < steps.len(),
        server.after(steps, i).notifies(steps[i], id),
    ensures
        !server.after(steps, j).notifies(steps[j], id),
{
    lemma_wf_after(server, steps, i);
    law_notice_spends_slots(server.after(steps, i), steps[i], id);
    lemma_spent_after(server, steps, i + 1, j, id);
    assert(server.after(steps, j).regular(steps[j]));
    law_spent_slots_stay_silent(server.after(steps, j), steps[j], id);
}

/// Numbers stay in order over all steps.
pub proof fn lemma_wf_after<C>(server: ServerView<C>, steps: Seq<Step<C>>, k: int)
    requires
        server.wf(),
        server.all_regular(steps),
        0 <= k <= steps.len(),
    ensures
        server.after(steps, k).wf(),
    decreases k,
{
    if k > 0 {
        lemma_wf_after(server, steps, k - 1);
        assert(server.after(steps, k - 1).regular(steps[k - 1]));
        law_numbers_are_fresh(server.after(steps, k - 1), steps[k - 1]);
    }
}

/// Spent slots stay spent over all steps.
pub proof fn lemma_spent_after<C>(server: ServerView<C>, steps: Seq<Step<C>>, i: int, j: int, id: SlotsId)
    requires
        server.all_regular(steps),
        0 <= i <= j <= steps.len(),
        server.after(steps, i).spent(id),
    ensures
        server.after(steps, j).spent(id),
    decreases j,
{
    if i < j {
        lemma_spent_after(server, steps, i, j - 1, id);
        assert(server.after(steps, j - 1).regular(steps[j - 1]));
        law_spent_slots_stay_silent(server.after(steps, j - 1), steps[j - 1], id);
    }
}

/// The end of a connection, and the shutdown of the server, reach every stream that the connection
/// has: its slots stay until it is told, with the flag of that end.
pub proof fn law_end_reaches_every_stream<C>(
    server: ServerView<C>,
    step: Step<C>,
    id: SlotsId,
    flag: bool,
)
    requires
        server.live(id),
        server.serves(id.conn_id),
        step == Step::<C>::EndConn(id.conn_id, flag) || step is Shutdown && !flag,
    ensures
        server.take(step).live(id),
        server.take(step).notifies(Step::Tell(id.conn_id, id.stream_id), id),
        server.take(step).told_flag(Step::Tell(id.conn_id, id.stream_id)) == flag,
{
}

/// A stream's slots go only with its end or its connection's, which is told, or where the stream
/// is given new slots.
pub proof fn law_slots_last<C>(server: ServerView<C>, step: Step<C>, id: SlotsId)
    requires
        server.wf(),
        server.regular(step),
        server.live(id),
    ensures
        server.take(step).live(id) || server.notifies(step, id) || step == Step::<C>::Open(
            id.conn_id,
            id.stream_id,
        ),
{
}

/// What happens to one connection changes no other.
pub proof fn law_connections_independent<C>(server: ServerView<C>, step: Step<C>, c: u64)
    requires
        match step {
            Step::Accept(_) => c != server.id_counter,
            Step::Open(d, _) => c != d,
            Step::Install(d, _, _) => c != d,
            Step::End(d, _) => c != d,
            Step::EndConn(d, _) => c != d,
            Step::Shutdown => false,
            Step::Tell(d, _) => c != d,
            Step::Retire(d) => c != d,
        },
    ensures
        server.take(step).conns.contains_key(c) == server.conns.contains_key(c),
        server.conns.contains_key(c) ==> server.take(step).conns[c] == server.conns[c],
{
}

/// Once the server is shut down and accepts no connection, every connection that it still has has
/// ended; and once nothing is left to be told, it has none.
pub proof fn law_shutdown_is_final<C>(server: ServerView<C>, steps: Seq<Step<C>>, k: int)
    requires
        0 < k <= steps.len(),
        steps[0] is Shutdown,
        forall|i: int| 0 <= i < steps.len() ==> !((#[trigger] steps[i]) is Accept),
    ensures
        forall|c: u64| !(#[trigger] server.after(steps, k).serves(c)),
        server.after(steps, k).settled() ==> server.after(steps, k).conns == Map::<
            u64,
            ConnView<C>,
        >::empty(),
    decreases k,
{
    let now = server.after(steps, k);
    if k > 1 {
        law_shutdown_is_final(server, steps, k - 1);
        assert(!(steps[k - 1] is Accept));
        let before = server.after(steps, k - 1);
        assert forall|c: u64| !(#[trigger] now.serves(c)) by {
            assert(!before.serves(c));
        }
    }
    if now.settled() {
        assert forall|c: u64| !now.conns.contains_key(c) by {
            assert(!now.serves(c));
        }
        assert(now.conns =~= Map::<u64, ConnView<C>>::empty());
    }
}

/// What ends a stream, and what is then told of it: the peer's end of it, the end of its
/// connection, or the shutdown of the server.
pub open spec fn cause<C>(step: Step<C>, c: u64, s: StreamId) -> Option<bool> {
    match step {
        Step::End(d, t) => if d == c && t == s {
            Some(true)
        } else {
            None
        },
        Step::EndConn(d, peer_closed) => if d == c {
            Some(peer_closed)
        } else {
            None
        },
        Step::Shutdown => Some(false),
        _ => None,
    }
}

/// The flag of whatever ended a stream first, among the first `k` steps.
pub open spec fn first_cause<C>(steps: Seq<Step<C>>, c: u64, s: StreamId, k: int) -> Option<bool>
    decreases k,
{
    if k <= 0 {
        None
    } else {
        match first_cause(steps, c, s, k - 1) {
            Some(flag) => Some(flag),
            None => cause(steps[k - 1], c, s),
        }
    }
}

/// What ended a stream first stays so.
proof fn lemma_first_cause_stays<C>(steps: Seq<Step<C>>, c: u64, s: StreamId, i: int, k: int)
    requires
        0 <= i <= k,
        first_cause(steps, c, s, i) is Some,
    ensures
        first_cause(steps, c, s, k) == first_cause(steps, c, s, i),
    decreases k,
{
    if i < k {
        lemma_first_cause_stays(steps, c, s, i, k - 1);
    }
}

/// A stream whose end was not told yet has its slots, and its connection has ended exactly as the
/// first cause says.
proof fn lemma_until_told<C>(server: ServerView<C>, steps: Seq<Step<C>>, id: SlotsId, k: int)
    requires
        server.wf(),
        server.all_regular(steps),
        server.live(id),
        server.serves(id.conn_id),
        forall|i: int|
            0 <= i < steps.len() ==> #[trigger] steps[i] != Step::<C>::Open(
                id.conn_id,
                id.stream_id,
            ),
        0 <= k <= steps.len(),
        forall|i: int| 0 <= i < k ==> !(#[trigger] server.after(steps, i)).notifies(steps[i], id),
    ensures
        server.after(steps, k).live(id),
        server.after(steps, k).conns[id.conn_id].ending == first_cause(
            steps,
            id.conn_id,
            id.stream_id,
            k,
        ),
    decreases k,
{
    if k > 0 {
        lemma_until_told(server, steps, id, k - 1);
        lemma_wf_after(server, steps, k - 1);
        let before = server.after(steps, k - 1);
        assert(before.regular(steps[k - 1]));
        assert(!before.notifies(steps[k - 1], id));
        assert(steps[k - 1] != Step::<C>::Open(id.conn_id, id.stream_id));
        law_slots_last(before, steps[k - 1], id);
        assert(before.conns[id.conn_id].slots.contains_key(id.stream_id));
    }
}

/// The end of a stream is told exactly once, with the flag of whatever ended it first: the peer's
/// end of the stream, the end of its connection, or the shutdown of the server. The stream is not
/// given new slots meanwhile, and in the end its slots are gone.
pub proof fn law_end_told_exactly_once<C>(
    server: ServerView<C>,
    steps: Seq<Step<C>>,
    id: SlotsId,
) -> (i: int)
    requires
        server.wf(),
        server.all_regular(steps),
        server.live(id),
        server.serves(id.conn_id),
        forall|i: int|
            0 <= i < steps.len() ==> #[trigger] steps[i] != Step::<C>::Open(
                id.conn_id,
                id.stream_id,
            ),
        !server.after(steps, steps.len() as int).live(id),
    ensures
        0 <= i < steps.len(),
        server.after(steps, i).notifies(steps[i], id),
        first_cause(steps, id.conn_id, id.stream_id, steps.len() as int) == Some(
            server.after(steps, i).told_flag(steps[i]),
        ),
        forall|j: int|
            0 <= j < steps.len() && j != i ==> !(#[trigger] server.after(steps, j)).notifies(
                steps[j],
                id,
            ),
{
    let n = steps.len() as int;
    if forall|i: int| 0 <= i < n ==> !(#[trigger] server.after(steps, i)).notifies(steps[i], id) {
        lemma_until_told(server, steps, id, n);
    }
    let i = choose|i: int|
        0 <= i < n && (#[trigger] server.after(steps, i)).notifies(steps[i], id);
    assert forall|j: int| 0 <= j < n && j != i implies !(#[trigger] server.after(
        steps,
        j,
    )).notifies(steps[j], id) by {
        if i < j {
            law_end_told_once(server, steps, i, j, id);
        } else if server.after(steps, j).notifies(steps[j], id) {
            law_end_told_once(server, steps, j, i, id);
        }
    }
    lemma_until_told(server, steps, id, i);
    lemma_first_cause_stays(steps, id.conn_id, id.stream_id, i + 1, n);
    i
}

/// Once a stream has ended, by whatever cause, and nothing is left to be told, its end has been
/// told exactly once, with the flag of the first cause.
pub proof fn law_ended_streams_are_told<C>(
    server: ServerView<C>,
    steps: Seq<Step<C>>,
    id: SlotsId,
    k: int,
) -> (i: int)
    requires
        server.wf(),
        server.all_regular(steps),
        server.live(id),
        server.serves(id.conn_id),
        forall|i: int|
            0 <= i < steps.len() ==> #[trigger] steps[i] != Step::<C>::Open(
                id.conn_id,
                id.stream_id,
            ),
        0 <= k < steps.len(),
        cause(steps[k], id.conn_id, id.stream_id) is Some,
        server.after(steps, steps.len() as int).settled(),
    ensures
        0 <= i < steps.len(),
        server.after(steps, i).notifies(steps[i], id),
        first_cause(steps, id.conn_id, id.stream_id, steps.len() as int) == Some(
            server.after(steps, i).told_flag(steps[i]),
        ),
        forall|j: int|
            0 <= j < steps.len() && j != i ==> !(#[trigger] server.after(steps, j)).notifies(
                steps[j],
                id,
            ),
{
    let n = steps.len() as int;
    if server.after(steps, n).live(id) {
        assert forall|i: int| 0 <= i < n implies !(#[trigger] server.after(steps, i)).notifies(
            steps[i],
            id,
        ) by {
            if server.after(steps, i).notifies(steps[i], id) {
                lemma_wf_after(server, steps, i);
                law_notice_spends_slots(server.after(steps, i), steps[i], id);
                lemma_spent_after(server, steps, i + 1, n, id);
            }
        }
        lemma_until_told(server, steps, id, n);
        lemma_first_cause_stays(steps, id.conn_id, id.stream_id, k + 1, n);
        assert(server.after(steps, n).conns.contains_key(id.conn_id));
    }
    law_end_told_exactly_once(server, steps, id)
}

/// How many of the first `k` steps accept a connection.
pub open spec fn accepts_in<C>(steps: Seq<Step<C>>, k: int) -> nat
    decreases k,
{
    if k <= 0 {
        0
    } else if steps[k - 1] is Accept {
        accepts_in(steps, k - 1) + 1
    } else {
        accepts_in(steps, k - 1)
    }
}

/// The connections of a server that started without any are numbered in the order in which they
/// were accepted, from zero up: before the step at `k`, as many numbers were given out as
/// connections were accepted, the next one is the number of the next connection, and none that is
/// there bears it or a later one.
pub proof fn law_connections_numbered_in_order<C>(
    server: ServerView<C>,
    steps: Seq<Step<C>>,
    k: int,
)
    requires
        server.conns == Map::<u64, ConnView<C>>::empty(),
        server.id_counter == 0,
        server.all_regular(steps),
        0 <= k <= steps.len(),
    ensures
        server.after(steps, k).id_counter == accepts_in(steps, k),
        forall|c: u64| #[trigger]
            server.after(steps, k).conns.contains_key(c) ==> c < accepts_in(steps, k),
        k < steps.len() && steps[k] is Accept ==> server.after(steps, k + 1).conns.contains_key(
            accepts_in(steps, k) as u64,
        ),
    decreases k,
{
    lemma_wf_after(server, steps, k);
    if k > 0 {
        law_connections_numbered_in_order(server, steps, k - 1);
        assert(server.after(steps, k - 1).regular(steps[k - 1]));
    }
}

/// No two connections get the same number, not even where the first has ended before the second
/// is accepted.
pub proof fn law_connection_numbers_differ<C>(
    server: ServerView<C>,
    steps: Seq<Step<C>>,
    i: int,
    j: int,
)
    requires
        server.conns == Map::<u64, ConnView<C>>::empty(),
        server.id_counter == 0,
        server.all_regular(steps),
        0 <= i < j < steps.len(),
        steps[i] is Accept,
        steps[j] is Accept,
    ensures
        server.after(steps, i).id_counter < server.after(steps, j).id_counter,
{
    law_connections_numbered_in_order(server, steps, i);
    law_connections_numbered_in_order(server, steps, j);
    lemma_accepts_grow(steps, i + 1, j);
}

proof fn lemma_accepts_grow<C>(steps: Seq<Step<C>>, i: int, j: int)
    requires
        0 <= i <= j,
    ensures
        accepts_in(steps, i) <= accepts_in(steps, j),
    decreases j,
{
    if i < j {
        lemma_accepts_grow(steps, i, j - 1);
    }
}

/// Where a stream object opens a stream, the server takes the step of giving slots to a stream.
pub proof fn law_opening_is_a_step<C>(
    server: ServerView<C>,
    c: u64,
    s: StreamId,
    before: PhpStreamCallbacks<C>,
    next: PhpStreamCallbacks<C>,
)
    requires
        server.conns.contains_key(c),
        server.conns[c].slots == before@,
        server.conns[c].next_number == before.next_number,
        before.registered(s, &next),
    ensures
        server.take(Step::Open(c, s)) == server.with(
            c,
            (ConnView { slots: next@, next_number: next.next_number, ..server.conns[c] }),
        ),
        server.take(Step::Open(c, s)).current(c, s, before.next_number),
{
}

/// Where a stream object registers a callback, the server takes the step of putting it into the
/// stream's slots; an object whose slots are spent changes nothing.
pub proof fn law_registering_is_a_step<C>(
    server: ServerView<C>,
    c: u64,
    s: StreamId,
    before: PhpStreamCallbacks<C>,
    slots: StreamSlots<C>,
)
    requires
        server.conns.contains_key(c),
        server.conns[c].slots == before@,
    ensures
        before.current(s, slots.number) ==> server.take(Step::Install(c, s, slots)) == server.with(
            c,
            (ConnView { slots: before@.insert(s, slots), ..server.conns[c] }),
        ),
        server.spent(SlotsId { conn_id: c, stream_id: s, number: slots.number }) ==> server.take(
            Step::Install(c, s, slots),
        ) == server,
{
}

/// The server once it has taken all that the driver of a connection reported: a stream that is
/// announced gets slots, and its end takes them away.
pub open spec fn served<C>(
    server: ServerView<C>,
    c: u64,
    log: Seq<(u64, DriverEvent)>,
) -> ServerView<C>
    decreases log.len(),
{
    if log.len() == 0 {
        server
    } else {
        let before = served(server, c, log.drop_last());
        match log.last().1 {
            DriverEvent::NewBidi(s) => before.take(Step::Open(c, s)),
            DriverEvent::NewUni(s) => before.take(Step::Open(c, s)),
            DriverEvent::Data { stream_id, fin, .. } => if fin {
                before.take(Step::End(c, stream_id))
            } else {
                before
            },
        }
    }
}

/// A stream of the peer has slots exactly from its announcement to its end: what comes of an open
/// stream finds them.
pub proof fn law_open_streams_have_slots<C>(
    server: ServerView<C>,
    c: u64,
    log: Seq<(u64, DriverEvent)>,
    s: StreamId,
)
    requires
        server.serves(c),
        !server.has_stream(c, s),
    ensures
        served(server, c, log).serves(c),
        served(server, c, log).has_stream(c, s) <==> open_in(log, s),
    decreases log.len(),
{
    if log.len() > 0 {
        law_open_streams_have_slots(server, c, log.drop_last(), s);
    }
}

} // verus!
