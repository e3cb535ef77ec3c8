//! Server-sent events: the clients each agent has open, and the frames they
//! are sent.

use vstd::prelude::*;
use crate::decimal::{int_str, push_i64};
use crate::text::{chars_of, concat_map, lemma_concat_map_all, lemma_concat_map_step, push_str, str_eq, to_owned};
use crate::thread_id::hex_digit;
use tokio::sync::mpsc::{UnboundedReceiver, UnboundedSender};

verus! {

#[verifier::external_type_specification]
#[verifier::external_body]
#[verifier::reject_recursive_types(T)]
pub struct ExUnboundedSender<T>(tokio::sync::mpsc::UnboundedSender<T>);

#[verifier::external_type_specification]
#[verifier::external_body]
#[verifier::reject_recursive_types(T)]
pub struct ExUnboundedReceiver<T>(tokio::sync::mpsc::UnboundedReceiver<T>);

/// `tokio::sync::mpsc::unbounded_channel()`: a new channel's two ends.
/// Nothing is claimed of them beyond their types.
#[verifier::external_body]
fn open_channel() -> (UnboundedSender<String>, UnboundedReceiver<String>) {
    tokio::sync::mpsc::unbounded_channel()
}

/// `UnboundedSender::send(msg)`, reporting whether it was accepted. Whether
/// the receiving end is still open is outside the library's knowledge, so
/// nothing is claimed of the result.
#[verifier::external_body]
fn deliver(tx: &UnboundedSender<String>, msg: String) -> bool {
    tx.send(msg).is_ok()
}

// ---------------------------------------------------------------------------
// Frames
// ---------------------------------------------------------------------------

/// How JSON writes one character inside a string (as `serde_json` does).
pub open spec fn json_escape_char(c: char) -> Seq<char> {
    let u = c as u32;
    if c == '"' {
        seq!['\\', '"']
    } else if c == '\\' {
        seq!['\\', '\\']
    } else if u == 0x08 {
        seq!['\\', 'b']
    } else if u == 0x09 {
        seq!['\\', 't']
    } else if u == 0x0A {
        seq!['\\', 'n']
    } else if u == 0x0C {
        seq!['\\', 'f']
    } else if u == 0x0D {
        seq!['\\', 'r']
    } else if u < 0x20 {
        seq!['\\', 'u', '0', '0', hex_digit((u / 16) as int), hex_digit((u % 16) as int)]
    } else {
        seq![c]
    }
}

/// `s` as a JSON string literal.
pub open spec fn json_string(s: Seq<char>) -> Seq<char> {
    seq!['"'] + concat_map(s, |c: char| json_escape_char(c)) + seq!['"']
}

fn hex_char(d: u32) -> (c: char)
    requires
        d < 16,
    ensures
        c == hex_digit(d as int),
{
    if d == 0 {
        '0'
    } else if d == 1 {
        '1'
    } else if d == 2 {
        '2'
    } else if d == 3 {
        '3'
    } else if d == 4 {
        '4'
    } else if d == 5 {
        '5'
    } else if d == 6 {
        '6'
    } else if d == 7 {
        '7'
    } else if d == 8 {
        '8'
    } else if d == 9 {
        '9'
    } else if d == 10 {
        'a'
    } else if d == 11 {
        'b'
    } else if d == 12 {
        'c'
    } else if d == 13 {
        'd'
    } else if d == 14 {
        'e'
    } else {
        'f'
    }
}

fn push_escaped(out: &mut String, c: char)
    ensures
        final(out)@ == old(out)@ + json_escape_char(c),
{
    let u = c as u32;
    if c == '"' {
        out.push('\\');
        out.push('"');
    } else if c == '\\' {
        out.push('\\');
        out.push('\\');
    } else if u == 0x08 {
        out.push('\\');
        out.push('b');
    } else if u == 0x09 {
        out.push('\\');
        out.push('t');
    } else if u == 0x0A {
        out.push('\\');
        out.push('n');
    } else if u == 0x0C {
        out.push('\\');
        out.push('f');
    } else if u == 0x0D {
        out.push('\\');
        out.push('r');
    } else if u < 0x20 {
        out.push('\\');
        out.push('u');
        out.push('0');
        out.push('0');
        out.push(hex_char(u / 16));
        out.push(hex_char(u % 16));
    } else {
        out.push(c);
    }
    assert(out@ =~= old(out)@ + json_escape_char(c));
}

/// Appends `s` as a JSON string literal.
pub fn push_json_string(out: &mut String, s: &str)
    ensures
        final(out)@ == old(out)@ + json_string(s@),
{
    let v = chars_of(s);
    out.push('"');
    let ghost head = out@;
    let ghost f = |c: char| json_escape_char(c);
    proof {
        lemma_concat_map_all(v@, f);
    }
    let mut i: usize = 0;
    while i < v.len()
        invariant
            i <= v@.len(),
            v@ == s@,
            f == (|c: char| json_escape_char(c)),
            out@ == head + concat_map(v@.take(i as int), f),
        decreases v.len() - i,
    {
        proof {
            lemma_concat_map_step(v@, i as int, f);
        }
        push_escaped(out, v[i]);
        assert(out@ =~= head + concat_map(v@.take(i + 1), f));
        i = i + 1;
    }
    out.push('"');
    assert(out@ =~= old(out)@ + json_string(s@));
}

/// An event frame: `event: <event>`, `data: <data>`, and a blank line.
pub open spec fn event_frame_spec(event: Seq<char>, data: Seq<char>) -> Seq<char> {
    "event: "@ + event + "\ndata: "@ + data + "\n\n"@
}

/// The frame of an event.
pub fn event_frame(event: &str, data: &str) -> (r: String)
    ensures
        r@ == event_frame_spec(event@, data@),
{
    let mut m = to_owned("event: ");
    push_str(&mut m, event);
    push_str(&mut m, "\ndata: ");
    push_str(&mut m, data);
    push_str(&mut m, "\n\n");
    assert(m@ =~= event_frame_spec(event@, data@));
    m
}

/// The data of the event that greets a new client: `{"agent":<agent>}`.
pub open spec fn connect_data(agent: Seq<char>) -> Seq<char> {
    "{\"agent\":"@ + json_string(agent) + "}"@
}

/// The frame that greets a new client of `agent`.
pub fn connect_frame(agent: &str) -> (r: String)
    ensures
        r@ == event_frame_spec("connected"@, connect_data(agent@)),
{
    let mut d = to_owned("{\"agent\":");
    push_json_string(&mut d, agent);
    push_str(&mut d, "}");
    assert(d@ =~= connect_data(agent@));
    event_frame("connected", d.as_str())
}

/// The data of a new-mail event: `{"from":..,"message_id":..,"subject":..}`
/// (keys in order, the subject `null` when absent).
pub open spec fn new_mail_data_spec(message_id: i64, from: Seq<char>, subject: Option<Seq<char>>) -> Seq<
    char,
> {
    "{\"from\":"@ + json_string(from) + ",\"message_id\":"@ + int_str(message_id as int)
        + ",\"subject\":"@ + match subject {
        Some(s) => json_string(s),
        None => "null"@,
    } + "}"@
}

/// The data of the event that tells a recipient of new mail.
pub fn new_mail_data(message_id: i64, from: &str, subject: Option<&str>) -> (r: String)
    ensures
        r@ == new_mail_data_spec(
            message_id,
            from@,
            match subject {
                Some(s) => Some(s@),
                None => None,
            },
        ),
{
    let mut d = to_owned("{\"from\":");
    push_json_string(&mut d, from);
    push_str(&mut d, ",\"message_id\":");
    push_i64(&mut d, message_id);
    push_str(&mut d, ",\"subject\":");
    match subject {
        Some(s) => push_json_string(&mut d, s),
        None => push_str(&mut d, "null"),
    }
    push_str(&mut d, "}");
    assert(d@ =~= new_mail_data_spec(
        message_id,
        from@,
        match subject {
            Some(s) => Some(s@),
            None => None,
        },
    ));
    d
}

/// The query of a stream request: the agent whose events to follow.
pub struct StreamQuery {
    pub agent: String,
}

/// The comment frame that keeps idle connections open.
pub const HEARTBEAT_FRAME: &'static str = ": heartbeat\n\n";

// ---------------------------------------------------------------------------
// Clients
// ---------------------------------------------------------------------------

/// The open clients of one agent.
pub struct ClientGroup {
    pub agent: String,
    pub senders: Vec<UnboundedSender<String>>,
    /// What the group's clients were offered so far, in order: `(None, f)` is
    /// the frame `f` offered to every client the group had at the time;
    /// `(Some(tx), f)` is the frame `f` handed to the client fed by `tx` alone,
    /// as its greeting, before it joined the group.
    pub offered: Ghost<Seq<(Option<UnboundedSender<String>>, Seq<char>)>>,
}

/// The open clients of every agent that ever subscribed.
pub struct SseBroadcaster {
    pub clients: Vec<ClientGroup>,
}

/// For each agent (in order of first subscription), how many clients it has.
pub open spec fn groups_view(g: Seq<ClientGroup>) -> Seq<(Seq<char>, nat)> {
    g.map_values(|c: ClientGroup| (c.agent@, c.senders@.len()))
}

/// The number of open clients of `agent`.
pub open spec fn clients_of(v: Seq<(Seq<char>, nat)>, agent: Seq<char>) -> nat {
    if exists|i: int| 0 <= i < v.len() && v[i].0 == agent {
        v[choose|i: int| 0 <= i < v.len() && v[i].0 == agent].1
    } else {
        0
    }
}

/// Every agent has at most one group.
pub open spec fn distinct_agents(v: Seq<(Seq<char>, nat)>) -> bool {
    forall|i: int, j: int| 0 <= i < j < v.len() ==> v[i].0 != v[j].0
}

proof fn lemma_clients_of_at(v: Seq<(Seq<char>, nat)>, i: int)
    requires
        distinct_agents(v),
        0 <= i < v.len(),
    ensures
        clients_of(v, v[i].0) == v[i].1,
{
    let k = choose|k: int| 0 <= k < v.len() && v[k].0 == v[i].0;
    if k != i {
        if k < i {
            assert(v[k].0 != v[i].0);
        } else {
            assert(v[i].0 != v[k].0);
        }
    }
}

proof fn lemma_clients_of_absent(v: Seq<(Seq<char>, nat)>, a: Seq<char>)
    requires
        forall|i: int| 0 <= i < v.len() ==> v[i].0 != a,
    ensures
        clients_of(v, a) == 0,
{
}

/// The senders of `s` whose delivery was accepted, in order: `acc[i]` tells
/// whether the receiver of `s[i]` took its message.
pub open spec fn kept_by(s: Seq<UnboundedSender<String>>, acc: Seq<bool>) -> Seq<UnboundedSender<String>>
    decreases s.len(),
{
    if s.len() == 0 || acc.len() == 0 {
        Seq::<UnboundedSender<String>>::empty()
    } else {
        let prev = kept_by(s.drop_last(), acc.drop_last());
        if acc.last() {
            prev.push(s.last())
        } else {
            prev
        }
    }
}

proof fn lemma_kept_by_len(s: Seq<UnboundedSender<String>>, acc: Seq<bool>)
    ensures
        kept_by(s, acc).len() <= s.len(),
    decreases s.len(),
{
    if s.len() > 0 && acc.len() > 0 {
        lemma_kept_by_len(s.drop_last(), acc.drop_last());
    }
}

/// `new` is the group `old` after the frame `frame` was offered to each of
/// its clients, in order: the same agent, the frame recorded as offered, and
/// the clients whose receivers took it, in their order; those that are gone
/// are dropped.
pub open spec fn offered_to_all(old: ClientGroup, new: ClientGroup, frame: Seq<char>) -> bool {
    &&& new.agent == old.agent
    &&& new.offered@ == old.offered@.push((None, frame))
    &&& exists|acc: Seq<bool>|
        acc.len() == old.senders@.len() && new.senders@ == #[trigger] kept_by(old.senders@, acc)
}

/// `new` is the group `old` with one client more, the last: the client fed
/// by that sender was handed `frame` alone before it joined. The agent and the
/// earlier clients stay as they were, and the greeting is recorded after all
/// that the group was offered before.
pub open spec fn greeted(old: ClientGroup, new: ClientGroup, frame: Seq<char>) -> bool {
    &&& new.agent == old.agent
    &&& new.senders@.len() == old.senders@.len() + 1
    &&& new.senders@.drop_last() == old.senders@
    &&& new.offered@ == old.offered@.push((Some(new.senders@.last()), frame))
}

/// Where `a` stands in `v`, when it does.
pub open spec fn agent_index(v: Seq<(Seq<char>, nat)>, a: Seq<char>) -> int {
    choose|k: int| 0 <= k < v.len() && v[k].0 == a
}

/// Two client lists with the same agents in the same places (the second
/// possibly longer, with other agents after): the count of an agent is read
/// at the same place in both, or is 0 in both when neither has it.
proof fn lemma_clients_of_compare(before: Seq<(Seq<char>, nat)>, after: Seq<(Seq<char>, nat)>, a: Seq<char>)
    requires
        distinct_agents(before),
        distinct_agents(after),
        before.len() <= after.len(),
        forall|i: int| 0 <= i < before.len() ==> after[i].0 == before[i].0,
        forall|i: int| before.len() <= i < after.len() ==> after[i].0 != a,
    ensures
        (exists|k: int| 0 <= k < before.len() && before[k].0 == a) ==> {
            let k = agent_index(before, a);
            &&& 0 <= k < before.len()
            &&& clients_of(before, a) == before[k].1
            &&& clients_of(after, a) == after[k].1
        },
        !(exists|k: int| 0 <= k < before.len() && before[k].0 == a) ==> clients_of(before, a) == 0
            && clients_of(after, a) == 0,
{
    if exists|k: int| 0 <= k < before.len() && before[k].0 == a {
        let k = agent_index(before, a);
        lemma_clients_of_at(before, k);
        lemma_clients_of_at(after, k);
    } else {
        lemma_clients_of_absent(after, a);
    }
}

impl View for SseBroadcaster {
    type V = Seq<(Seq<char>, nat)>;

    open spec fn view(&self) -> Seq<(Seq<char>, nat)> {
        groups_view(self.clients@)
    }
}

impl SseBroadcaster {
    /// No clients yet.
    pub fn new() -> (r: SseBroadcaster)
        ensures
            r@ == Seq::<(Seq<char>, nat)>::empty(),
    {
        let r = SseBroadcaster { clients: Vec::new() };
        assert(r@ =~= Seq::<(Seq<char>, nat)>::empty());
        r
    }

    /// The group of `agent`, if it has one.
    fn find(&self, agent: &str) -> (r: Option<usize>)
        ensures
            match r {
                Some(i) => i < self@.len() && self@[i as int].0 == agent@,
                None => forall|i: int| 0 <= i < self@.len() ==> self@[i].0 != agent@,
            },
    {
        let mut i: usize = 0;
        while i < self.clients.len()
            invariant
                i <= self.clients@.len(),
                forall|k: int| 0 <= k < i ==> self@[k].0 != agent@,
            decreases self.clients.len() - i,
        {
            if str_eq(self.clients[i].agent.as_str(), agent) {
                return Some(i);
            }
            i = i + 1;
        }
        None
    }

    /// Opens a client for `agent`: it is greeted with a `connected` event,
    /// and receives every event sent to `agent` from now on.
    pub fn subscribe(&mut self, agent: &str) -> (rx: UnboundedReceiver<String>)
        requires
            distinct_agents(old(self)@),
        ensures
            distinct_agents(final(self)@),
            clients_of(final(self)@, agent@) == clients_of(old(self)@, agent@) + 1,
            forall|a: Seq<char>| a != agent@ ==> clients_of(final(self)@, a) == clients_of(old(self)@, a),
            forall|k: int|
                0 <= k < old(self).clients@.len() ==> if (#[trigger] old(self).clients@[k]).agent@ == agent@ {
                    greeted(
                        old(self).clients@[k],
                        final(self).clients@[k],
                        event_frame_spec("connected"@, connect_data(agent@)),
                    )
                } else {
                    final(self).clients@[k] == old(self).clients@[k]
                },
            (exists|k: int| 0 <= k < old(self).clients@.len() && (#[trigger] old(self).clients@[k]).agent@ == agent@)
                ==> final(self).clients@.len() == old(self).clients@.len(),
            (forall|k: int| 0 <= k < old(self).clients@.len() ==> (#[trigger] old(self).clients@[k]).agent@ != agent@)
                ==> {
                let g = final(self).clients@.last();
                &&& final(self).clients@.len() == old(self).clients@.len() + 1
                &&& g.agent@ == agent@
                &&& g.senders@.len() == 1
                &&& g.offered@ == seq![(Some(g.senders@[0]), event_frame_spec("connected"@, connect_data(agent@)))]
            },
    {
        let (tx, rx) = open_channel();
        let greeting = connect_frame(agent);
        let ghost frame = greeting@;
        let ghost t = tx;
        let _ = deliver(&tx, greeting);
        let ghost before = self@;
        let ghost before_clients = self.clients@;
        match self.find(agent) {
            Some(i) => {
                let mut group = self.clients.remove(i);
                let ghost og = group;
                group.senders.push(tx);
                proof {
                    group.offered@ = group.offered@.push((Some(t), frame));
                    assert(group.senders@.drop_last() =~= og.senders@);
                }
                let ghost g = group;
                self.clients.insert(i, group);
                proof {
                    assert(self.clients@ =~= before_clients.update(i as int, g));
                    assert(self@ =~= before.update(i as int, (agent@, before[i as int].1 + 1)));
                    assert forall|j: int| 0 <= j < before_clients.len() && j != i implies (#[trigger] before_clients[j]).agent@ != agent@ by {
                        assert(before[j].0 == before_clients[j].agent@);
                        if j < i {
                            assert(before[j].0 != before[i as int].0);
                        } else {
                            assert(before[i as int].0 != before[j].0);
                        }
                    }
                    lemma_clients_of_at(before, i as int);
                    lemma_clients_of_at(self@, i as int);
                    assert forall|a: Seq<char>| a != agent@ implies clients_of(self@, a) == clients_of(
                        before,
                        a,
                    ) by {
                        lemma_clients_of_compare(before, self@, a);
                    }
                }
            },
            None => {
                let mut senders = Vec::new();
                senders.push(tx);
                let offered: Ghost<Seq<(Option<UnboundedSender<String>>, Seq<char>)>> = Ghost(
                    Seq::empty().push((Some(t), frame)),
                );
                self.clients.push(ClientGroup { agent: to_owned(agent), senders, offered });
                proof {
                    assert forall|j: int| 0 <= j < before_clients.len() implies (#[trigger] before_clients[j]).agent@ != agent@ by {
                        assert(before[j].0 == before_clients[j].agent@);
                    }
                    assert(self@ =~= before.push((agent@, 1nat)));
                    lemma_clients_of_absent(before, agent@);
                    lemma_clients_of_at(self@, before.len() as int);
                    assert forall|a: Seq<char>| a != agent@ implies clients_of(self@, a) == clients_of(
                        before,
                        a,
                    ) by {
                        lemma_clients_of_compare(before, self@, a);
                    }
                }
            },
        }
        rx
    }

    /// Sends `msg` to every client of one group, in order, keeping the
    /// clients that took it and dropping those that are gone.
    fn broadcast_group(group: &mut ClientGroup, msg: &String)
        ensures
            offered_to_all(*old(group), *final(group), msg@),
            final(group).senders@.len() <= old(group).senders@.len(),
    {
        let mut old_senders: Vec<UnboundedSender<String>> = Vec::new();
        std::mem::swap(&mut old_senders, &mut group.senders);
        let ghost orig = old_senders@;
        let ghost mut acc: Seq<bool> = Seq::empty();
        let mut kept: Vec<UnboundedSender<String>> = Vec::new();
        assert(orig.take(0) =~= Seq::<UnboundedSender<String>>::empty());
        assert(orig.skip(0) =~= orig);
        while old_senders.len() > 0
            invariant
                acc.len() <= orig.len(),
                old_senders@ == orig.skip(acc.len() as int),
                kept@ == kept_by(orig.take(acc.len() as int), acc),
            decreases old_senders.len(),
        {
            let ghost k = acc.len() as int;
            let tx = old_senders.remove(0);
            assert(tx == orig[k]);
            assert(old_senders@ =~= orig.skip(k + 1));
            let ok = deliver(&tx, msg.clone());
            if ok {
                kept.push(tx);
            }
            proof {
                let t = orig.take(k + 1);
                assert(t.drop_last() =~= orig.take(k));
                assert(t.last() == orig[k]);
                assert(acc.push(ok).drop_last() =~= acc);
                acc = acc.push(ok);
            }
        }
        assert(orig.take(acc.len() as int) =~= orig);
        group.senders = kept;
        proof {
            group.offered = Ghost(group.offered@.push((None, msg@)));
            lemma_kept_by_len(orig, acc);
        }
    }

    /// Sends the event `event` with data `data` to every client of `agent`;
    /// clients that are gone are dropped. The other agents' clients are left
    /// as they are.
    pub fn send(&mut self, agent: &str, event: &str, data: &str)
        requires
            distinct_agents(old(self)@),
        ensures
            distinct_agents(final(self)@),
            final(self).clients@.len() == old(self).clients@.len(),
            forall|i: int|
                0 <= i < old(self).clients@.len() ==> if (#[trigger] old(self).clients@[i]).agent@ == agent@ {
                    offered_to_all(old(self).clients@[i], final(self).clients@[i], event_frame_spec(event@, data@))
                } else {
                    final(self).clients@[i] == old(self).clients@[i]
                },
            clients_of(final(self)@, agent@) <= clients_of(old(self)@, agent@),
            forall|a: Seq<char>| a != agent@ ==> clients_of(final(self)@, a) == clients_of(old(self)@, a),
    {
        let msg = event_frame(event, data);
        let ghost before = self@;
        let ghost before_clients = self.clients@;
        match self.find(agent) {
            Some(i) => {
                let mut group = self.clients.remove(i);
                Self::broadcast_group(&mut group, &msg);
                let ghost cnt = group.senders@.len();
                let ghost g = group;
                self.clients.insert(i, group);
                proof {
                    assert(self.clients@ =~= before_clients.update(i as int, g));
                    assert(self@ =~= before.update(i as int, (agent@, cnt)));
                    assert forall|j: int| 0 <= j < before_clients.len() && j != i implies (#[trigger] before_clients[j]).agent@ != agent@ by {
                        assert(before[j].0 == before_clients[j].agent@);
                        if j < i {
                            assert(before[j].0 != before[i as int].0);
                        } else {
                            assert(before[i as int].0 != before[j].0);
                        }
                    }
                    lemma_clients_of_at(before, i as int);
                    lemma_clients_of_at(self@, i as int);
                    assert forall|a: Seq<char>| a != agent@ implies clients_of(self@, a) == clients_of(
                        before,
                        a,
                    ) by {
                        lemma_clients_of_compare(before, self@, a);
                    }
                }
            },
            None => {
                proof {
                    assert forall|j: int| 0 <= j < before_clients.len() implies (#[trigger] before_clients[j]).agent@ != agent@ by {
                        assert(before[j].0 == before_clients[j].agent@);
                    }
                }
            },
        }
    }

    /// Sends the heartbeat to every client of every agent; clients that are
    /// gone are dropped.
    pub fn heartbeat(&mut self)
        requires
            distinct_agents(old(self)@),
        ensures
            distinct_agents(final(self)@),
            final(self).clients@.len() == old(self).clients@.len(),
            forall|i: int|
                0 <= i < old(self).clients@.len() ==> offered_to_all(
                    #[trigger] old(self).clients@[i],
                    final(self).clients@[i],
                    HEARTBEAT_FRAME@,
                ),
            final(self)@.len() == old(self)@.len(),
            forall|i: int|
                0 <= i < final(self)@.len() ==> (#[trigger] final(self)@[i]).0 == old(self)@[i].0
                    && final(self)@[i].1 <= old(self)@[i].1,
            forall|a: Seq<char>| #[trigger] clients_of(final(self)@, a) <= clients_of(old(self)@, a),
    {
        let msg = to_owned(HEARTBEAT_FRAME);
        let ghost before = self@;
        let ghost before_clients = self.clients@;
        let mut i: usize = 0;
        while i < self.clients.len()
            invariant
                i <= self.clients@.len(),
                self.clients@.len() == before_clients.len(),
                before == groups_view(before_clients),
                forall|k: int| 0 <= k < i ==> offered_to_all(#[trigger] before_clients[k], self.clients@[k], msg@),
                msg@ == HEARTBEAT_FRAME@,
                forall|k: int| i <= k < self.clients@.len() ==> #[trigger] self.clients@[k] == before_clients[k],
                self@.len() == before.len(),
                forall|k: int|
                    0 <= k < self@.len() ==> (#[trigger] self@[k]).0 == before[k].0 && self@[k].1
                        <= before[k].1,
            decreases self.clients.len() - i,
        {
            let ghost prev = self@;
            let ghost prev_clients = self.clients@;
            let mut group = self.clients.remove(i);
            Self::broadcast_group(&mut group, &msg);
            let ghost cnt = group.senders@.len();
            let ghost g = group;
            self.clients.insert(i, group);
            assert(self.clients@ =~= prev_clients.update(i as int, g));
            assert(self@ =~= prev.update(i as int, (prev[i as int].0, cnt)));
            i = i + 1;
        }
        proof {
            assert(distinct_agents(self@));
            assert forall|a: Seq<char>| #[trigger] clients_of(self@, a) <= clients_of(before, a) by {
                lemma_clients_of_compare(before, self@, a);
            }
        }
    }
}

} // verus!
