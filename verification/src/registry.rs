//! State kept by the multi-client server: the registry of connected clients
//! and the store of the pre-shared key retrieved for each client.
use vstd::prelude::*;

use std::collections::HashMap;

use crate::chat::{
    client_name_from, command_for, parse_server_line, ServerCommand, ServerLine, ServerLineView,
    SERVER_NAME,
};
use crate::noise::Frame;
use crate::text::same_text;

verus! {

broadcast use vstd::std_specs::hash::group_hash_axioms;

/// The connected clients, by connection number. Numbers are handed out in
/// increasing order from 1 and never reused.
pub struct ClientRegistry {
    clients: HashMap<u32, String>,
    counter: u32,
}

impl ClientRegistry {
    /// Every registered number has been handed out.
    #[verifier::type_invariant]
    spec fn numbers_issued(self) -> bool {
        forall|id: u32| #[trigger] self.clients@.contains_key(id) ==> 1 <= id <= self.counter
    }

    /// The names of the connected clients, by connection number.
    pub closed spec fn names(&self) -> Map<u32, Seq<char>> {
        self.clients@.map_values(|s: String| s@)
    }

    /// The last number handed out (0 before the first client).
    pub closed spec fn last_number(&self) -> u32 {
        self.counter
    }

    /// An empty registry.
    pub fn new() -> (r: Self)
        ensures
            r.names() == Map::<u32, Seq<char>>::empty(),
            r.last_number() == 0,
    {
        let r = ClientRegistry { clients: HashMap::new(), counter: 0 };
        assert(r.names() =~= Map::<u32, Seq<char>>::empty());
        r
    }

    /// Registers a client under the next connection number and returns it.
    /// The number is larger than every number in use.
    pub fn register(&mut self, name: String) -> (id: u32)
        requires
            old(self).last_number() < u32::MAX,
        ensures
            id == old(self).last_number() + 1,
            final(self).last_number() == id,
            !old(self).names().contains_key(id),
            forall|k: u32| #[trigger] old(self).names().contains_key(k) ==> k < id,
            final(self).names() == old(self).names().insert(id, name@),
    {
        proof {
            use_type_invariant(&*self);
        }
        let id = self.counter + 1;
        let mut clients: HashMap<u32, String> = HashMap::new();
        std::mem::swap(&mut clients, &mut self.clients);
        clients.insert(id, name);
        self.counter = id;
        self.clients = clients;
        proof {
            assert(self.names() =~= old(self).names().insert(id, name@));
        }
        id
    }

    /// The last number handed out (0 before the first client).
    pub fn issued(&self) -> (r: u32)
        ensures
            r == self.last_number(),
    {
        self.counter
    }

    /// Whether some connected client goes by `name`.
    pub open spec fn knows(&self, name: Seq<char>) -> bool {
        exists|id: u32| #[trigger] self.names().contains_key(id) && self.names()[id] == name
    }

    /// What a line typed at the server console does, given the connected
    /// clients: blank lines prompt again, `@` without a space shows the usage,
    /// a message for an unknown name is refused, anything else is sent, from
    /// the server, to its target or to everyone.
    pub fn console_action(&self, line: &str) -> (r: ConsoleAction)
        ensures
            match crate::chat::parse_server_line_spec(line@) {
                ServerLineView::Empty => r is Prompt,
                ServerLineView::InvalidFormat => r is ShowUsage,
                ServerLineView::Broadcast(c) => r matches ConsoleAction::Send(cmd)
                    && cmd.target is None && cmd.message.sender@ == SERVER_NAME@
                    && cmd.message.content@ == c,
                ServerLineView::Targeted(n, c) => if self.knows(n) {
                    r matches ConsoleAction::Send(cmd) && cmd.target matches Some(t) && t@ == n
                        && cmd.message.sender@ == SERVER_NAME@ && cmd.message.content@ == c
                } else {
                    r matches ConsoleAction::UnknownClient(x) && x@ == n
                },
            },
    {
        let parsed = parse_server_line(line);
        match parsed {
            ServerLine::Empty => ConsoleAction::Prompt,
            ServerLine::InvalidFormat => ConsoleAction::ShowUsage,
            ServerLine::Broadcast(_) => match command_for(&parsed) {
                Some(cmd) => ConsoleAction::Send(cmd),
                None => ConsoleAction::Prompt,
            },
            ServerLine::Targeted { ref name, content: _ } => {
                if self.has_name(name.as_str()) {
                    match command_for(&parsed) {
                        Some(cmd) => ConsoleAction::Send(cmd),
                        None => ConsoleAction::Prompt,
                    }
                } else {
                    ConsoleAction::UnknownClient(name.clone())
                }
            },
        }
    }

    /// Removes the client with connection number `id`, if any.
    pub fn unregister(&mut self, id: u32)
        ensures
            final(self).names() == old(self).names().remove(id),
            final(self).last_number() == old(self).last_number(),
    {
        proof {
            use_type_invariant(&*self);
        }
        let mut clients: HashMap<u32, String> = HashMap::new();
        std::mem::swap(&mut clients, &mut self.clients);
        clients.remove(&id);
        self.clients = clients;
        proof {
            assert(self.names() =~= old(self).names().remove(id));
        }
    }

    /// Whether some connected client goes by `name`.
    pub fn has_name(&self, name: &str) -> (r: bool)
        ensures
            r == self.knows(name@),
    {
        let ghost m = self.clients@;
        let ghost vals = vstd::std_specs::iter::IteratorSpec::remaining(
            &vstd::std_specs::hash::spec_values_iter(&self.clients),
        ).unref();
        assert(vals.to_set() == m.values());
        for v in it: self.clients.values()
            invariant
                m == self.clients@,
                vals.to_set() == m.values(),
                it.seq().unref() == vals,
                forall|k: int| 0 <= k < it.index() ==> (#[trigger] vals[k])@ != name@,
            ensures
                forall|k: int| 0 <= k < vals.len() ==> (#[trigger] vals[k])@ != name@,
        {
            if same_text(v.as_str(), name) {
                proof {
                    assert(vals[it.index()] == *v);
                    assert(vals.contains(*v));
                    assert(m.values().contains(*v));
                    let id = choose|id: u32| #[trigger] m.contains_key(id) && m[id] == *v;
                    assert(self.names().contains_key(id) && self.names()[id] == name@);
                }
                return true;
            }
        }
        proof {
            assert forall|id: u32| #[trigger] self.names().contains_key(id) implies self.names()[id]
                != name@ by {
                assert(m.values().contains(m[id]));
                assert(vals.to_set().contains(m[id]));
                assert(vals.contains(m[id]));
                let k = choose|k: int| 0 <= k < vals.len() && vals[k] == m[id];
                assert(vals[k]@ != name@);
            }
        }
        false
    }
}

/// What the multi-client server does with a line typed at its console.
#[derive(Debug)]
pub enum ConsoleAction {
    /// A blank line: prompt again.
    Prompt,
    /// `@` without a space: show how targeted messages are written.
    ShowUsage,
    /// A targeted message for a name no connected client goes by.
    UnknownClient(String),
    /// Hand this command to the connections.
    Send(ServerCommand),
}

/// How the server answers a new connection after asking for its name.
#[derive(Debug, PartialEq, Eq)]
pub enum Admission {
    /// The first frame was not a name (or the connection ended): drop it.
    NoName,
    /// No pre-shared key is known for this name: close the connection.
    UnknownClient(String),
    /// Go on to the handshake with this key.
    Admitted(String, [u8; 32]),
}

/// `entries` hold each name once, and exactly the names and keys of `model`.
spec fn entries_match(entries: Seq<(String, [u8; 32])>, model: Map<Seq<char>, [u8; 32]>) -> bool {
    &&& forall|i: int|
        0 <= i < entries.len() ==> #[trigger] model.contains_key(entries[i].0@) && model[entries[i].0@]
            == entries[i].1
    &&& forall|k: Seq<char>| #[trigger]
        model.contains_key(k) ==> exists|i: int| 0 <= i < entries.len() && #[trigger] entries[i].0@ == k
    &&& forall|i: int, j: int|
        0 <= i < entries.len() && 0 <= j < entries.len() && i != j ==> #[trigger] entries[i].0@
            != #[trigger] entries[j].0@
}

/// The pre-shared key retrieved for each client, by client name.
///
/// The store is a list of (name, key) pairs that holds each name once,
/// rather than a `HashMap<String, [u8; 32]>`: vstd describes what a
/// `HashMap` holds only for key types it knows to hash consistently with
/// `==` (`obeys_key_model`), which it establishes for integers and `bool`
/// but not for `String`, so no lookup by name could be proved on such a map.
pub struct PskStore {
    entries: Vec<(String, [u8; 32])>,
    model: Ghost<Map<Seq<char>, [u8; 32]>>,
}

impl PskStore {
    /// The entries hold each name once, and exactly the names and keys of
    /// the model.
    #[verifier::type_invariant]
    spec fn entries_match_model(self) -> bool {
        entries_match(self.entries@, self.model@)
    }

    /// The keys, by client name.
    pub closed spec fn keys(&self) -> Map<Seq<char>, [u8; 32]> {
        self.model@
    }

    /// An empty store.
    pub fn new() -> (r: Self)
        ensures
            r.keys() == Map::<Seq<char>, [u8; 32]>::empty(),
    {
        PskStore { entries: Vec::new(), model: Ghost(Map::empty()) }
    }

    /// The position of `name` among the entries, if it is there.
    fn position(&self, name: &str) -> (r: Option<usize>)
        ensures
            match r {
                Some(i) => i < self.entries@.len() && self.entries@[i as int].0@ == name@,
                None => forall|i: int|
                    0 <= i < self.entries@.len() ==> #[trigger] self.entries@[i].0@ != name@,
            },
    {
        let mut i: usize = 0;
        while i < self.entries.len()
            invariant
                i <= self.entries@.len(),
                forall|k: int| 0 <= k < i ==> #[trigger] self.entries@[k].0@ != name@,
            decreases self.entries@.len() - i,
        {
            if same_text(self.entries[i].0.as_str(), name) {
                return Some(i);
            }
            i = i + 1;
        }
        None
    }

    /// Stores `key` for `name`, replacing any key stored for it before.
    pub fn insert(&mut self, name: String, key: [u8; 32])
        ensures
            final(self).keys() == old(self).keys().insert(name@, key),
    {
        proof {
            use_type_invariant(&*self);
        }
        let ghost old_entries = self.entries@;
        let ghost new_model = self.model@.insert(name@, key);
        let ghost name_view = name@;
        let pos = self.position(name.as_str());
        assert(pos is None ==> forall|a: int|
            0 <= a < old_entries.len() ==> #[trigger] old_entries[a].0@ != name_view);
        let mut taken = PskStore::new();
        std::mem::swap(&mut taken, self);
        let PskStore { mut entries, model: _ } = taken;
        assert(entries@ == old_entries);
        match pos {
            Some(i) => {
                entries.set(i, (name, key));
                proof {
                    assert(entries@[i as int].0@ == old_entries[i as int].0@);
                    assert forall|a: int, b: int|
                        0 <= a < entries@.len() && 0 <= b < entries@.len() && a != b implies #[trigger] entries@[a].0@
                            != #[trigger] entries@[b].0@ by {
                        assert(entries@[a].0@ == old_entries[a].0@);
                        assert(entries@[b].0@ == old_entries[b].0@);
                    }
                    assert forall|a: int| 0 <= a < entries@.len() implies #[trigger] new_model.contains_key(
                        entries@[a].0@,
                    ) && new_model[entries@[a].0@] == entries@[a].1 by {
                        if a != i {
                            assert(entries@[a] == old_entries[a]);
                        }
                    }
                    assert forall|k: Seq<char>| #[trigger] new_model.contains_key(k) implies exists|
                        j: int,
                    | 0 <= j < entries@.len() && #[trigger] entries@[j].0@ == k by {
                        if k != entries@[i as int].0@ {
                            let j = choose|j: int|
                                0 <= j < old_entries.len() && #[trigger] old_entries[j].0@ == k;
                            assert(entries@[j].0@ == k);
                        }
                    }
                }
            },
            None => {
                entries.push((name, key));
                proof {
                    let n = (entries@.len() - 1) as int;
                    assert(entries@[n].0@ == name_view);
                    assert forall|a: int, b: int|
                        0 <= a < entries@.len() && 0 <= b < entries@.len() && a != b implies #[trigger] entries@[a].0@
                            != #[trigger] entries@[b].0@ by {
                        if a < n && b < n {
                            assert(entries@[a] == old_entries[a]);
                            assert(entries@[b] == old_entries[b]);
                        } else if a < n {
                            assert(entries@[a] == old_entries[a]);
                            assert(old_entries[a].0@ != name_view);
                        } else {
                            assert(entries@[b] == old_entries[b]);
                            assert(old_entries[b].0@ != name_view);
                        }
                    }
                    assert forall|a: int| 0 <= a < entries@.len() implies #[trigger] new_model.contains_key(
                        entries@[a].0@,
                    ) && new_model[entries@[a].0@] == entries@[a].1 by {
                        if a < n {
                            assert(entries@[a] == old_entries[a]);
                        }
                    }
                    assert forall|k: Seq<char>| #[trigger] new_model.contains_key(k) implies exists|
                        j: int,
                    | 0 <= j < entries@.len() && #[trigger] entries@[j].0@ == k by {
                        if k != entries@[n].0@ {
                            let j = choose|j: int|
                                0 <= j < old_entries.len() && #[trigger] old_entries[j].0@ == k;
                            assert(entries@[j].0@ == k);
                        }
                    }
                }
            },
        }
        assert(entries_match(entries@, new_model));
        *self = PskStore { entries, model: Ghost(new_model) };
    }

    /// How a new connection is answered, given its first frame: a text frame
    /// is the client's name, and only a name with a stored key is admitted,
    /// with that key.
    pub fn answer_connection(&self, first: Option<Frame>) -> (r: Admission)
        ensures
            match first {
                Some(Frame::Text(name)) => if self.keys().contains_key(name@) {
                    r matches Admission::Admitted(n, k) && n == name && k == self.keys()[name@]
                } else {
                    r matches Admission::UnknownClient(n) && n == name
                },
                _ => r is NoName,
            },
    {
        match client_name_from(first) {
            None => Admission::NoName,
            Some(name) => match self.get(name.as_str()) {
                Some(key) => Admission::Admitted(name, key),
                None => Admission::UnknownClient(name),
            },
        }
    }

    /// The key stored for `name`, if any.
    pub fn get(&self, name: &str) -> (r: Option<[u8; 32]>)
        ensures
            match r {
                Some(k) => self.keys().contains_key(name@) && self.keys()[name@] == k,
                None => !self.keys().contains_key(name@),
            },
    {
        proof {
            use_type_invariant(&*self);
        }
        match self.position(name) {
            Some(i) => Some(self.entries[i].1),
            None => {
                proof {
                    if self.model@.contains_key(name@) {
                        let j = choose|j: int|
                            0 <= j < self.entries@.len() && #[trigger] self.entries@[j].0@
                                == name@;
                        assert(self.entries@[j].0@ != name@);
                    }
                }
                None
            },
        }
    }
}

/// Reading a name's key back gives the key last stored for it, and storing
/// a key for one name leaves every other name as it was.
pub proof fn lemma_psk_read_after_write(
    before: Map<Seq<char>, [u8; 32]>,
    name: Seq<char>,
    key: [u8; 32],
    other: Seq<char>,
)
    ensures
        before.insert(name, key).contains_key(name),
        before.insert(name, key)[name] == key,
        other != name ==> before.insert(name, key).contains_key(other) == before.contains_key(
            other,
        ),
        other != name && before.contains_key(other) ==> before.insert(name, key)[other]
            == before[other],
{
}

} // verus!
