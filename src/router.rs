//! The sender table, which maps each device id to the channel of its
//! current session, and the routing of bus commands through it.
use vstd::prelude::*;
use crate::topic::{MqttCommand, command_of, command_topic_parser};

verus! {

/// Where a command from the automation bus goes.
pub enum Route<'a, S> {
    /// The topic and payload form no command.
    Unparsed,
    /// A command for a device with no session in the table; it is dropped.
    UnknownDevice(String),
    /// A command and the sender of its device's session.
    Deliver(&'a S, MqttCommand),
}

/// Device id to the sender of the device's current session. A session that
/// (re)starts replaces its device's sender.
pub struct SenderTable<S> {
    entries: Vec<(String, S)>,
}

pub open spec fn keys_unique<S>(e: Seq<(String, S)>) -> bool {
    forall|i: int, j: int|
        0 <= i < e.len() && 0 <= j < e.len() && i != j ==> (#[trigger] e[i]).0@ != (
        #[trigger] e[j]).0@
}

pub open spec fn entries_map<S>(e: Seq<(String, S)>) -> Map<Seq<char>, S> {
    Map::new(
        |k: Seq<char>| exists|i: int| 0 <= i < e.len() && (#[trigger] e[i]).0@ == k,
        |k: Seq<char>| e[choose|i: int| 0 <= i < e.len() && (#[trigger] e[i]).0@ == k].1,
    )
}

proof fn lemma_entries_map_at<S>(e: Seq<(String, S)>, i: int)
    requires
        keys_unique(e),
        0 <= i < e.len(),
    ensures
        entries_map(e).contains_key(e[i].0@),
        entries_map(e)[e[i].0@] == e[i].1,
{
    let k = e[i].0@;
    assert(exists|j: int| 0 <= j < e.len() && (#[trigger] e[j]).0@ == k);
    let j = choose|j: int| 0 <= j < e.len() && (#[trigger] e[j]).0@ == k;
    assert(j == i);
}

impl<S> View for SenderTable<S> {
    type V = Map<Seq<char>, S>;

    closed spec fn view(&self) -> Map<Seq<char>, S> {
        entries_map(self.entries@)
    }
}

impl<S> SenderTable<S> {
    /// Each device id stands in the table at most once.
    pub closed spec fn wf(&self) -> bool {
        keys_unique(self.entries@)
    }

    pub fn new() -> (r: Self)
        ensures
            r.wf(),
            r@ == Map::<Seq<char>, S>::empty(),
    {
        let r = SenderTable { entries: Vec::new() };
        assert(r@ =~= Map::<Seq<char>, S>::empty());
        r
    }

    fn position(&self, device_id: &str) -> (r: Option<usize>)
        requires
            self.wf(),
        ensures
            match r {
                Some(i) => i < self.entries@.len() && self.entries@[i as int].0@ == device_id@,
                None => !self@.contains_key(device_id@),
            },
    {
        let mut i: usize = 0;
        while i < self.entries.len()
            invariant
                i <= self.entries@.len(),
                forall|j: int| 0 <= j < i ==> self.entries@[j].0@ != device_id@,
            decreases self.entries@.len() - i,
        {
            if crate::text::text_eq(self.entries[i].0.as_str(), device_id) {
                return Some(i);
            }
            i = i + 1;
        }
        None
    }

    /// The sender of the device's current session, if it has one.
    pub fn get(&self, device_id: &str) -> (r: Option<&S>)
        requires
            self.wf(),
        ensures
            r is Some == self@.contains_key(device_id@),
            r is Some ==> *r->0 == self@[device_id@],
    {
        match self.position(device_id) {
            Some(i) => {
                proof {
                    lemma_entries_map_at(self.entries@, i as int);
                }
                Some(&self.entries[i].1)
            },
            None => None,
        }
    }

    /// Makes `sender` the device's sender, replacing any earlier one.
    pub fn register(&mut self, device_id: String, sender: S)
        requires
            old(self).wf(),
        ensures
            final(self).wf(),
            final(self)@ == old(self)@.insert(device_id@, sender),
    {
        let ghost old_e = self.entries@;
        let ghost k = device_id@;
        match self.position(device_id.as_str()) {
            Some(i) => {
                self.entries.set(i, (device_id, sender));
                let ghost new_e = self.entries@;
                assert(new_e == old_e.update(i as int, new_e[i as int]));
                assert(keys_unique(new_e)) by {
                    assert forall|a: int, b: int|
                        0 <= a < new_e.len() && 0 <= b < new_e.len() && a != b implies (
                    #[trigger] new_e[a]).0@ != (#[trigger] new_e[b]).0@ by {
                        assert(old_e[a].0@ != old_e[b].0@);
                    }
                }
                assert(entries_map(new_e) =~= entries_map(old_e).insert(k, sender)) by {
                    assert forall|x: Seq<char>| #[trigger]
                        entries_map(new_e).contains_key(x) <==> entries_map(old_e).insert(
                            k,
                            sender,
                        ).contains_key(x) by {
                        if entries_map(new_e).contains_key(x) {
                            let j = choose|j: int| 0 <= j < new_e.len() && (#[trigger] new_e[j]).0@ == x;
                            if j != i {
                                assert(old_e[j].0@ == x);
                            }
                        }
                        if entries_map(old_e).contains_key(x) && x != k {
                            let j = choose|j: int| 0 <= j < old_e.len() && (#[trigger] old_e[j]).0@ == x;
                            assert(new_e[j].0@ == x);
                        }
                        if x == k {
                            assert(new_e[i as int].0@ == x);
                        }
                    }
                    assert forall|x: Seq<char>| #[trigger]
                        entries_map(new_e).contains_key(x) implies entries_map(new_e)[x]
                        == entries_map(old_e).insert(k, sender)[x] by {
                        let j = choose|j: int| 0 <= j < new_e.len() && (#[trigger] new_e[j]).0@ == x;
                        lemma_entries_map_at(new_e, j);
                        if j != i {
                            lemma_entries_map_at(old_e, j);
                        }
                    }
                }
            },
            None => {
                self.entries.push((device_id, sender));
                let ghost new_e = self.entries@;
                assert(new_e == old_e.push(new_e[old_e.len() as int]));
                assert(keys_unique(new_e)) by {
                    assert forall|a: int, b: int|
                        0 <= a < new_e.len() && 0 <= b < new_e.len() && a != b implies (
                    #[trigger] new_e[a]).0@ != (#[trigger] new_e[b]).0@ by {
                        if a < old_e.len() && b < old_e.len() {
                            assert(old_e[a].0@ != old_e[b].0@);
                        } else if a < old_e.len() {
                            assert(entries_map(old_e).contains_key(old_e[a].0@));
                        } else {
                            assert(entries_map(old_e).contains_key(old_e[b].0@));
                        }
                    }
                }
                assert(entries_map(new_e) =~= entries_map(old_e).insert(k, sender)) by {
                    let n = old_e.len() as int;
                    assert forall|x: Seq<char>| #[trigger]
                        entries_map(new_e).contains_key(x) <==> entries_map(old_e).insert(
                            k,
                            sender,
                        ).contains_key(x) by {
                        if entries_map(new_e).contains_key(x) {
                            let j = choose|j: int| 0 <= j < new_e.len() && (#[trigger] new_e[j]).0@ == x;
                            if j != n {
                                assert(old_e[j].0@ == x);
                            }
                        }
                        if entries_map(old_e).contains_key(x) && x != k {
                            let j = choose|j: int| 0 <= j < old_e.len() && (#[trigger] old_e[j]).0@ == x;
                            assert(new_e[j].0@ == x);
                        }
                        if x == k {
                            assert(new_e[n].0@ == x);
                        }
                    }
                    assert forall|x: Seq<char>| #[trigger]
                        entries_map(new_e).contains_key(x) implies entries_map(new_e)[x]
                        == entries_map(old_e).insert(k, sender)[x] by {
                        let j = choose|j: int| 0 <= j < new_e.len() && (#[trigger] new_e[j]).0@ == x;
                        lemma_entries_map_at(new_e, j);
                        if j != n {
                            lemma_entries_map_at(old_e, j);
                        }
                    }
                }
            },
        }
    }

    /// Routes a command from the automation bus: parses topic and payload,
    /// then finds the sender of the device's session. A command for a
    /// device without a session is not queued.
    pub fn route_command<'a>(&'a self, topic: &str, payload: &str) -> (r: Route<'a, S>)
        requires
            self.wf(),
        ensures
            match command_of(topic@, payload@) {
                None => r is Unparsed,
                Some(c) => if self@.contains_key(c.device_id()) {
                    &&& r is Deliver
                    &&& *r->Deliver_0 == self@[c.device_id()]
                    &&& r->Deliver_1@ == c
                } else {
                    &&& r is UnknownDevice
                    &&& r->UnknownDevice_0@ == c.device_id()
                },
            },
    {
        match command_topic_parser(topic, payload) {
            None => Route::Unparsed,
            Some(parsed) => match self.get(parsed.device_id.as_str()) {
                Some(sender) => Route::Deliver(sender, parsed.command),
                None => Route::UnknownDevice(parsed.device_id),
            },
        }
    }
}

} // verus!
