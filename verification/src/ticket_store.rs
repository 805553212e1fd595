use vstd::prelude::*;
use crate::text::str_eq;
use crate::ticket::ProcessedTicket;

verus! {

/// The records in flight, each found by the id of its ticket.
///
/// The store itself is a plain value. A host that shares it between tasks
/// puts it behind one reader-writer lock and enters it only for the length
/// of a single call.
#[derive(Debug)]
pub struct TicketStore {
    tickets: Vec<ProcessedTicket>,
}

impl View for TicketStore {
    type V = Map<Seq<char>, ProcessedTicket>;

    /// The store as a map from ticket id to record.
    closed spec fn view(&self) -> Map<Seq<char>, ProcessedTicket> {
        Map::new(|id: Seq<char>| self.holds(id), |id: Seq<char>| self.tickets@[self.slot(id)])
    }
}

impl TicketStore {
    closed spec fn holds(self, id: Seq<char>) -> bool {
        exists|i: int| 0 <= i < self.tickets@.len() && #[trigger] self.tickets@[i].ticket.id@ == id
    }

    closed spec fn slot(self, id: Seq<char>) -> int {
        choose|i: int| 0 <= i < self.tickets@.len() && #[trigger] self.tickets@[i].ticket.id@ == id
    }

    /// No two records share an id, and so each record is stored under the id
    /// of its own ticket. This holds of every store that a program can get
    /// hold of.
    #[verifier::type_invariant]
    spec fn wf(self) -> bool {
        forall|i: int, j: int|
            0 <= i < j < self.tickets@.len() ==> #[trigger] self.tickets@[i].ticket.id@
                != #[trigger] self.tickets@[j].ticket.id@
    }

    proof fn lemma_slot(self, i: int)
        requires
            self.wf(),
            0 <= i < self.tickets@.len(),
        ensures
            self.holds(self.tickets@[i].ticket.id@),
            self.slot(self.tickets@[i].ticket.id@) == i,
            self@.contains_key(self.tickets@[i].ticket.id@),
            self@[self.tickets@[i].ticket.id@] == self.tickets@[i],
    {
        let id = self.tickets@[i].ticket.id@;
        let j = self.slot(id);
        assert(0 <= j < self.tickets@.len() && self.tickets@[j].ticket.id@ == id);
        if j < i {
            assert(self.tickets@[j].ticket.id@ != self.tickets@[i].ticket.id@);
        } else if i < j {
            assert(self.tickets@[i].ticket.id@ != self.tickets@[j].ticket.id@);
        }
    }

    pub fn new() -> (store: Self)
        ensures
            store@ == Map::<Seq<char>, ProcessedTicket>::empty(),
    {
        let store = TicketStore { tickets: Vec::new() };
        assert(store@ =~= Map::<Seq<char>, ProcessedTicket>::empty());
        store
    }

    /// Takes the records out of the store, which is left empty, so that they
    /// can be changed and put back in one step.
    fn take_tickets(&mut self) -> (tickets: Vec<ProcessedTicket>)
        ensures
            tickets == old(self).tickets,
            final(self).tickets@.len() == 0,
    {
        let mut tickets: Vec<ProcessedTicket> = Vec::new();
        core::mem::swap(&mut self.tickets, &mut tickets);
        tickets
    }

    fn position(&self, id: &str) -> (found: Option<usize>)
        ensures
            match found {
                Some(i) => i < self.tickets@.len() && self.tickets@[i as int].ticket.id@ == id@,
                None => !self.holds(id@),
            },
    {
        let mut i: usize = 0;
        while i < self.tickets.len()
            invariant
                i <= self.tickets@.len(),
                forall|k: int| 0 <= k < i ==> self.tickets@[k].ticket.id@ != id@,
            decreases self.tickets@.len() - i,
        {
            if str_eq(self.tickets[i].ticket.id.as_str(), id) {
                return Some(i);
            }
            i += 1;
        }
        None
    }

    /// Stores the record under the id of its ticket. A record that was
    /// stored under that id before is replaced.
    pub fn add_ticket(&mut self, ticket: ProcessedTicket)
        ensures
            final(self)@ == old(self)@.insert(ticket.ticket.id@, ticket),
    {
        proof {
            use_type_invariant(&*self);
        }
        let found = self.position(ticket.ticket.id.as_str());
        match found {
            Some(i) => {
                proof {
                    self.lemma_slot(i as int);
                }
                let mut tickets = self.take_tickets();
                tickets.set(i, ticket);
                self.tickets = tickets;
                proof {
                    Self::lemma_replaced(*old(self), *self, i as int, ticket);
                }
            },
            None => {
                let mut tickets = self.take_tickets();
                tickets.push(ticket);
                self.tickets = tickets;
                proof {
                    let n = old(self).tickets@.len() as int;
                    assert(self.tickets@[n] == ticket);
                    assert forall|id: Seq<char>| #[trigger]
                        self@.contains_key(id) <==> (id == ticket.ticket.id@ || old(
                            self,
                        )@.contains_key(id)) by {
                        if old(self).holds(id) {
                            let j = old(self).slot(id);
                            assert(self.tickets@[j].ticket.id@ == id);
                        }
                        if id == ticket.ticket.id@ {
                            assert(self.tickets@[n].ticket.id@ == id);
                        }
                        if self.holds(id) {
                            let j = self.slot(id);
                            if j < n {
                                assert(old(self).tickets@[j].ticket.id@ == id);
                            }
                        }
                    }
                    assert forall|id: Seq<char>| #[trigger]
                        self@.contains_key(id) implies self@[id] == old(self)@.insert(
                        ticket.ticket.id@,
                        ticket,
                    )[id] by {
                        let j = self.slot(id);
                        self.lemma_slot(j);
                        if j < n {
                            assert(old(self).tickets@[j].ticket.id@ == id);
                            old(self).lemma_slot(j);
                        }
                    }
                    assert(self@ =~= old(self)@.insert(ticket.ticket.id@, ticket));
                }
            },
        }
    }

    /// Replacing the record in one slot by a record with the same id is an
    /// insert under that id.
    proof fn lemma_replaced(before: Self, after: Self, i: int, record: ProcessedTicket)
        requires
            before.wf(),
            after.wf(),
            0 <= i < before.tickets@.len(),
            after.tickets@ == before.tickets@.update(i, record),
            record.ticket.id@ == before.tickets@[i].ticket.id@,
        ensures
            after@ == before@.insert(record.ticket.id@, record),
    {
        assert forall|id: Seq<char>| #[trigger]
            after@.contains_key(id) <==> (id == record.ticket.id@ || before@.contains_key(id)) by {
            if before.holds(id) {
                let j = before.slot(id);
                assert(after.tickets@[j].ticket.id@ == id);
            }
            if id == record.ticket.id@ {
                assert(after.tickets@[i].ticket.id@ == id);
            }
            if after.holds(id) {
                let j = after.slot(id);
                assert(before.tickets@[j].ticket.id@ == id);
            }
        }
        assert forall|id: Seq<char>| #[trigger] after@.contains_key(id) implies after@[id]
            == before@.insert(record.ticket.id@, record)[id] by {
            let j = after.slot(id);
            after.lemma_slot(j);
            if j != i {
                assert(before.tickets@[j].ticket.id@ == id);
                before.lemma_slot(j);
            }
        }
        assert(after@ =~= before@.insert(record.ticket.id@, record));
    }

    /// A copy of the record stored under the id, if there is one.
    pub fn get_ticket(&self, id: &str) -> (found: Option<ProcessedTicket>)
        ensures
            found == (if self@.contains_key(id@) {
                Some(self@[id@])
            } else {
                None
            }),
            found matches Some(record) ==> record.ticket.id@ == id@,
    {
        proof {
            use_type_invariant(self);
        }
        match self.position(id) {
            Some(i) => {
                proof {
                    self.lemma_slot(i as int);
                }
                Some(self.tickets[i].clone())
            },
            None => None,
        }
    }

    /// Takes the record stored under the id out of the store; without such
    /// a record nothing changes.
    pub fn remove_ticket(&mut self, id: &str)
        ensures
            final(self)@ == old(self)@.remove(id@),
    {
        proof {
            use_type_invariant(&*self);
        }
        match self.position(id) {
            Some(i) => {
                let mut tickets = self.take_tickets();
                let _ = tickets.remove(i);
                self.tickets = tickets;
                proof {
                    let before = old(self).tickets@;
                    let after = self.tickets@;
                    assert(after =~= before.remove(i as int));
                    assert forall|k: int| 0 <= k < after.len() implies after[k] == before[if k
                        < i {
                        k
                    } else {
                        k + 1
                    }] by {}
                    assert forall|key: Seq<char>| #[trigger]
                        self@.contains_key(key) <==> (key != id@ && old(self)@.contains_key(
                            key,
                        )) by {
                        if old(self).holds(key) && key != id@ {
                            let j = old(self).slot(key);
                            let j1 = if j < i {
                                j
                            } else {
                                j - 1
                            };
                            assert(after[j1].ticket.id@ == key);
                        }
                        if self.holds(key) {
                            let j = self.slot(key);
                            let j0 = if j < i {
                                j
                            } else {
                                j + 1
                            };
                            assert(before[j0].ticket.id@ == key);
                            if key == id@ {
                                if j0 < i {
                                    assert(before[j0].ticket.id@ != before[i as int].ticket.id@);
                                } else {
                                    assert(before[i as int].ticket.id@ != before[j0].ticket.id@);
                                }
                            }
                        }
                    }
                    assert forall|key: Seq<char>| #[trigger]
                        self@.contains_key(key) implies self@[key] == old(self)@[key] by {
                        let j = self.slot(key);
                        self.lemma_slot(j);
                        let j0 = if j < i {
                            j
                        } else {
                            j + 1
                        };
                        assert(before[j0].ticket.id@ == key);
                        old(self).lemma_slot(j0);
                    }
                    assert(self@ =~= old(self)@.remove(id@));
                }
            },
            None => {
                assert(self@ =~= old(self)@.remove(id@));
            },
        }
    }

    /// Merges the update into the record stored under the id and hands back
    /// a copy of the merged record; without such a record nothing changes.
    /// No record under another id is touched.
    pub fn update_ticket(&mut self, id: &str, update: ProcessedTicket) -> (updated: Option<
        ProcessedTicket,
    >)
        ensures
            old(self)@.contains_key(id@) ==> {
                &&& updated == Some(old(self)@[id@].merged(update))
                &&& final(self)@ == old(self)@.insert(id@, old(self)@[id@].merged(update))
            },
            !old(self)@.contains_key(id@) ==> updated.is_none() && final(self)@ == old(self)@,
            updated matches Some(record) ==> record.ticket.id@ == id@,
            forall|other: Seq<char>|
                other != id@ ==> (#[trigger] final(self)@.contains_key(other)) == old(
                    self,
                )@.contains_key(other) && final(self)@[other] == old(self)@[other],
    {
        proof {
            use_type_invariant(&*self);
        }
        match self.position(id) {
            Some(i) => {
                proof {
                    self.lemma_slot(i as int);
                }
                let mut record = self.tickets[i].clone();
                record.merge_from(update);
                let snapshot = record.clone();
                let mut tickets = self.take_tickets();
                tickets.set(i, record);
                self.tickets = tickets;
                proof {
                    Self::lemma_replaced(*old(self), *self, i as int, record);
                }
                Some(snapshot)
            },
            None => None,
        }
    }
}

impl Default for TicketStore {
    fn default() -> (store: Self)
        ensures
            store@ == Map::<Seq<char>, ProcessedTicket>::empty(),
    {
        TicketStore::new()
    }
}

} // verus!
