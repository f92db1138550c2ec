use vstd::prelude::*;

use crate::utils::blocking_queue::BlockingQueue;
use crate::utils::{Address, Byte};

verus! {

/// The highest level above `priority` whose queue in `queues` (levels 4 to 7) is not empty,
/// or 0 when there is none.
pub open spec fn pending_level_of(queues: Seq<Seq<Address>>, priority: int) -> int {
    if priority < 7 && queues[3].len() > 0 {
        7
    } else if priority < 6 && queues[2].len() > 0 {
        6
    } else if priority < 5 && queues[1].len() > 0 {
        5
    } else if priority < 4 && queues[0].len() > 0 {
        4
    } else {
        0
    }
}

/// `queues` once the oldest request of `level` is delivered.
pub open spec fn deliver(queues: Seq<Seq<Address>>, level: int) -> Seq<Seq<Address>> {
    queues.update(level - 4, queues[level - 4].drop_first())
}

/// Pending interrupt requests, one FIFO queue of vector addresses for each bus level 4 to 7.
pub struct InterruptionBus {
    interruption_br4: BlockingQueue<Address>,
    interruption_br5: BlockingQueue<Address>,
    interruption_br6: BlockingQueue<Address>,
    interruption_br7: BlockingQueue<Address>,
}

impl View for InterruptionBus {
    type V = Seq<Seq<Address>>;

    /// The queues of levels 4 to 7.
    closed spec fn view(&self) -> Seq<Seq<Address>> {
        seq![
            self.interruption_br4@,
            self.interruption_br5@,
            self.interruption_br6@,
            self.interruption_br7@,
        ]
    }
}

impl InterruptionBus {
    /// The requests pending at `level`, oldest first.
    pub open spec fn queue(&self, level: int) -> Seq<Address> {
        if 4 <= level <= 7 {
            self@[level - 4]
        } else {
            Seq::empty()
        }
    }

    /// Every pending vector is an address.
    pub open spec fn wf(&self) -> bool {
        &&& self@.len() == 4
        &&& forall|l: int, i: int|
            4 <= l <= 7 && 0 <= i < self.queue(l).len() ==> #[trigger] self.queue(l)[i] < 0x10000
    }

    /// The highest level above `priority` with a pending request, or 0 when there is none.
    pub open spec fn pending_level(&self, priority: int) -> int {
        pending_level_of(self@, priority)
    }

    pub fn new() -> (r: Self)
        ensures
            r.wf(),
            r@ == seq![Seq::<Address>::empty(), Seq::empty(), Seq::empty(), Seq::empty()],
            forall|l: int| #[trigger] r.queue(l) == Seq::<Address>::empty(),
    {
        InterruptionBus {
            interruption_br4: BlockingQueue::new(),
            interruption_br5: BlockingQueue::new(),
            interruption_br6: BlockingQueue::new(),
            interruption_br7: BlockingQueue::new(),
        }
    }

    /// Raises a request for the trap at `vector_address` on bus level `priority`.
    pub fn interrupt(&mut self, vector_address: Address, priority: Byte)
        requires
            old(self).wf(),
            4 <= priority <= 7,
            vector_address < 0x10000,
        ensures
            final(self).wf(),
            final(self).queue(priority as int) == old(self).queue(priority as int).push(
                vector_address,
            ),
            forall|l: int| l != priority ==> #[trigger] final(self).queue(l) == old(self).queue(l),
            final(self)@ == old(self)@.update(priority - 4, old(self)@[priority - 4].push(vector_address)),
    {
        if priority == 4 {
            self.interruption_br4.push(vector_address);
        } else if priority == 5 {
            self.interruption_br5.push(vector_address);
        } else if priority == 6 {
            self.interruption_br6.push(vector_address);
        } else {
            self.interruption_br7.push(vector_address);
        }
        assert(self@ =~= old(self)@.update(priority - 4, old(self)@[priority - 4].push(vector_address)));
        assert forall|l: int, i: int|
            4 <= l <= 7 && 0 <= i < self.queue(l).len() implies #[trigger] self.queue(l)[i]
            < 0x10000 by {
            if l != priority || i < old(self).queue(l).len() {
                assert(self.queue(l)[i] == old(self).queue(l)[i]);
            }
        }
    }

    /// Takes the oldest request of the highest level above `priority`, if there is one;
    /// at priority 7 or more, none is taken.
    pub fn next_interruption_if_any(&mut self, priority: Byte) -> (r: Option<Address>)
        requires
            old(self).wf(),
        ensures
            final(self).wf(),
            ({
                let level = old(self).pending_level(priority as int);
                &&& level == 0 ==> r is None && *final(self) == *old(self)
                &&& level != 0 ==> final(self)@ == deliver(old(self)@, level)
                &&& level != 0 ==> r == Some(old(self).queue(level)[0]) && final(self).queue(level)
                    == old(self).queue(level).drop_first() && forall|l: int|
                    l != level ==> #[trigger] final(self).queue(l) == old(self).queue(l)
            }),
    {
        if priority >= 7 {
            return None;
        }
        if self.interruption_br7.len() > 0 {
            let r = self.interruption_br7.pop();
            proof {
                lemma_pop_keeps_wf(*old(self), *self, 7);
            }
            return r;
        }
        if priority == 6 {
            return None;
        }
        if self.interruption_br6.len() > 0 {
            let r = self.interruption_br6.pop();
            proof {
                lemma_pop_keeps_wf(*old(self), *self, 6);
            }
            return r;
        }
        if priority == 5 {
            return None;
        }
        if self.interruption_br5.len() > 0 {
            let r = self.interruption_br5.pop();
            proof {
                lemma_pop_keeps_wf(*old(self), *self, 5);
            }
            return r;
        }
        if priority == 4 {
            return None;
        }
        if self.interruption_br4.len() > 0 {
            let r = self.interruption_br4.pop();
            proof {
                lemma_pop_keeps_wf(*old(self), *self, 4);
            }
            return r;
        }
        None
    }
}

proof fn lemma_pop_keeps_wf(before: InterruptionBus, after: InterruptionBus, level: int)
    requires
        before.wf(),
        4 <= level <= 7,
        before.queue(level).len() > 0,
        after.queue(level) == before.queue(level).drop_first(),
        forall|l: int| l != level ==> #[trigger] after.queue(l) == before.queue(l),
    ensures
        after.wf(),
{
    assert(after@.len() == 4);
    assert forall|l: int, i: int|
        4 <= l <= 7 && 0 <= i < after.queue(l).len() implies #[trigger] after.queue(l)[i]
        < 0x10000 by {
        if l == level {
            assert(after.queue(l)[i] == before.queue(l)[i + 1]);
        } else {
            assert(after.queue(l)[i] == before.queue(l)[i]);
        }
    }
}

/// A request at level `l` is delivered only when `l` is above the current priority `p`;
/// the one delivered is at the highest such level that has a request pending.
pub proof fn lemma_interrupt_priority(bus: InterruptionBus, p: int, l: int)
    requires
        0 <= p <= 7,
        4 <= l <= 7,
        bus.queue(l).len() > 0,
    ensures
        l > p ==> bus.pending_level(p) >= l,
        bus.pending_level(p) != 0 ==> bus.pending_level(p) > p && bus.queue(bus.pending_level(p)).len() > 0,
        bus.pending_level(p) == 0 ==> l <= p,
{
}

} // verus!
