//! The flat memory bus the CPU core runs against: a byte-addressable store
//! with an optional read-only low region, the interrupt-enable register, and
//! a schedule of pending peripheral events that `pump` delivers in cycle
//! order.

use vstd::prelude::*;

use crate::alu::{spec_hi, spec_lo, spec_hi_lo, hi, lo, hi_lo, spec_wadd16, wadd16};
use crate::interrupt::Interrupt;

verus! {

/// A peripheral interrupt that fires once the cycle counter reaches `cycle`.
#[derive(Copy, Clone, Debug, PartialEq, Eq, Structural)]
pub struct PeripheralEvent {
    pub cycle: u64,
    pub interrupt: Interrupt,
}

/// The mathematical model of a bus: the mapped bytes, the interrupt-enable
/// register, the bound of the read-only region, and the pending events.
#[verifier::ext_equal]
pub ghost struct BusView {
    pub mem: Seq<u8>,
    pub interrupt_enable: u8,
    pub read_only_below: u16,
    pub events: Seq<PeripheralEvent>,
}

impl BusView {
    /// An address is mapped when it lies inside the backing store.
    pub open spec fn mapped(self, a: u16) -> bool {
        a < self.mem.len()
    }

    /// An address accepts writes when it is mapped and above the read-only
    /// region.
    pub open spec fn writable(self, a: u16) -> bool {
        self.mapped(a) && a >= self.read_only_below
    }

    /// Events are kept sorted by firing cycle, ties broken by interrupt
    /// priority (VBlank first).
    pub open spec fn events_sorted(self) -> bool {
        forall|i: int, j: int|
            0 <= i < j < self.events.len() ==> event_le(
                #[trigger] self.events[i],
                #[trigger] self.events[j],
            )
    }

    pub open spec fn wf(self) -> bool {
        self.mem.len() <= 0x10000 && self.events_sorted()
    }

    /// The cycle of the earliest pending event, or the largest cycle count
    /// when none is pending.
    pub open spec fn next_event_cycle(self) -> u64 {
        if self.events.len() == 0 {
            u64::MAX
        } else {
            self.events[0].cycle
        }
    }

    /// Whether `pump` at `current` delivers an event.
    pub open spec fn pump_fires(self, current: u64) -> bool {
        self.events.len() > 0 && self.events[0].cycle <= current
    }
}

/// The delivery order of two events: the earlier cycle first, and for the
/// same cycle the higher-priority source (the smaller priority number)
/// first.
pub open spec fn event_le(a: PeripheralEvent, b: PeripheralEvent) -> bool {
    a.cycle < b.cycle || (a.cycle == b.cycle && a.interrupt.spec_priority()
        <= b.interrupt.spec_priority())
}

/// The index at which a new event is inserted to keep the schedule sorted:
/// after every event that is delivered no later than it.
pub open spec fn insert_pos(events: Seq<PeripheralEvent>, e: PeripheralEvent) -> int
    decreases events.len(),
{
    if events.len() == 0 {
        0
    } else if event_le(events[0], e) {
        1 + insert_pos(events.drop_first(), e)
    } else {
        0
    }
}

pub proof fn lemma_insert_pos_properties(events: Seq<PeripheralEvent>, e: PeripheralEvent)
    ensures
        0 <= insert_pos(events, e) <= events.len(),
        forall|k: int| 0 <= k < insert_pos(events, e) ==> event_le(#[trigger] events[k], e),
        insert_pos(events, e) < events.len() ==> !event_le(events[insert_pos(events, e)], e),
    decreases events.len(),
{
    if events.len() > 0 && event_le(events[0], e) {
        lemma_insert_pos_properties(events.drop_first(), e);
        assert forall|k: int| 0 <= k < insert_pos(events, e) implies event_le(
            #[trigger] events[k],
            e,
        ) by {
            if k > 0 {
                assert(events.drop_first()[k - 1] == events[k]);
            }
        }
        if insert_pos(events, e) < events.len() {
            assert(events.drop_first()[insert_pos(events, e) - 1] == events[insert_pos(events, e)]);
        }
    }
}

/// The flat memory bus: an owned byte store with a read-only low region, the
/// interrupt-enable register and the pending peripheral events.
pub struct Bus {
    mem: Vec<u8>,
    interrupt_enable: u8,
    read_only_below: u16,
    events: Vec<PeripheralEvent>,
}

impl View for Bus {
    type V = BusView;

    closed spec fn view(&self) -> BusView {
        BusView {
            mem: self.mem@,
            interrupt_enable: self.interrupt_enable,
            read_only_below: self.read_only_below,
            events: self.events@,
        }
    }
}

impl Bus {
    /// A bus over the given backing bytes; writes below `read_only_below`
    /// are refused, no peripheral event is pending, and every interrupt
    /// source is disabled.
    pub fn new(mem: Vec<u8>, read_only_below: u16) -> (r: Bus)
        requires
            mem@.len() <= 0x10000,
        ensures
            r@.mem == mem@,
            r@.interrupt_enable == 0,
            r@.read_only_below == read_only_below,
            r@.events == (Seq::<PeripheralEvent>::empty()),
            r@.wf(),
    {
        Bus { mem, interrupt_enable: 0, read_only_below, events: Vec::new() }
    }

    /// Reads the byte at `a`; fails exactly when `a` is unmapped.
    pub fn read(&self, a: u16) -> (r: Result<u8, ()>)
        ensures
            r is Ok <==> self@.mapped(a),
            r is Ok ==> r->Ok_0 == self@.mem[a as int],
    {
        if (a as usize) < self.mem.len() {
            Ok(self.mem[a as usize])
        } else {
            Err(())
        }
    }

    /// Writes the byte at `a`; fails exactly when `a` is unmapped or
    /// read-only, and then changes nothing.
    pub fn write(&mut self, a: u16, v: u8) -> (r: Result<(), ()>)
        ensures
            r is Ok <==> old(self)@.writable(a),
            r is Ok ==> final (self)@ == (BusView { mem: old(self)@.mem.update(a as int, v), ..old(self)@ }),
            r is Err ==> final (self)@ == old(self)@,
            old(self)@.wf() ==> final (self)@.wf(),
    {
        if (a as usize) < self.mem.len() && a >= self.read_only_below {
            self.mem[a as usize] = v;
            Ok(())
        } else {
            Err(())
        }
    }

    /// Reads the little-endian 16-bit word at `a` and `a + 1` (wrapping);
    /// fails exactly when either byte is unmapped.
    pub fn read16(&self, a: u16) -> (r: Result<u16, ()>)
        ensures
            r is Ok <==> self@.mapped(a) && self@.mapped(spec_wadd16(a, 1)),
            r is Ok ==> r->Ok_0 == spec_hi_lo(
                self@.mem[spec_wadd16(a, 1) as int],
                self@.mem[a as int],
            ),
    {
        let low = self.read(a)?;
        let high = self.read(wadd16(a, 1))?;
        Ok(hi_lo(high, low))
    }

    /// Writes the little-endian 16-bit word at `a` and `a + 1` (wrapping),
    /// both bytes or neither: it fails, changing nothing, exactly when
    /// either byte refuses a write.
    pub fn write16(&mut self, a: u16, v: u16) -> (r: Result<(), ()>)
        ensures
            r is Ok <==> old(self)@.writable(a) && old(self)@.writable(spec_wadd16(a, 1)),
            r is Ok ==> final (self)@ == (BusView {
                mem: old(self)@.mem.update(a as int, spec_lo(v)).update(
                    spec_wadd16(a, 1) as int,
                    spec_hi(v),
                ),
                ..old(self)@
            }),
            r is Err ==> final (self)@ == old(self)@,
            old(self)@.wf() ==> final (self)@.wf(),
    {
        let b = wadd16(a, 1);
        if (a as usize) < self.mem.len() && a >= self.read_only_below && (b as usize)
            < self.mem.len() && b >= self.read_only_below {
            let _lo_write = self.write(a, lo(v));
            let _hi_write = self.write(b, hi(v));
            Ok(())
        } else {
            Err(())
        }
    }

    /// The interrupt-enable register: bits 0 to 4 gate the five sources in
    /// priority order.
    pub fn interrupt_enable(&self) -> (r: u8)
        ensures
            r == self@.interrupt_enable,
    {
        self.interrupt_enable
    }

    /// Sets the interrupt-enable register.
    pub fn set_interrupt_enable(&mut self, v: u8)
        ensures
            final (self)@ == (BusView { interrupt_enable: v, ..old(self)@ }),
            old(self)@.wf() ==> final (self)@.wf(),
    {
        self.interrupt_enable = v;
    }

    /// The cycle of the earliest pending peripheral event, used by halt
    /// coalescing as a lookahead.
    pub fn next_event_cycle(&self) -> (r: u64)
        ensures
            r == self@.next_event_cycle(),
    {
        if self.events.len() == 0 {
            u64::MAX
        } else {
            self.events[0].cycle
        }
    }

    /// Advances the peripherals through `current`: delivers the earliest
    /// pending event once its cycle has been reached, removing it from the
    /// schedule; at most one event is delivered per call.
    pub fn pump(&mut self, current: u64) -> (r: Option<Interrupt>)
        ensures
            old(self)@.pump_fires(current) ==> r == Some(old(self)@.events[0].interrupt)
                && final (self)@ == (BusView {
                events: old(self)@.events.drop_first(),
                ..old(self)@
            }),
            !old(self)@.pump_fires(current) ==> r == (None::<Interrupt>) && final (self)@ == old(
                self,
            )@,
            old(self)@.wf() ==> final (self)@.wf(),
    {
        if self.events.len() > 0 && self.events[0].cycle <= current {
            let ev = self.events.remove(0);
            proof {
                assert(old(self)@.events.remove(0) =~= old(self)@.events.drop_first());
            }
            Some(ev.interrupt)
        } else {
            None
        }
    }

    /// Schedules a peripheral interrupt to fire once the cycle counter
    /// reaches `cycle`, keeping the schedule in delivery order; among events
    /// due at the same cycle the higher-priority source comes first, and an
    /// equal event already scheduled stays ahead of the new one.
    pub fn schedule(&mut self, cycle: u64, interrupt: Interrupt)
        requires
            old(self)@.wf(),
        ensures
            final (self)@ == (BusView {
                events: old(self)@.events.insert(
                    insert_pos(old(self)@.events, PeripheralEvent { cycle, interrupt }),
                    PeripheralEvent { cycle, interrupt },
                ),
                ..old(self)@
            }),
            final (self)@.wf(),
    {
        let ev = PeripheralEvent { cycle, interrupt };
        proof {
            lemma_insert_pos_properties(self@.events, ev);
        }
        let ghost pos = insert_pos(self@.events, ev);
        let mut i: usize = 0;
        while i < self.events.len() && (self.events[i].cycle < cycle || (self.events[i].cycle
            == cycle && self.events[i].interrupt.priority() <= interrupt.priority()))
            invariant
                0 <= i <= self@.events.len(),
                forall|k: int| 0 <= k < i ==> event_le(#[trigger] self@.events[k], ev),
                self@ == old(self)@,
                ev == (PeripheralEvent { cycle, interrupt }),
                pos == insert_pos(self@.events, ev),
                0 <= pos <= self@.events.len(),
                forall|k: int| 0 <= k < pos ==> event_le(#[trigger] self@.events[k], ev),
                pos < self@.events.len() ==> !event_le(self@.events[pos as int], ev),
            decreases self@.events.len() - i,
        {
            i += 1;
        }
        proof {
            if i < pos {
                assert(event_le(self@.events[i as int], ev));
            }
            assert(i == pos);
        }
        self.events.insert(i, ev);
        proof {
            let pre = old(self)@.events;
            let post = self@.events;
            assert forall|x: int, y: int| 0 <= x < y < post.len() implies event_le(
                #[trigger] post[x],
                #[trigger] post[y],
            ) by {
                if x < pos && y < pos {
                } else if x < pos && y == pos {
                } else if x < pos && y > pos {
                    assert(post[y] == pre[y - 1]);
                } else if x == pos && y > pos {
                    assert(post[y] == pre[y - 1]);
                } else if x > pos && y > pos {
                    assert(post[x] == pre[x - 1]);
                    assert(post[y] == pre[y - 1]);
                }
            }
        }
    }
}

} // verus!
