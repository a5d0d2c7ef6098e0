use vstd::prelude::*;

verus! {

/// The timer: a free-running divider incremented every cycle, and a
/// configurable counter incremented once per `rate` divider increments.
/// When the counter wraps past 0xFF it holds zero for one cycle and then
/// reloads from the reload register; the reload value is read at the end
/// of that one-cycle window, so a write landing inside it takes effect.
pub struct Timer {
    /// The free-running divider.
    pub div: u8,
    /// The configurable counter.
    pub tima: u8,
    /// The reload value the counter restarts from after an overflow.
    pub tma: u8,
    /// Control: bit 2 enables the counter, bits 0-1 select its rate.
    pub tac: u8,
    /// Divider increments seen since the counter last moved.
    pub acc: u16,
    /// An overflow happened on the previous cycle; the reload is due.
    pub reloading: bool,
    /// A counter overflow has requested the timer interrupt; the bus
    /// consumes and clears this.
    pub irq: bool,
}

/// Divider increments per counter increment, selected by the low two
/// control bits.
pub open spec fn timer_rate(tac: u8) -> int {
    if tac & 0x03 == 0 {
        1024
    } else if tac & 0x03 == 1 {
        16
    } else if tac & 0x03 == 2 {
        64
    } else {
        256
    }
}

/// One cycle of timer behaviour: the divider always increments; a pending
/// reload lands; an enabled counter ticks every `timer_rate` cycles and on
/// wrapping past 0xFF goes to zero, schedules the reload, and raises the
/// interrupt request.
pub open spec fn timer_step(t: Timer) -> Timer {
    let t1 = Timer {
        div: t.div.wrapping_add(1),
        tima: if t.reloading {
            t.tma
        } else {
            t.tima
        },
        reloading: false,
        ..t
    };
    if t.tac & 0x04 != 0 {
        if t1.acc + 1 >= timer_rate(t.tac) {
            if t1.tima == 0xFF {
                Timer { acc: 0, tima: 0, reloading: true, irq: true, ..t1 }
            } else {
                Timer { acc: 0, tima: (t1.tima + 1) as u8, ..t1 }
            }
        } else {
            Timer { acc: (t1.acc + 1) as u16, ..t1 }
        }
    } else {
        t1
    }
}

/// `timer_step` iterated `n` times.
pub open spec fn timer_advance(t: Timer, n: nat) -> Timer
    decreases n,
{
    if n == 0 {
        t
    } else {
        timer_step(timer_advance(t, (n - 1) as nat))
    }
}

impl Timer {
    /// The internal tick accumulator never reaches the largest rate.
    pub open spec fn wf(self) -> bool {
        self.acc < 1024
    }

    /// Power-on timer state: everything cleared.
    pub fn new() -> (t: Timer)
        ensures
            t.wf(),
            t == (Timer {
                div: 0,
                tima: 0,
                tma: 0,
                tac: 0,
                acc: 0,
                reloading: false,
                irq: false,
            }),
    {
        Timer { div: 0, tima: 0, tma: 0, tac: 0, acc: 0, reloading: false, irq: false }
    }

    /// Advance the timer by `cycles` cycles, one `timer_step` per cycle.
    pub fn advance(&mut self, cycles: u32)
        requires
            old(self).wf(),
        ensures
            *final(self) == timer_advance(*old(self), cycles as nat),
            final(self).wf(),
    {
        let mut i: u32 = 0;
        while i < cycles
            invariant
                i <= cycles,
                *self == timer_advance(*old(self), i as nat),
                self.wf(),
            decreases cycles - i,
        {
            proof {
                assert(timer_advance(*old(self), (i + 1) as nat) == timer_step(
                    timer_advance(*old(self), i as nat),
                ));
            }
            self.step_one();
            i = i + 1;
        }
    }

    /// One cycle of the timer, matching `timer_step` exactly.
    fn step_one(&mut self)
        requires
            old(self).wf(),
        ensures
            *final(self) == timer_step(*old(self)),
            final(self).wf(),
    {
        self.div = self.div.wrapping_add(1);
        if self.reloading {
            self.tima = self.tma;
            self.reloading = false;
        }
        if self.tac & 0x04 != 0 {
            let rate: u16 = match self.tac & 0x03 {
                0 => 1024,
                1 => 16,
                2 => 64,
                _ => 256,
            };
            if self.acc + 1 >= rate {
                self.acc = 0;
                if self.tima == 0xFF {
                    self.tima = 0;
                    self.reloading = true;
                    self.irq = true;
                } else {
                    self.tima = self.tima + 1;
                }
            } else {
                self.acc = self.acc + 1;
            }
        }
    }
}

/// With the counter one cycle from overflow at the fastest enabled rate,
/// one more cycle raises the timer interrupt request and zeroes the
/// counter, and exactly one further cycle reloads the counter from the
/// reload register.
pub proof fn lemma_timer_overflow_reload(t: Timer)
    requires
        t.tac & 0x04 != 0,
        t.tac & 0x03 == 1,
        t.tima == 0xFF,
        t.acc == 15,
        !t.reloading,
    ensures
        timer_advance(t, 1).irq,
        timer_advance(t, 1).tima == 0,
        timer_advance(t, 2).tima == t.tma,
{
    assert(timer_advance(t, 1) == timer_step(timer_advance(t, 0)));
    assert(timer_advance(t, 2) == timer_step(timer_advance(t, 1)));
    assert(timer_step(t).irq && timer_step(t).tima == 0);
}

} // verus!
