//! The interrupt controller: a first-in first-out set of pending interrupts.
use vstd::prelude::*;
use std::collections::VecDeque;
use crate::cpu::INTERRUPT;

verus! {

/// The pending interrupts after `irq` is raised: appended unless already pending.
pub open spec fn raise(pending: Seq<INTERRUPT>, irq: INTERRUPT) -> Seq<INTERRUPT> {
    if pending.contains(irq) {
        pending
    } else {
        pending.push(irq)
    }
}

/// No interrupt is pending twice.
pub open spec fn distinct(pending: Seq<INTERRUPT>) -> bool {
    forall|i: int, j: int|
        0 <= i < pending.len() && 0 <= j < pending.len() && i != j ==> pending[i] != pending[j]
}

/// Raising an interrupt makes it pending, raising it again changes nothing,
/// and no interrupt ever becomes pending twice.
pub proof fn lemma_raise(pending: Seq<INTERRUPT>, irq: INTERRUPT)
    ensures
        raise(pending, irq).contains(irq),
        raise(raise(pending, irq), irq) == raise(pending, irq),
        distinct(pending) ==> distinct(raise(pending, irq)),
{
    if !pending.contains(irq) {
        assert(raise(pending, irq)[pending.len() as int] == irq);
    }
}

pub struct InterruptController {
    pending: VecDeque<INTERRUPT>,
}

impl View for InterruptController {
    type V = Seq<INTERRUPT>;

    closed spec fn view(&self) -> Seq<INTERRUPT> {
        self.pending@
    }
}

impl InterruptController {
    #[verifier::type_invariant]
    closed spec fn inv(self) -> bool {
        distinct(self.pending@)
    }

    /// A controller with nothing pending.
    pub fn new() -> (r: Self)
        ensures
            r@ == Seq::<INTERRUPT>::empty(),
            distinct(r@),
    {
        Self { pending: VecDeque::new() }
    }

    /// Marks `interrupt` pending, unless it already is.
    pub fn add_interrupt(&mut self, interrupt: INTERRUPT)
        ensures
            final(self)@ == raise(old(self)@, interrupt),
            distinct(old(self)@),
            distinct(final(self)@),
    {
        proof {
            use_type_invariant(&*self);
        }
        let mut i: usize = 0;
        let n = self.pending.len();
        let mut found = false;
        while i < n
            invariant
                n == self.pending@.len(),
                i <= n,
                found <==> exists|j: int| 0 <= j < i && self.pending@[j] == interrupt,
            decreases n - i,
        {
            if self.pending[i] == interrupt {
                found = true;
            }
            i = i + 1;
        }
        if !found {
            let mut q = VecDeque::new();
            std::mem::swap(&mut q, &mut self.pending);
            q.push_back(interrupt);
            assert(distinct(q@));
            self.pending = q;
        } else {
            assert(self.pending@.contains(interrupt));
        }
    }

    /// Removes and returns the oldest pending interrupt.
    pub fn next_interrupt(&mut self) -> (r: Option<INTERRUPT>)
        ensures
            distinct(old(self)@),
            distinct(final(self)@),
            old(self)@.len() == 0 ==> r is None && final(self)@ == old(self)@,
            old(self)@.len() > 0 ==> r == Some(old(self)@[0]) && final(self)@ == old(
                self,
            )@.drop_first(),
    {
        proof {
            use_type_invariant(&*self);
        }
        let mut q = VecDeque::new();
        std::mem::swap(&mut q, &mut self.pending);
        let r = q.pop_front();
        assert(distinct(q@));
        self.pending = q;
        r
    }
}

} // verus!
