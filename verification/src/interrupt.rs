//! The interrupt line shared by the CPU and the PPU.
use vstd::prelude::*;

verus! {

#[derive(Debug, Clone, Copy, PartialEq, Eq, Structural)]
pub struct Interrupt {
    pub nmi: bool,
    pub irq: bool,
}

impl Default for Interrupt {
    fn default() -> (line: Self)
        ensures
            line == (Interrupt { nmi: false, irq: false }),
    {
        Interrupt { nmi: false, irq: false }
    }
}

impl Interrupt {
    pub fn is_nmi(&self) -> (asserted: bool)
        ensures
            asserted == self.nmi,
    {
        self.nmi
    }

    pub fn is_irq(&self) -> (asserted: bool)
        ensures
            asserted == self.irq,
    {
        self.irq
    }

    pub fn set_nmi(&mut self)
        ensures
            *final(self) == (Interrupt { nmi: true, irq: old(self).irq }),
    {
        self.nmi = true;
    }

    pub fn clear_nmi(&mut self)
        ensures
            *final(self) == (Interrupt { nmi: false, irq: old(self).irq }),
    {
        self.nmi = false;
    }

    pub fn set_irq(&mut self)
        ensures
            *final(self) == (Interrupt { nmi: old(self).nmi, irq: true }),
    {
        self.irq = true;
    }

    pub fn clear_irq(&mut self)
        ensures
            *final(self) == (Interrupt { nmi: old(self).nmi, irq: false }),
    {
        self.irq = false;
    }
}

} // verus!
