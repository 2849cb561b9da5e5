pub mod psr;

use crate::types::Word;
use vstd::prelude::*;

verus! {

/// A flat bank of sixteen 32-bit general-purpose registers.
#[allow(non_snake_case)]
#[derive(Debug)]
pub struct ARMRegisters {
    commons: Vec<Word>,
}

#[allow(non_snake_case)]
pub trait Registers {
    spec fn view_regs(&self) -> Seq<Word>;

    fn get(&self, index: usize) -> (r: Word)
        requires
            index < self.view_regs().len(),
        ensures
            r == self.view_regs()[index as int],
    ;

    fn set(&mut self, index: usize, data: Word)
        requires
            index < old(self).view_regs().len(),
        ensures
            final(self).view_regs() == old(self).view_regs().update(index as int, data),
    ;
}

impl ARMRegisters {
    pub fn new() -> (r: Self)
        ensures
            r.view_regs() == Seq::<Word>::new(16, |i: int| 0u32),
    {
        let mut commons: Vec<Word> = Vec::new();
        let mut i: usize = 0;
        while i < 16
            invariant
                i <= 16,
                commons@ == Seq::<Word>::new(i as nat, |j: int| 0u32),
            decreases 16 - i,
        {
            commons.push(0);
            proof {
                assert(commons@ =~= Seq::<Word>::new((i + 1) as nat, |j: int| 0u32));
            }
            i = i + 1;
        }
        ARMRegisters { commons }
    }
}

impl Registers for ARMRegisters {
    closed spec fn view_regs(&self) -> Seq<Word> {
        self.commons@
    }

    fn get(&self, index: usize) -> (r: Word) {
        self.commons[index]
    }

    fn set(&mut self, index: usize, data: Word) {
        self.commons[index] = data;
    }
}

} // verus!
