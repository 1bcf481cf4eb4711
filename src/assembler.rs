use vstd::prelude::*;

verus! {

/// A growing block of machine code.
#[derive(Debug)]
pub struct Asm {
    pub code: Vec<u8>,
}

impl Asm {
    /// No code yet.
    pub fn new() -> (r: Asm)
        ensures
            r.code@.len() == 0,
    {
        Asm { code: Vec::new() }
    }

    /// Appends `data` and returns the offset where it starts, on 16 bits.
    pub fn dd(&mut self, data: &[u8]) -> (r: u16)
        requires
            old(self).code@.len() + data@.len() <= usize::MAX,
        ensures
            final(self).code@ == old(self).code@ + data@,
            r == old(self).code@.len() % 0x10000,
    {
        let start_addr = self.code.len();
        let mut i: usize = 0;
        while i < data.len()
            invariant
                i <= data@.len(),
                self.code@ == old(self).code@ + data@.subrange(0, i as int),
                old(self).code@.len() + data@.len() <= usize::MAX,
            decreases data@.len() - i,
        {
            self.code.push(data[i]);
            i += 1;
            assert(self.code@ =~= old(self).code@ + data@.subrange(0, i as int));
        }
        assert(data@.subrange(0, i as int) =~= data@);
        (start_addr % 0x10000) as u16
    }
}

} // verus!
