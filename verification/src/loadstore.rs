use vstd::prelude::*;

verus! {

/// The address after `address`, wrapping at the end of the 16-bit space.
pub open spec fn next_address(address: u16) -> u16 {
    ((address + 1) % 0x10000) as u16
}

/// The address after `address` inside the same 256-byte page.
pub open spec fn next_in_page(address: u16) -> u16 {
    (address / 0x100 * 0x100 + (address % 0x100 + 1) % 0x100) as u16
}

/// The little-endian 16-bit word made of two bytes.
pub open spec fn word(low: u8, high: u8) -> u16 {
    (high * 0x100 + low) as u16
}

/// A byte-addressed bus whose reads may change its state (as I/O registers do).
pub trait LoadStore: Sized {
    /// Every address can be read without failing, and stays so after any access.
    spec fn accessible(&self) -> bool;

    /// Every part of the bus can serve every access, whatever state it gets into.
    spec fn whole(&self) -> bool;

    /// A read of `address` does not fail.
    spec fn readable(&self, address: u16) -> bool;

    /// The state after reading `address`, and the byte read.
    spec fn loaded(&self, address: u16) -> (Self, u8);

    /// The state after writing `value` at `address`.
    spec fn stored(&self, address: u16, value: u8) -> Self;

    proof fn lemma_accessible_readable(&self, address: u16)
        requires
            self.accessible(),
        ensures
            self.readable(address),
    ;

    fn load(&mut self, address: u16) -> (r: u8)
        requires
            old(self).readable(address),
        ensures
            (*final(self), r) == old(self).loaded(address),
            old(self).accessible() ==> final(self).accessible(),
            old(self).whole() ==> final(self).whole(),
    ;

    fn store(&mut self, address: u16, value: u8)
        ensures
            *final(self) == old(self).stored(address, value),
            old(self).accessible() ==> final(self).accessible(),
            old(self).whole() ==> final(self).whole(),
    ;

    /// Reads a little-endian word: the low byte at `address`, the high byte after it.
    fn load_word(&mut self, address: u16) -> (r: u16)
        requires
            old(self).accessible(),
        ensures
            ({
                let (m1, low) = old(self).loaded(address);
                let (m2, high) = m1.loaded(next_address(address));
                *final(self) == m2 && r == word(low, high)
            }),
            final(self).accessible(),
            old(self).whole() ==> final(self).whole(),
    {
        proof {
            self.lemma_accessible_readable(address);
        }
        let low = self.load(address);
        proof {
            self.lemma_accessible_readable(next_address(address));
        }
        let high = self.load(address.wrapping_add(1));
        (high as u16) * 0x100 + (low as u16)
    }

    /// Writes the high byte of `word` at `address` and its low byte after it.
    fn store_word(&mut self, address: u16, word: u16)
        ensures
            *final(self) == old(self).stored(address, (word / 0x100) as u8).stored(
                next_address(address),
                (word % 0x100) as u8,
            ),
            old(self).accessible() ==> final(self).accessible(),
            old(self).whole() ==> final(self).whole(),
    {
        self.store(address, (word / 0x100) as u8);
        self.store(address.wrapping_add(1), (word % 0x100) as u8);
    }

    /// Reads a little-endian word whose high byte comes from the same page as the
    /// low byte (the 6502 indirect-jump behaviour).
    fn load_word_page_wrap(&mut self, address: u16) -> (r: u16)
        requires
            old(self).accessible(),
        ensures
            ({
                let (m1, low) = old(self).loaded(address);
                let (m2, high) = m1.loaded(next_in_page(address));
                *final(self) == m2 && r == word(low, high)
            }),
            final(self).accessible(),
            old(self).whole() ==> final(self).whole(),
    {
        proof {
            self.lemma_accessible_readable(address);
        }
        let low = self.load(address);
        // The low byte of the address wraps inside its page.
        let low_byte = (address % 0x100) as u8;
        let inc = low_byte.wrapping_add(1);
        let next = address / 0x100 * 0x100 + inc as u16;
        proof {
            self.lemma_accessible_readable(next);
        }
        let high = self.load(next);
        (high as u16) * 0x100 + (low as u16)
    }
}

pub open spec fn load_word_spec<M: LoadStore>(m: M, address: u16) -> (M, u16) {
    let (m1, low) = m.loaded(address);
    let (m2, high) = m1.loaded(next_address(address));
    (m2, word(low, high))
}

pub open spec fn load_word_page_wrap_spec<M: LoadStore>(m: M, address: u16) -> (M, u16) {
    let (m1, low) = m.loaded(address);
    let (m2, high) = m1.loaded(next_in_page(address));
    (m2, word(low, high))
}

} // verus!
