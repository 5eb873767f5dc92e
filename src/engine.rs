//! A prober together with a record of the input handed to it.
use crate::prober::Prober;
use vstd::prelude::*;

verus! {

/// A prober, and the chunks of input handed to it since it was wrapped or
/// last reset. Bytes reach the prober only through `handle_data`, which
/// records what it hands over.
pub struct Engine<P: Prober> {
    prober: P,
    log: Ghost<Seq<Seq<u8>>>,
}

impl<P: Prober> Engine<P> {
    /// The chunks handed to the prober since it was wrapped or last reset, in
    /// order.
    pub closed spec fn received(&self) -> Seq<Seq<u8>> {
        self.log@
    }

    /// Wraps a prober, with nothing handed to it yet.
    pub fn new(prober: P) -> (r: Engine<P>)
        ensures
            r.received() == Seq::<Seq<u8>>::empty(),
    {
        Engine { prober, log: Ghost(Seq::empty()) }
    }

    /// Hands `data` to the prober; returns its status code.
    pub fn handle_data(&mut self, data: &[u8]) -> (r: i32)
        ensures
            final(self).received() == old(self).received().push(data@),
    {
        let code = self.prober.handle_data(data);
        self.log = Ghost(self.log@.push(data@));
        code
    }

    /// Tells the prober that the input is complete.
    pub fn data_end(&mut self)
        ensures
            final(self).received() == old(self).received(),
    {
        self.prober.data_end();
    }

    /// The prober's current guess, as the bytes of a charset name.
    pub fn get_charset(&self) -> Vec<u8> {
        self.prober.get_charset()
    }

    /// Clears the prober for a new input.
    pub fn reset(&mut self)
        ensures
            final(self).received() == Seq::<Seq<u8>>::empty(),
    {
        self.prober.reset();
        self.log = Ghost(Seq::empty());
    }
}

} // verus!
