//! The lifecycle of one statistical charset prober.
use vstd::prelude::*;
use vstd::string::*;
use vstd::utf8::*;
use crate::charset::utf8_text;
use crate::engine::Engine;

verus! {

/// What went wrong while asking a prober for a charset.
#[derive(Clone, Copy, Debug, PartialEq, Eq, Structural)]
pub enum ErrorKind {
    /// The prober could not recognize any charset.
    UnrecognizableCharset,
    /// The prober ran out of memory.
    OutOfMemory,
    /// The prober failed with another status code.
    Other(i32),
    /// The prober named a charset with bytes that are not UTF-8, which its
    /// own contract rules out.
    ContractViolation,
}

/// The error that a nonzero prober status code stands for.
pub open spec fn nsresult_kind(code: i32) -> ErrorKind {
    if code == 1 {
        ErrorKind::OutOfMemory
    } else {
        ErrorKind::Other(code)
    }
}

/// The outcome of feeding data with the given status code: zero is success.
pub open spec fn feed_outcome(code: i32) -> Result<(), ErrorKind> {
    if code == 0 {
        Ok(())
    } else {
        Err(nsresult_kind(code))
    }
}

/// The label that the raw bytes of a prober's charset name stand for.
pub open spec fn raw_label(raw: Seq<u8>) -> Result<Seq<char>, ErrorKind> {
    if valid_utf8(raw) {
        Ok(decode_utf8(raw))
    } else {
        Err(ErrorKind::ContractViolation)
    }
}

/// `r` is the label that the raw charset name `raw` stands for.
pub open spec fn label_result(raw: Seq<u8>, r: Result<String, ErrorKind>) -> bool {
    match raw_label(raw) {
        Ok(label) => r matches Ok(s) && s@ == label,
        Err(e) => r == Err::<String, ErrorKind>(e),
    }
}

impl ErrorKind {
    /// The error that a nonzero prober status code stands for.
    pub fn from_nsresult(nsresult: i32) -> (r: ErrorKind)
        requires
            nsresult != 0,
        ensures
            r == nsresult_kind(nsresult),
    {
        match nsresult {
            1 => ErrorKind::OutOfMemory,
            code => ErrorKind::Other(code),
        }
    }
}

/// The outcome of feeding data, from the prober's status code.
pub fn feed_result(code: i32) -> (r: Result<(), ErrorKind>)
    ensures
        r == feed_outcome(code),
{
    if code == 0 {
        Ok(())
    } else {
        Err(ErrorKind::from_nsresult(code))
    }
}

/// The label that the raw bytes of a prober's charset name stand for; an
/// empty label means "ASCII or undetermined".
pub fn label_from_bytes(raw: &[u8]) -> (r: Result<String, ErrorKind>)
    ensures
        label_result(raw@, r),
{
    match utf8_text(raw) {
        Some(text) => Ok(String::from_str(text)),
        None => Err(ErrorKind::ContractViolation),
    }
}

/// Two charset queries on which the prober names the charset with the same
/// bytes give the same label.
pub proof fn lemma_label_determined_by_raw_name(
    raw: Seq<u8>,
    r1: Result<String, ErrorKind>,
    r2: Result<String, ErrorKind>,
)
    requires
        label_result(raw, r1),
        label_result(raw, r2),
    ensures
        r1 is Ok <==> r2 is Ok,
        r1 matches Ok(s1) ==> r2 matches Ok(s2) && s1@ == s2@,
        r1 matches Err(e1) ==> r2 == Err::<String, ErrorKind>(e1),
{
}

/// A statistical charset prober: an engine that guesses a charset from byte
/// frequencies. Dropping it releases whatever it holds.
pub trait Prober {
    /// Adds bytes to the engine's model; a no-op once it has settled on a
    /// charset. Returns a status code: zero on success.
    fn handle_data(&mut self, data: &[u8]) -> i32;

    /// Tells the engine that the input is complete, so that it commits to its
    /// best guess; a no-op if no data was fed.
    fn data_end(&mut self);

    /// The engine's current best guess, as the bytes of a charset name; empty
    /// for "ASCII or undetermined".
    fn get_charset(&self) -> Vec<u8>;

    /// Clears the engine's state for a new input.
    fn reset(&mut self);
}

/// Where a prober stands in its lifecycle.
#[derive(Clone, Copy, Debug, PartialEq, Eq, Structural)]
pub enum ProberState {
    /// Made or reset; nothing fed yet.
    Created,
    /// Fed at least once, not yet finalized.
    Fed,
    /// Told that the input is complete; its charset may be asked.
    Finalized,
}

/// Sole owner of one prober, which it drives through its lifecycle. Releasing
/// the handle, or dropping it, releases the prober exactly once.
pub struct ProberHandle<P: Prober> {
    engine: Engine<P>,
    state: ProberState,
}

impl<P: Prober> ProberHandle<P> {
    /// The lifecycle state.
    pub closed spec fn phase(&self) -> ProberState {
        self.state
    }

    /// The chunks of input handed to the prober since the handle took it or
    /// last reset it, in order.
    pub closed spec fn engine_fed(&self) -> Seq<Seq<u8>> {
        self.engine.received()
    }

    /// Takes ownership of a prober.
    pub fn new(engine: P) -> (r: ProberHandle<P>)
        ensures
            r.phase() == ProberState::Created,
            r.engine_fed() == Seq::<Seq<u8>>::empty(),
    {
        ProberHandle { engine: Engine::new(engine), state: ProberState::Created }
    }

    /// The lifecycle state.
    pub fn state(&self) -> (r: ProberState)
        ensures
            r == self.phase(),
    {
        self.state
    }

    /// Feeds bytes to the prober. A failure status becomes an error and
    /// leaves the state as it was; feeding after `finalize` is allowed and
    /// keeps the handle finalized.
    pub fn feed(&mut self, data: &[u8]) -> (r: Result<(), ErrorKind>)
        ensures
            exists|code: i32| #[trigger] feed_outcome(code) == r,
            final(self).engine_fed() == old(self).engine_fed().push(data@),
            final(self).phase() == if r is Ok && old(self).phase() != ProberState::Finalized {
                ProberState::Fed
            } else {
                old(self).phase()
            },
    {
        let code = self.engine.handle_data(data);
        let r = feed_result(code);
        if r.is_ok() && self.state != ProberState::Finalized {
            self.state = ProberState::Fed;
        }
        r
    }

    /// Marks the end of input, so that the prober commits to a guess.
    pub fn finalize(&mut self)
        ensures
            final(self).phase() == ProberState::Finalized,
            final(self).engine_fed() == old(self).engine_fed(),
    {
        self.engine.data_end();
        self.state = ProberState::Finalized;
    }

    /// The prober's guess as a label: empty for "ASCII or undetermined", an
    /// error if the prober's charset name is not UTF-8.
    pub fn charset(&self) -> (r: Result<String, ErrorKind>)
        requires
            self.phase() == ProberState::Finalized,
        ensures
            exists|raw: Seq<u8>| #[trigger] label_result(raw, r),
    {
        let raw = self.engine.get_charset();
        let r = label_from_bytes(raw.as_slice());
        assert(label_result(raw@, r));
        r
    }

    /// Clears the prober for a new input.
    pub fn reset(&mut self)
        ensures
            final(self).phase() == ProberState::Created,
            final(self).engine_fed() == Seq::<Seq<u8>>::empty(),
    {
        self.engine.reset();
        self.state = ProberState::Created;
    }

    /// Releases the prober.
    pub fn release(self) {
    }
}

/// `r` is what asking for a charset name gives, when feeding returned status
/// `code` and the prober then named the charset with the bytes `raw`.
pub open spec fn name_result(code: i32, raw: Seq<u8>, r: Result<String, ErrorKind>) -> bool {
    if code != 0 {
        r == Err::<String, ErrorKind>(nsresult_kind(code))
    } else {
        match raw_label(raw) {
            Ok(label) => if label.len() == 0 {
                r == Err::<String, ErrorKind>(ErrorKind::UnrecognizableCharset)
            } else {
                r matches Ok(s) && s@ == label
            },
            Err(e) => r == Err::<String, ErrorKind>(e),
        }
    }
}

/// What asking for a charset name gives, when feeding returned status `code`
/// and the prober then named the charset with the bytes `raw`.
pub fn name_outcome(code: i32, raw: &[u8]) -> (r: Result<String, ErrorKind>)
    ensures
        name_result(code, raw@, r),
{
    if code != 0 {
        Err(ErrorKind::from_nsresult(code))
    } else {
        nonempty_label(label_from_bytes(raw))
    }
}

/// Turns an empty label into the error that no charset was recognized.
fn nonempty_label(label: Result<String, ErrorKind>) -> (r: Result<String, ErrorKind>)
    ensures
        match label {
            Ok(s) => if s@.len() == 0 {
                r == Err::<String, ErrorKind>(ErrorKind::UnrecognizableCharset)
            } else {
                r == label
            },
            Err(e) => r == Err::<String, ErrorKind>(e),
        },
{
    match label {
        Ok(name) => {
            if name.as_str().unicode_len() == 0 {
                Err(ErrorKind::UnrecognizableCharset)
            } else {
                Ok(name)
            }
        },
        Err(e) => Err(e),
    }
}

/// The name of the charset that the prober of `handle` finds in `data`, or
/// an error when it finds none.
///
/// The prober is reset, handed all of `data` in one chunk, told that the
/// input is complete, and asked for its guess.
pub fn detect_encoding_name<P: Prober>(handle: &mut ProberHandle<P>, data: &[u8]) -> (r: Result<
    String,
    ErrorKind,
>)
    ensures
        exists|code: i32, raw: Seq<u8>| #[trigger] name_result(code, raw, r),
        final(handle).engine_fed() == seq![data@],
{
    handle.reset();
    let fed = handle.feed(data);
    if let Err(e) = fed {
        let ghost code = choose|code: i32| #[trigger] feed_outcome(code) == fed;
        assert(name_result(code, Seq::empty(), Err(e)));
        return Err(e);
    }
    handle.finalize();
    let label = handle.charset();
    let ghost raw = choose|raw: Seq<u8>| #[trigger] label_result(raw, label);
    let r = nonempty_label(label);
    assert(name_result(0, raw, r));
    r
}

} // verus!
