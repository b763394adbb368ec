//! Events that travel between the audio server and the plugin.
use vstd::prelude::*;
use vstd::slice::slice_subrange;

verus! {

/// Something that happens at a given frame within the current cycle.
pub struct Timed<E> {
    pub time_in_frames: u32,
    pub event: E,
}

/// Something that comes from, or goes to, the port with the given index.
pub struct Indexed<T> {
    pub index: usize,
    pub event: T,
}

/// A short (one to three bytes) channel-voice midi message.
#[derive(Clone, Copy)]
pub struct RawMidiEvent {
    data: [u8; 3],
    length: usize,
}

impl RawMidiEvent {
    /// The bytes of the message, as a mathematical sequence.
    pub closed spec fn view_bytes(&self) -> Seq<u8> {
        self.data@.subrange(0, self.length as int)
    }

    #[verifier::type_invariant]
    spec fn wf(&self) -> bool {
        1 <= self.length <= 3
    }

    /// Build a raw midi event from one to three bytes; any other length is refused.
    pub fn try_new(bytes: &[u8]) -> (r: Option<RawMidiEvent>)
        ensures
            r is Some <==> (1 <= bytes@.len() <= 3),
            r matches Some(e) ==> e.view_bytes() == bytes@,
    {
        let n = bytes.len();
        if n < 1 || n > 3 {
            return None;
        }
        let mut data: [u8; 3] = [0u8, 0u8, 0u8];
        let mut i: usize = 0;
        while i < n
            invariant
                1 <= n <= 3,
                n == bytes@.len(),
                0 <= i <= n,
                forall|j: int| 0 <= j < i ==> data@[j] == bytes@[j],
            decreases n - i,
        {
            data[i] = bytes[i];
            i = i + 1;
        }
        let e = RawMidiEvent { data, length: n };
        assert(e.view_bytes() =~= bytes@);
        Some(e)
    }

    /// The bytes of the message.
    pub fn bytes(&self) -> (r: &[u8])
        ensures
            r@ == self.view_bytes(),
    {
        proof {
            use_type_invariant(self);
        }
        slice_subrange(self.data.as_slice(), 0, self.length)
    }
}

/// A system-exclusive message: it borrows its bytes from the buffer that
/// the audio server handed over for this cycle.
pub struct SysExEvent<'a> {
    data: &'a [u8],
}

impl<'a> SysExEvent<'a> {
    pub closed spec fn view_bytes(&self) -> Seq<u8> {
        self.data@
    }

    pub fn new(data: &'a [u8]) -> (r: SysExEvent<'a>)
        ensures
            r.view_bytes() == data@,
    {
        SysExEvent { data }
    }

    pub fn data(&self) -> (r: &'a [u8])
        ensures
            r@ == self.view_bytes(),
    {
        self.data
    }
}

} // verus!
