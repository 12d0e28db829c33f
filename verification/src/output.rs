//! The bytes a terminal wants to send to its PTY, held until the host
//! collects them.

use vstd::prelude::*;

verus! {

/// Pending output: key encodings, query replies and text the host asked to
/// send, in the order they were produced.
#[derive(Debug)]
pub struct OutputBuffer {
    bytes: Vec<u8>,
}

impl View for OutputBuffer {
    type V = Seq<u8>;

    closed spec fn view(&self) -> Seq<u8> {
        self.bytes@
    }
}

impl OutputBuffer {
    /// An empty buffer.
    pub fn new() -> (b: Self)
        ensures
            b@ == Seq::<u8>::empty(),
    {
        OutputBuffer { bytes: Vec::with_capacity(4096) }
    }

    /// Appends bytes after those already pending.
    pub fn append(&mut self, data: &[u8])
        ensures
            final(self)@ == old(self)@ + data@,
            final(self)@ == spec_append(old(self)@, data@),
    {
        let mut i: usize = 0;
        let ghost base = self.bytes@;
        while i < data.len()
            invariant
                i <= data@.len(),
                self.bytes@ == base + data@.subrange(0, i as int),
            decreases data@.len() - i,
        {
            self.bytes.push(data[i]);
            i = i + 1;
            proof {
                assert(base + data@.subrange(0, i as int) =~= (base + data@.subrange(0, i - 1)).push(
                    data@[i - 1],
                ));
            }
        }
        proof {
            assert(data@.subrange(0, data@.len() as int) =~= data@);
        }
    }

    /// The number of pending bytes.
    pub fn len(&self) -> (n: usize)
        ensures
            n == self@.len(),
    {
        self.bytes.len()
    }

    /// Takes all pending bytes, leaving the buffer empty; `None` where
    /// nothing is pending.
    pub fn take(&mut self) -> (r: Option<Vec<u8>>)
        ensures
            final(self)@ == Seq::<u8>::empty(),
            old(self)@.len() == 0 ==> r is None,
            old(self)@.len() > 0 ==> (r matches Some(v) && v@ == old(self)@),
            taken_view(r) == spec_take(old(self)@),
    {
        if self.bytes.len() == 0 {
            return None;
        }
        let mut data: Vec<u8> = Vec::new();
        std::mem::swap(&mut data, &mut self.bytes);
        Some(data)
    }
}

/// Pending bytes after a write of `data`.
pub open spec fn spec_append(pending: Seq<u8>, data: Seq<u8>) -> Seq<u8> {
    pending + data
}

/// What a read of the pending bytes `pending` hands out: all of them, or
/// nothing where none are pending.
pub open spec fn spec_take(pending: Seq<u8>) -> Option<Seq<u8>> {
    if pending.len() == 0 { None } else { Some(pending) }
}

/// The bytes a read handed out, by their view.
pub open spec fn taken_view(r: Option<Vec<u8>>) -> Option<Seq<u8>> {
    match r {
        Some(v) => Some(v@),
        None => None,
    }
}

/// A read gives back what was written: after writes of `first` and then
/// `second` into a buffer that held nothing (a new one, or one just read),
/// the next read hands out `first` followed by `second`, and nothing at all
/// where both were empty.
pub proof fn lemma_read_returns_writes(first: Seq<u8>, second: Seq<u8>)
    ensures
        spec_take(spec_append(spec_append(Seq::<u8>::empty(), first), second)) == (if first.len()
            + second.len() == 0 {
            None
        } else {
            Some(first + second)
        }),
{
    assert(spec_append(spec_append(Seq::<u8>::empty(), first), second) =~= first + second);
}

} // verus!
