//! The relay: what one session's bidirectional copy does to the bytes. The
//! two directions are independent streams; each chunk read on one side is
//! handed to the other side unchanged, and the transcript of each direction
//! is exactly the chunks it carried, concatenated in arrival order.
use vstd::prelude::*;
use vstd::slice::slice_to_vec;

verus! {

/// The bytes a whole run of chunks puts on the wire: the chunks'
/// contents, concatenated in order.
pub open spec fn stream_of(chunks: Seq<Vec<u8>>) -> Seq<u8>
    decreases chunks.len(),
{
    if chunks.len() == 0 {
        Seq::empty()
    } else {
        stream_of(chunks.drop_last()) + chunks.last()@
    }
}

/// One session's relay, with the transcript of each direction. The two
/// transcripts are this session's alone: a relay owns its pair of sockets
/// and touches no other session's.
pub struct Relay {
    /// Every byte forwarded from the client into the tunnel, in order.
    pub to_target: Ghost<Seq<u8>>,
    /// Every byte forwarded from the tunnel back to the client, in order.
    pub to_client: Ghost<Seq<u8>>,
}

impl Relay {
    /// A fresh relay: nothing has flowed in either direction.
    pub fn new() -> (r: Relay)
        ensures
            r.to_target@ == Seq::<u8>::empty(),
            r.to_client@ == Seq::<u8>::empty(),
    {
        Relay { to_target: Ghost(Seq::empty()), to_client: Ghost(Seq::empty()) }
    }

    /// Forwards one chunk read from the client towards the target: the
    /// bytes to write to the tunnel are the chunk, unchanged; the other
    /// direction is untouched.
    pub fn forward_to_target(&mut self, chunk: &[u8]) -> (out: Vec<u8>)
        ensures
            out@ == chunk@,
            final(self).to_target@ == old(self).to_target@ + chunk@,
            final(self).to_client == old(self).to_client,
    {
        self.to_target = Ghost(self.to_target@ + chunk@);
        slice_to_vec(chunk)
    }

    /// Forwards one chunk read from the tunnel towards the client: the
    /// bytes to write to the client socket are the chunk, unchanged; the
    /// other direction is untouched.
    pub fn forward_to_client(&mut self, chunk: &[u8]) -> (out: Vec<u8>)
        ensures
            out@ == chunk@,
            final(self).to_client@ == old(self).to_client@ + chunk@,
            final(self).to_target == old(self).to_target,
    {
        self.to_client = Ghost(self.to_client@ + chunk@);
        slice_to_vec(chunk)
    }

    /// Law: a whole client-to-target run keeps the stream identical — after
    /// forwarding any list of chunks, the transcript has grown by exactly
    /// their concatenation, in order, with no reordering, duplication or
    /// truncation, and each chunk went out unchanged.
    pub fn forward_all_to_target(&mut self, chunks: &Vec<Vec<u8>>) -> (outs: Vec<Vec<u8>>)
        ensures
            outs@.len() == chunks@.len(),
            forall|i: int| 0 <= i < chunks@.len() ==> (#[trigger] outs@[i])@ == chunks@[i]@,
            final(self).to_target@ == old(self).to_target@ + stream_of(chunks@),
            final(self).to_client == old(self).to_client,
    {
        let ghost start = self.to_target@;
        let mut outs: Vec<Vec<u8>> = Vec::new();
        let mut i: usize = 0;
        while i < chunks.len()
            invariant
                i <= chunks.len(),
                outs@.len() == i,
                forall|j: int| 0 <= j < i ==> (#[trigger] outs@[j])@ == chunks@[j]@,
                self.to_target@ == start + stream_of(chunks@.take(i as int)),
                self.to_client == old(self).to_client,
            decreases chunks.len() - i,
        {
            let out = self.forward_to_target(chunks[i].as_slice());
            outs.push(out);
            proof {
                assert(chunks@.take(i as int + 1).drop_last() =~= chunks@.take(i as int));
                assert(self.to_target@ =~= start + stream_of(chunks@.take(i as int + 1)));
            }
            i = i + 1;
        }
        proof {
            assert(chunks@.take(chunks@.len() as int) =~= chunks@);
        }
        outs
    }

    /// Law: a whole target-to-client run keeps the stream identical in the
    /// same way — the transcript grows by exactly the chunks' concatenation,
    /// in order, and each chunk goes out unchanged.
    pub fn forward_all_to_client(&mut self, chunks: &Vec<Vec<u8>>) -> (outs: Vec<Vec<u8>>)
        ensures
            outs@.len() == chunks@.len(),
            forall|i: int| 0 <= i < chunks@.len() ==> (#[trigger] outs@[i])@ == chunks@[i]@,
            final(self).to_client@ == old(self).to_client@ + stream_of(chunks@),
            final(self).to_target == old(self).to_target,
    {
        let ghost start = self.to_client@;
        let mut outs: Vec<Vec<u8>> = Vec::new();
        let mut i: usize = 0;
        while i < chunks.len()
            invariant
                i <= chunks.len(),
                outs@.len() == i,
                forall|j: int| 0 <= j < i ==> (#[trigger] outs@[j])@ == chunks@[j]@,
                self.to_client@ == start + stream_of(chunks@.take(i as int)),
                self.to_target == old(self).to_target,
            decreases chunks.len() - i,
        {
            let out = self.forward_to_client(chunks[i].as_slice());
            outs.push(out);
            proof {
                assert(chunks@.take(i as int + 1).drop_last() =~= chunks@.take(i as int));
                assert(self.to_client@ =~= start + stream_of(chunks@.take(i as int + 1)));
            }
            i = i + 1;
        }
        proof {
            assert(chunks@.take(chunks@.len() as int) =~= chunks@);
        }
        outs
    }
}

} // verus!
