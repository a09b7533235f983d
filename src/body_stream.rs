use vstd::prelude::*;

use crate::error::Error;

verus! {

/// What one read of the host's body reader produced.
pub enum ReadResult {
    /// A chunk of the body, already copied out of the host's buffer.
    Chunk(Vec<u8>),
    /// The host signalled the end of the body.
    Done,
    /// The read failed; holds the host's own message.
    Failed(String),
}

/// What a pull hands to the consumer.
pub enum Pulled {
    /// The next frame of the body.
    Frame(Vec<u8>),
    /// The body is over: no more frames will come.
    End,
    /// The body failed; this is the only error the stream surfaces.
    Failed(Error),
}

/// The pull-based reader of a response body.
///
/// It is active until the host signals the end or a read fails; after that
/// every pull reports the end. It remembers, as ghost state, the chunks that
/// the host produced and the frames that it handed out.
pub struct BodyStream {
    active: bool,
    chunks: Ghost<Seq<Seq<u8>>>,
    frames: Ghost<Seq<Seq<u8>>>,
}

impl BodyStream {
    /// Whether more data is expected from the host.
    pub closed spec fn active(&self) -> bool {
        self.active
    }

    /// The chunks that the host's reader produced so far.
    pub closed spec fn chunks(&self) -> Seq<Seq<u8>> {
        self.chunks@
    }

    /// The frames handed to the consumer so far.
    pub closed spec fn frames(&self) -> Seq<Seq<u8>> {
        self.frames@
    }

    /// The frames handed out are the host's chunks, one for one and in
    /// order: nothing is merged, split, dropped or reordered.
    pub open spec fn wf(&self) -> bool {
        self.frames() == self.chunks()
    }

    /// A stream over a body that the host is about to deliver.
    pub fn new() -> (r: Self)
        ensures
            r.wf(),
            r.active(),
            r.chunks() == Seq::<Seq<u8>>::empty(),
            r.frames() == Seq::<Seq<u8>>::empty(),
    {
        BodyStream { active: true, chunks: Ghost(Seq::empty()), frames: Ghost(Seq::empty()) }
    }

    /// A stream over an empty body: every pull reports the end.
    pub fn empty() -> (r: Self)
        ensures
            r.wf(),
            !r.active(),
            r.chunks() == Seq::<Seq<u8>>::empty(),
            r.frames() == Seq::<Seq<u8>>::empty(),
    {
        BodyStream { active: false, chunks: Ghost(Seq::empty()), frames: Ghost(Seq::empty()) }
    }

    /// Whether the next pull needs a read from the host.
    pub fn is_active(&self) -> (r: bool)
        ensures
            r == self.active(),
    {
        self.active
    }

    /// Takes the outcome of one host read and decides what the consumer sees.
    ///
    /// Once the stream is over, whatever the read, the pull reports the end
    /// and nothing changes.
    pub fn on_read(&mut self, read: ReadResult) -> (r: Pulled)
        requires
            old(self).wf(),
        ensures
            final(self).wf(),
            !old(self).active() ==> {
                &&& r is End
                &&& !final(self).active()
                &&& final(self).chunks() == old(self).chunks()
                &&& final(self).frames() == old(self).frames()
            },
            old(self).active() ==> match read {
                ReadResult::Chunk(c) => {
                    &&& final(self).active()
                    &&& final(self).chunks() == old(self).chunks().push(c@)
                    &&& r matches Pulled::Frame(f) && f@ == c@
                    &&& final(self).frames() == old(self).frames().push(c@)
                },
                ReadResult::Done => {
                    &&& r is End
                    &&& !final(self).active()
                    &&& final(self).chunks() == old(self).chunks()
                    &&& final(self).frames() == old(self).frames()
                },
                ReadResult::Failed(m) => {
                    &&& r == Pulled::Failed(Error::HostError(m))
                    &&& !final(self).active()
                    &&& final(self).chunks() == old(self).chunks()
                    &&& final(self).frames() == old(self).frames()
                },
            },
    {
        if !self.active {
            return Pulled::End;
        }
        match read {
            ReadResult::Chunk(c) => {
                self.chunks = Ghost(self.chunks@.push(c@));
                self.frames = Ghost(self.frames@.push(c@));
                Pulled::Frame(c)
            },
            ReadResult::Done => {
                self.active = false;
                Pulled::End
            },
            ReadResult::Failed(m) => {
                self.active = false;
                Pulled::Failed(Error::HostError(m))
            },
        }
    }
}

} // verus!
