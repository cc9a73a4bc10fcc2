//! Plain values that stand for the resources of the operating system: the
//! two ends of a pipe, and what `poll` is asked and answers.

use vstd::prelude::*;

verus! {

pub const MAP_SHARED: i32 = 0x1;

pub const PROT_READ: i32 = 0x1;

pub const PROT_WRITE: i32 = 0x2;

pub const MFD_CLOEXEC: u32 = 0x1;

pub const SEEK_SET: i32 = 0x0;

pub const POLLIN: i16 = 0x1;

/// The descriptor that stands for an end that is not open.
pub const CLOSED: i32 = -1;

/// The two ends of a pipe. An end is open where its descriptor is not
/// negative; an end that was given up is `-1`.
#[derive(Debug, PartialEq, Eq, Structural)]
pub struct Pipefd {
    pub readfd: i32,
    pub writefd: i32,
}

impl Pipefd {
    /// Gives up the read end. The descriptor returned is the one that the
    /// caller has to close; there is none if the end was not open. The end
    /// is not open afterwards, so that no descriptor is given out twice.
    pub fn close_read(&mut self) -> (r: Option<i32>)
        ensures
            final(self).readfd == CLOSED,
            final(self).writefd == old(self).writefd,
            r == if old(self).readfd < 0 {
                None
            } else {
                Some(old(self).readfd)
            },
    {
        if self.readfd < 0 {
            self.readfd = CLOSED;
            return None;
        }
        let fd = self.readfd;
        self.readfd = CLOSED;
        Some(fd)
    }

    /// Gives up the write end. The descriptor returned is the one that the
    /// caller has to close; there is none if the end was not open.
    pub fn close_write(&mut self) -> (r: Option<i32>)
        ensures
            final(self).writefd == CLOSED,
            final(self).readfd == old(self).readfd,
            r == if old(self).writefd < 0 {
                None
            } else {
                Some(old(self).writefd)
            },
    {
        if self.writefd < 0 {
            self.writefd = CLOSED;
            return None;
        }
        let fd = self.writefd;
        self.writefd = CLOSED;
        Some(fd)
    }

    /// Gives up both ends: the descriptors that the caller has to close,
    /// the read end first.
    pub fn destroy(&mut self) -> (r: Vec<i32>)
        ensures
            final(self).readfd == CLOSED,
            final(self).writefd == CLOSED,
            r@ == open_ends(*old(self)),
    {
        let mut r: Vec<i32> = Vec::new();
        if let Some(fd) = self.close_read() {
            r.push(fd);
        }
        if let Some(fd) = self.close_write() {
            r.push(fd);
        }
        assert(r@ =~= open_ends(*old(self)));
        r
    }
}

/// The descriptors of the ends of a pipe that are open, the read end
/// first.
pub open spec fn open_ends(pipe: Pipefd) -> Seq<i32> {
    (if pipe.readfd < 0 {
        Seq::<i32>::empty()
    } else {
        seq![pipe.readfd]
    }) + (if pipe.writefd < 0 {
        Seq::<i32>::empty()
    } else {
        seq![pipe.writefd]
    })
}

/// Once both ends are given up, there is nothing left to close.
pub proof fn lemma_destroyed_pipe_is_closed(pipe: Pipefd)
    requires
        pipe.readfd == CLOSED,
        pipe.writefd == CLOSED,
    ensures
        open_ends(pipe) == Seq::<i32>::empty(),
{
    assert(open_ends(pipe) =~= Seq::<i32>::empty());
}

impl Default for Pipefd {
    /// A pipe of which neither end is open.
    fn default() -> (r: Pipefd)
        ensures
            r.readfd == CLOSED,
            r.writefd == CLOSED,
    {
        Pipefd { readfd: CLOSED, writefd: CLOSED }
    }
}

/// What `poll` is asked about a descriptor, and what it answers.
#[derive(Debug, PartialEq, Eq, Structural)]
pub struct Pollfd {
    pub fd: i32,
    pub events: i16,
    pub revents: i16,
}

} // verus!
