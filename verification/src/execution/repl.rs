//! The decisions of the harness that drives a long-lived child over two
//! control pipes and a shared memory region.

use vstd::prelude::*;
use super::execution::ReturnCode;
use super::ffi::{open_ends, Pipefd, CLOSED};

verus! {

/// The descriptor on which the child reads control messages.
pub const CRFD: i32 = 100;

/// The descriptor on which the child writes control messages.
pub const CWFD: i32 = 101;

/// The descriptor of the shared memory region in the child.
pub const DRFD: i32 = 102;

/// The size of the shared memory region.
pub const MAX_SIZE: usize = 0x10000;

/// The tag `HELO` as a little-endian word.
pub const HELO_TAG: i32 = 0x4f4c4548;

/// The tag `exec` as a little-endian word.
pub const EXEC_TAG: i32 = 0x63657865;

/// The tag `exit` as a little-endian word.
pub const EXIT_TAG: i32 = 0x74697865;

/// The number of times that the state of a child is asked for before the
/// harness gives up on it.
pub const REAP_ATTEMPTS: u8 = 10;

/// A system call that the harness makes.
#[derive(Clone, Copy, Debug, PartialEq, Eq, Structural)]
pub enum Syscall {
    MemfdCreate,
    Ftruncate,
    Mmap,
    PipeRead,
    PipeWrite,
    Lseek,
    Write,
    Poll,
    Read,
}

/// Why the harness failed.
#[derive(Clone, Copy, Debug, PartialEq, Eq, Structural)]
pub enum ReplError {
    /// The child did not answer in time.
    Timeout,
    /// The system call failed.
    SystemCall(Syscall),
    /// The child did not start.
    SpawnFailed,
    /// The child did not greet.
    BadGreeting,
    /// The child sent a control tag where a status was expected.
    InvalidMessage,
    /// The child neither answered nor ended.
    Stuck,
    /// The state of the child could not be asked for.
    WaitFailed,
    /// No timeout was set.
    MissingTimeout,
}

impl ReplError {
    /// The error in words.
    pub open spec fn spec_message(self) -> Seq<char> {
        match self {
            ReplError::Timeout => "[-] ReplError: Timed out"@,
            ReplError::SystemCall(Syscall::MemfdCreate) => "[-] ReplError: memfd_create"@,
            ReplError::SystemCall(Syscall::Ftruncate) => "[-] ReplError: ftruncate"@,
            ReplError::SystemCall(Syscall::Mmap) => "[-] ReplError: mmap"@,
            ReplError::SystemCall(Syscall::PipeRead) => "[-] ReplError: pipe, read"@,
            ReplError::SystemCall(Syscall::PipeWrite) => "[-] ReplError: pipe, write"@,
            ReplError::SystemCall(Syscall::Lseek) => "[-] ReplError: lseek"@,
            ReplError::SystemCall(Syscall::Write) => "[-] ReplError: write"@,
            ReplError::SystemCall(Syscall::Poll) => "[-] ReplError: poll"@,
            ReplError::SystemCall(Syscall::Read) => "[-] ReplError: FFI function failure"@,
            ReplError::SpawnFailed => "[-] ReplError: Failed to execute target Process"@,
            ReplError::BadGreeting => "[-] ReplError: Incorrect msg received"@,
            ReplError::InvalidMessage => "[-] ReplError: Invalid message received"@,
            ReplError::Stuck => "[-] ReplError: Poll succeded but read failed"@,
            ReplError::WaitFailed => "[-] ReplError: Error in try_wait"@,
            ReplError::MissingTimeout => "[-] ReplError: Missing timeout"@,
        }
    }

    /// The error in words.
    pub fn message(&self) -> (r: &'static str)
        ensures
            r@ == self.spec_message(),
    {
        match *self {
            ReplError::Timeout => "[-] ReplError: Timed out",
            ReplError::SystemCall(Syscall::MemfdCreate) => "[-] ReplError: memfd_create",
            ReplError::SystemCall(Syscall::Ftruncate) => "[-] ReplError: ftruncate",
            ReplError::SystemCall(Syscall::Mmap) => "[-] ReplError: mmap",
            ReplError::SystemCall(Syscall::PipeRead) => "[-] ReplError: pipe, read",
            ReplError::SystemCall(Syscall::PipeWrite) => "[-] ReplError: pipe, write",
            ReplError::SystemCall(Syscall::Lseek) => "[-] ReplError: lseek",
            ReplError::SystemCall(Syscall::Write) => "[-] ReplError: write",
            ReplError::SystemCall(Syscall::Poll) => "[-] ReplError: poll",
            ReplError::SystemCall(Syscall::Read) => "[-] ReplError: FFI function failure",
            ReplError::SpawnFailed => "[-] ReplError: Failed to execute target Process",
            ReplError::BadGreeting => "[-] ReplError: Incorrect msg received",
            ReplError::InvalidMessage => "[-] ReplError: Invalid message received",
            ReplError::Stuck => "[-] ReplError: Poll succeded but read failed",
            ReplError::WaitFailed => "[-] ReplError: Error in try_wait",
            ReplError::MissingTimeout => "[-] ReplError: Missing timeout",
        }
    }
}

/// A control message: one of the three tags, or any other word, which is
/// the status that a program returned.
#[derive(Clone, Copy, Debug, PartialEq, Eq, Structural)]
pub enum CtrlCmd {
    Helo,
    Exec,
    Exit,
    Misc(i32),
}

impl CtrlCmd {
    /// The message that a word stands for.
    pub open spec fn spec_decode(val: i32) -> CtrlCmd {
        if val == HELO_TAG {
            CtrlCmd::Helo
        } else if val == EXEC_TAG {
            CtrlCmd::Exec
        } else if val == EXIT_TAG {
            CtrlCmd::Exit
        } else {
            CtrlCmd::Misc(val)
        }
    }

    /// The message that a word stands for.
    pub fn decode(val: i32) -> (r: CtrlCmd)
        ensures
            r == CtrlCmd::spec_decode(val),
    {
        if val == HELO_TAG {
            CtrlCmd::Helo
        } else if val == EXEC_TAG {
            CtrlCmd::Exec
        } else if val == EXIT_TAG {
            CtrlCmd::Exit
        } else {
            CtrlCmd::Misc(val)
        }
    }

    /// The word that stands for a message.
    pub open spec fn spec_word(self) -> i32 {
        match self {
            CtrlCmd::Helo => HELO_TAG,
            CtrlCmd::Exec => EXEC_TAG,
            CtrlCmd::Exit => EXIT_TAG,
            CtrlCmd::Misc(val) => val,
        }
    }

    /// The four bytes that a tag is sent as: its name in ASCII. A status is
    /// never sent.
    pub fn bytes(&self) -> (r: [u8; 4])
        requires
            !(*self is Misc),
        ensures
            r@ == match *self {
                CtrlCmd::Helo => seq![0x48u8, 0x45u8, 0x4cu8, 0x4fu8],
                CtrlCmd::Exec => seq![0x65u8, 0x78u8, 0x65u8, 0x63u8],
                _ => seq![0x65u8, 0x78u8, 0x69u8, 0x74u8],
            },
            little_endian(r@) == self.spec_word(),
    {
        let r: [u8; 4] = match *self {
            CtrlCmd::Helo => [0x48, 0x45, 0x4c, 0x4f],
            CtrlCmd::Exec => [0x65, 0x78, 0x65, 0x63],
            _ => [0x65, 0x78, 0x69, 0x74],
        };
        proof {
            assert(r@ =~= match *self {
                CtrlCmd::Helo => seq![0x48u8, 0x45u8, 0x4cu8, 0x4fu8],
                CtrlCmd::Exec => seq![0x65u8, 0x78u8, 0x65u8, 0x63u8],
                _ => seq![0x65u8, 0x78u8, 0x69u8, 0x74u8],
            });
        }
        r
    }
}

/// The word that four bytes stand for, the lowest byte first.
pub open spec fn little_endian(bytes: Seq<u8>) -> int {
    bytes[0] + bytes[1] * 0x100 + bytes[2] * 0x1_0000 + bytes[3] * 0x100_0000
}

/// A word that is decoded as a status is none of the three tags, and
/// every word that is none of the tags is decoded as the status it is.
pub proof fn lemma_decode(val: i32)
    ensures
        CtrlCmd::spec_decode(val) is Misc <==> val != HELO_TAG && val != EXEC_TAG && val
            != EXIT_TAG,
        CtrlCmd::spec_decode(val).spec_word() == val,
{
}

/// The number of bytes of a program that are handed to the child: all of
/// them, or as many as the shared memory region holds besides the byte
/// that ends them.
pub open spec fn spec_input_size(len: usize) -> usize {
    if len < MAX_SIZE - 1 {
        len
    } else {
        (MAX_SIZE - 1) as usize
    }
}

/// The number of bytes of a program that are handed to the child.
pub fn input_size(len: usize) -> (r: usize)
    ensures
        r == spec_input_size(len),
{
    if len < MAX_SIZE - 1 {
        len
    } else {
        MAX_SIZE - 1
    }
}

/// The eight bytes that the length of a program is sent as, the lowest
/// byte first.
pub open spec fn spec_length_frame(size: u64) -> Seq<u8> {
    Seq::new(8, |i: int| ((size >> ((8 * i) as u64)) & 0xff) as u8)
}

/// The eight bytes that the length of a program is sent as, the lowest
/// byte first.
pub fn length_frame(size: u64) -> (r: [u8; 8])
    ensures
        r@ == spec_length_frame(size),
{
    let r: [u8; 8] = [
        (size & 0xff) as u8,
        ((size >> 8) & 0xff) as u8,
        ((size >> 16) & 0xff) as u8,
        ((size >> 24) & 0xff) as u8,
        ((size >> 32) & 0xff) as u8,
        ((size >> 40) & 0xff) as u8,
        ((size >> 48) & 0xff) as u8,
        ((size >> 56) & 0xff) as u8,
    ];
    proof {
        assert(size & 0xff == (size >> 0u64) & 0xff) by (bit_vector);
        assert(r@ =~= spec_length_frame(size));
    }
    r
}

/// The time that the harness waits for the child, in milliseconds.
pub fn poll_timeout(seconds: Option<u32>) -> (r: Result<i32, ReplError>)
    requires
        seconds matches Some(s) ==> s * 1000 <= i32::MAX,
    ensures
        r == match seconds {
            Some(s) => Ok::<i32, ReplError>((s * 1000) as i32),
            None => Err::<i32, ReplError>(ReplError::MissingTimeout),
        },
{
    match seconds {
        Some(s) => Ok((s * 1000) as i32),
        None => Err(ReplError::MissingTimeout),
    }
}

/// What a wait for the child tells. A wait that failed is a failed system
/// call; a wait that ran out is a timeout; after any other there is
/// something to read.
pub open spec fn spec_waited(polled: i32) -> Option<ReplError> {
    if polled == -1 {
        Some(ReplError::SystemCall(Syscall::Poll))
    } else if polled == 0 {
        Some(ReplError::Timeout)
    } else {
        None
    }
}

/// What a wait for the child tells.
pub fn waited(polled: i32) -> (r: Option<ReplError>)
    ensures
        r == spec_waited(polled),
{
    if polled == -1 {
        Some(ReplError::SystemCall(Syscall::Poll))
    } else if polled == 0 {
        Some(ReplError::Timeout)
    } else {
        None
    }
}

/// What the child sent, from the number of bytes that were read and the
/// word that they make. A read of other than four bytes is a failed system
/// call, since the child has probably ended; four bytes are a message.
pub open spec fn spec_received(count: i32, word: i32) -> Result<CtrlCmd, ReplError> {
    if count != 4 {
        Err(ReplError::SystemCall(Syscall::Read))
    } else {
        Ok(CtrlCmd::spec_decode(word))
    }
}

/// What the child sent, from the number of bytes that were read and the
/// word that they make.
pub fn received(count: i32, word: i32) -> (r: Result<CtrlCmd, ReplError>)
    ensures
        r == spec_received(count, word),
{
    if count != 4 {
        Err(ReplError::SystemCall(Syscall::Read))
    } else {
        Ok(CtrlCmd::decode(word))
    }
}

/// The answer to what the child sent first: the greeting is returned; any
/// other message is an error, and so is a failure to receive one.
pub open spec fn spec_greet(received: Result<CtrlCmd, ReplError>) -> Result<CtrlCmd, ReplError> {
    match received {
        Ok(CtrlCmd::Helo) => Ok(CtrlCmd::Helo),
        Ok(_) => Err(ReplError::BadGreeting),
        Err(e) => Err(e),
    }
}

/// The answer to what the child sent first.
pub fn greet(received: Result<CtrlCmd, ReplError>) -> (r: Result<CtrlCmd, ReplError>)
    ensures
        r == spec_greet(received),
{
    match received {
        Ok(CtrlCmd::Helo) => Ok(CtrlCmd::Helo),
        Ok(_) => Err(ReplError::BadGreeting),
        Err(e) => Err(e),
    }
}

/// What the harness does with the child's answer to a program.
#[derive(Clone, Copy, Debug, PartialEq, Eq, Structural)]
pub enum Verdict {
    /// The program returned the status; the child stays.
    Done(ReturnCode),
    /// The child ran out of time: the connection is reset and the run is
    /// reported as timed out.
    TimedOut,
    /// The protocol was violated: the connection is reset and the run
    /// fails.
    Fail(ReplError),
    /// The child has probably ended: its state is asked for.
    Reap,
}

/// What the harness does with the child's answer to a program. A status
/// is the result of the run. A control tag where a status is expected is an
/// error. Where the child did not answer in time, the run timed out. Any
/// other failure suggests that the child has ended.
pub open spec fn spec_judge(received: Result<CtrlCmd, ReplError>) -> Verdict {
    match received {
        Ok(CtrlCmd::Misc(status)) => Verdict::Done(ReturnCode::Status(status)),
        Ok(_) => Verdict::Fail(ReplError::InvalidMessage),
        Err(ReplError::Timeout) => Verdict::TimedOut,
        Err(_) => Verdict::Reap,
    }
}

/// What the harness does with the child's answer to a program.
pub fn judge(received: Result<CtrlCmd, ReplError>) -> (r: Verdict)
    ensures
        r == spec_judge(received),
{
    match received {
        Ok(CtrlCmd::Misc(status)) => Verdict::Done(ReturnCode::Status(status)),
        Ok(_) => Verdict::Fail(ReplError::InvalidMessage),
        Err(ReplError::Timeout) => Verdict::TimedOut,
        Err(_) => Verdict::Reap,
    }
}

/// A child that answers with four bytes that are none of the tags has
/// returned them as its status; one that does not answer in time has timed
/// out; one that answers with a tag has violated the protocol; one that
/// answers with fewer bytes has probably ended.
pub proof fn lemma_protocol(count: i32, status: i32)
    ensures
        status != HELO_TAG && status != EXEC_TAG && status != EXIT_TAG ==> spec_judge(
            spec_received(4, status),
        ) == Verdict::Done(ReturnCode::Status(status)),
        status == HELO_TAG || status == EXEC_TAG || status == EXIT_TAG ==> spec_judge(
            spec_received(4, status),
        ) == Verdict::Fail(ReplError::InvalidMessage),
        spec_judge(Err(spec_waited(0).unwrap())) == Verdict::TimedOut,
        spec_judge(Err(spec_waited(-1i32).unwrap())) == Verdict::Reap,
        count != 4 ==> spec_judge(spec_received(count, status)) == Verdict::Reap,
{
}

/// What is known of a child whose state was asked for.
#[derive(Clone, Copy, Debug, PartialEq, Eq, Structural)]
pub enum ChildState {
    /// It returned the status.
    Exited(i32),
    /// It was ended by the signal.
    Signaled(i32),
    /// It is still running.
    Running,
    /// Its state could not be asked for.
    Unknown,
}

/// What the harness does with a child whose state it asked for.
#[derive(Clone, Copy, Debug, PartialEq, Eq, Structural)]
pub enum Reaping {
    /// The child has ended: the connection is reset and the run has the
    /// result.
    Ended(ReturnCode),
    /// The child may be about to end: after a pause of ten microseconds
    /// its state is asked for again.
    Again,
    /// The connection is reset and the run fails.
    GiveUp(ReplError),
    /// The run fails; the connection is left as it is.
    Fail(ReplError),
}

/// The pause before the state of a child is asked for again, in
/// nanoseconds.
pub const REAP_PAUSE: u32 = 10000;

/// What the harness does with a child whose state it asked for, after
/// `attempts` earlier attempts that found it running.
pub open spec fn spec_reap(state: ChildState, attempts: u8) -> Reaping {
    match state {
        ChildState::Exited(code) => Reaping::Ended(ReturnCode::Status(code)),
        ChildState::Signaled(signal) => Reaping::Ended(ReturnCode::Crash(signal)),
        ChildState::Running => if attempts >= REAP_ATTEMPTS {
            Reaping::GiveUp(ReplError::Stuck)
        } else {
            Reaping::Again
        },
        ChildState::Unknown => Reaping::Fail(ReplError::WaitFailed),
    }
}

/// What the harness does with a child whose state it asked for, after
/// `attempts` earlier attempts that found it running.
pub fn reap(state: ChildState, attempts: u8) -> (r: Reaping)
    ensures
        r == spec_reap(state, attempts),
{
    match state {
        ChildState::Exited(code) => Reaping::Ended(ReturnCode::Status(code)),
        ChildState::Signaled(signal) => Reaping::Ended(ReturnCode::Crash(signal)),
        ChildState::Running => if attempts >= REAP_ATTEMPTS {
            Reaping::GiveUp(ReplError::Stuck)
        } else {
            Reaping::Again
        },
        ChildState::Unknown => Reaping::Fail(ReplError::WaitFailed),
    }
}

/// One thing to release when a connection is reset.
#[derive(Clone, Copy, Debug, PartialEq, Eq, Structural)]
pub enum Release {
    /// End the child and wait for it.
    Child,
    /// Close the descriptor of the shared memory region. Where that fails
    /// the process is aborted.
    Region(i32),
    /// Close the descriptor of an end of a pipe.
    Close(i32),
    /// Unmap the shared memory region.
    Mapping,
}

/// One thing that the child does before it becomes the engine.
#[derive(Clone, Copy, Debug, PartialEq, Eq, Structural)]
pub enum Hook {
    /// Make the second descriptor a copy of the first.
    Dup(i32, i32),
    /// Close the descriptor.
    Close(i32),
}

/// What the harness does once everything that the connection held is
/// released.
#[derive(Clone, Copy, Debug, PartialEq, Eq, Structural)]
pub enum After {
    /// It starts a new child.
    Create,
    /// It runs the program once more.
    Attempt,
    /// It ends the run with the result.
    Return(ReturnCode),
    /// It treats the run as failed.
    Fail(ReplError),
}

/// What the harness is waiting for.
#[derive(Clone, Copy, Debug, PartialEq, Eq, Structural)]
pub enum Phase {
    /// A program to run.
    Idle,
    /// A program to run; the last one had the result.
    Returned(ReturnCode),
    /// Nothing any more: the worker cannot go on.
    Failed(ReplError),
    /// The state of the child, before a program is handed to it.
    Checking,
    /// The release of everything that the connection holds.
    Clearing(After),
    /// The descriptor of a new shared memory region.
    CreatingRegion,
    /// The region to be given its size.
    SizingRegion,
    /// The region to be mapped.
    MappingRegion,
    /// The pipe that the harness reads from.
    OpeningReadPipe,
    /// The pipe that the harness writes to.
    OpeningWritePipe,
    /// The child.
    Spawning,
    /// The ends of the pipes that belong to the child to be closed.
    ClosingEnds,
    /// The child's greeting to arrive.
    PollingGreeting,
    /// The child's greeting.
    ReadingGreeting,
    /// The greeting to be sent back.
    Greeting,
    /// The shared memory region to be rewound.
    Seeking,
    /// The program to be copied to the region.
    Copying,
    /// The tag `exec` to be sent.
    SendingTag,
    /// The length of the program to be sent.
    SendingLength,
    /// The child's answer to arrive.
    PollingStatus,
    /// The child's answer.
    ReadingStatus,
    /// The state of a child that has probably ended, after so many
    /// attempts that found it running.
    Reaping(u8),
    /// A pause to pass, before the state of the child is asked for again.
    Pausing(u8),
}

/// What happened: what a caller asks of the harness, or the result of
/// what the harness asked for.
#[derive(Debug, PartialEq, Eq)]
pub enum Event {
    /// The caller asks for a child to be started.
    Start,
    /// The caller asks for a program of so many bytes to be run.
    Run(usize),
    /// What was asked for is done; it has no result.
    Done,
    /// The system call returned the value; `-1` tells that it failed.
    Returned(i32),
    /// The region was mapped, or could not be.
    Mapped(bool),
    /// The system call `pipe` returned the value, and these are the ends
    /// of the pipe.
    Piped(i32, Pipefd),
    /// The child was started, or could not be.
    Spawned(bool),
    /// So many bytes were read, which make the word.
    Read(i32, i32),
    /// The state of the child.
    Child(ChildState),
}

/// What the harness asks for.
#[derive(Debug, PartialEq, Eq)]
pub enum Action {
    /// Nothing: the connection waits for a program.
    Idle,
    /// Nothing: the run has the result.
    Return(ReturnCode),
    /// Nothing: the worker cannot go on.
    Fatal(ReplError),
    /// Release these, in their order. There is no result.
    Release(Vec<Release>),
    /// Create a shared memory region. The result is its descriptor.
    CreateRegion,
    /// Give the region of the descriptor the size.
    Resize(i32, usize),
    /// Map so many bytes of the region of the descriptor, shared, to read
    /// and to write.
    MapRegion(i32, usize),
    /// Open a pipe.
    OpenPipe,
    /// Start the engine, with no output; before it becomes the engine the
    /// child does these, in their order.
    Spawn(Vec<Hook>),
    /// Close the descriptors. There is no result.
    Close(Vec<i32>),
    /// Wait until the descriptor can be read from, for so many
    /// milliseconds at most.
    Poll(i32, i32),
    /// Read four bytes from the descriptor.
    Read(i32),
    /// Write the bytes to the descriptor.
    Send(i32, Vec<u8>),
    /// Rewind the descriptor.
    Seek(i32),
    /// Copy so many bytes of the program to the start of the mapped
    /// region. There is no result.
    Copy(usize),
    /// Ask for the state of the child, without waiting.
    AskChild,
    /// Let so many nanoseconds pass. There is no result.
    Pause(u32),
}

/// What the harness asks for, as a mathematical value.
pub enum ActionView {
    Idle,
    Return(ReturnCode),
    Fatal(ReplError),
    Release(Seq<Release>),
    CreateRegion,
    Resize(i32, usize),
    MapRegion(i32, usize),
    OpenPipe,
    Spawn(Seq<Hook>),
    Close(Seq<i32>),
    Poll(i32, i32),
    Read(i32),
    Send(i32, Seq<u8>),
    Seek(i32),
    Copy(usize),
    AskChild,
    Pause(u32),
}

impl View for Action {
    type V = ActionView;

    open spec fn view(&self) -> ActionView {
        match *self {
            Action::Idle => ActionView::Idle,
            Action::Return(code) => ActionView::Return(code),
            Action::Fatal(e) => ActionView::Fatal(e),
            Action::Release(list) => ActionView::Release(list@),
            Action::CreateRegion => ActionView::CreateRegion,
            Action::Resize(fd, size) => ActionView::Resize(fd, size),
            Action::MapRegion(fd, size) => ActionView::MapRegion(fd, size),
            Action::OpenPipe => ActionView::OpenPipe,
            Action::Spawn(hooks) => ActionView::Spawn(hooks@),
            Action::Close(fds) => ActionView::Close(fds@),
            Action::Poll(fd, timeout) => ActionView::Poll(fd, timeout),
            Action::Read(fd) => ActionView::Read(fd),
            Action::Send(fd, bytes) => ActionView::Send(fd, bytes@),
            Action::Seek(fd) => ActionView::Seek(fd),
            Action::Copy(size) => ActionView::Copy(size),
            Action::AskChild => ActionView::AskChild,
            Action::Pause(nanos) => ActionView::Pause(nanos),
        }
    }
}

/// The connection to a child, as plain values: what it holds of the
/// operating system (the descriptor of the shared memory region, the two
/// control pipes, whether the region is mapped and whether there is a
/// child), what it was made with, and how far the harness has come.
pub struct ReplConnection {
    pub data_write_fd: Option<i32>,
    pub ctrl_write_fd: Option<Pipefd>,
    pub ctrl_read_fd: Option<Pipefd>,
    pub mapping: bool,
    pub child: bool,
    pub path: Option<String>,
    pub args: Option<Vec<&'static str>>,
    pub timeout: Option<u32>,
    /// What the harness is waiting for.
    pub phase: Phase,
    /// Whether a program is being run, and not only a child started.
    pub running: bool,
    /// Whether the program has failed once already.
    pub retried: bool,
    /// The number of bytes of the program that are handed to the child.
    pub size: usize,
}

/// The descriptors of a pipe that are to be closed, if there is a pipe.
pub open spec fn pipe_releases(pipe: Option<Pipefd>) -> Seq<Release> {
    match pipe {
        Some(p) => open_ends(p).map_values(|fd: i32| Release::Close(fd)),
        None => Seq::empty(),
    }
}

/// The read end of a pipe, if there is a pipe.
pub open spec fn read_end(pipe: Option<Pipefd>) -> i32 {
    match pipe {
        Some(p) => p.readfd,
        None => CLOSED,
    }
}

/// The write end of a pipe, if there is a pipe.
pub open spec fn write_end(pipe: Option<Pipefd>) -> i32 {
    match pipe {
        Some(p) => p.writefd,
        None => CLOSED,
    }
}

/// The descriptors that are open among the two.
pub open spec fn open_among(first: i32, second: i32) -> Seq<i32> {
    open_ends(Pipefd { readfd: first, writefd: second })
}

/// The four bytes of the tag `HELO`.
pub open spec fn helo_bytes() -> Seq<u8> {
    seq![0x48u8, 0x45u8, 0x4cu8, 0x4fu8]
}

/// The four bytes of the tag `exec`.
pub open spec fn exec_bytes() -> Seq<u8> {
    seq![0x65u8, 0x78u8, 0x65u8, 0x63u8]
}

impl ReplConnection {
    /// Everything that the connection holds, in the order in which it is
    /// released: the child, the descriptor of the shared memory region, the
    /// pipe that is read from, the pipe that is written to, the mapping.
    pub open spec fn held(&self) -> Seq<Release> {
        let child = if self.child {
            seq![Release::Child]
        } else {
            Seq::<Release>::empty()
        };
        let region = match self.data_write_fd {
            Some(fd) => seq![Release::Region(fd)],
            None => Seq::<Release>::empty(),
        };
        let mapping = if self.mapping {
            seq![Release::Mapping]
        } else {
            Seq::<Release>::empty()
        };
        child + region + pipe_releases(self.ctrl_read_fd) + pipe_releases(self.ctrl_write_fd)
            + mapping
    }

    /// Tells whether the connection holds everything that a child is
    /// driven with.
    pub open spec fn initialized(&self) -> bool {
        self.data_write_fd is Some && self.ctrl_read_fd is Some && self.ctrl_write_fd is Some
            && self.mapping && self.child
    }

    /// The descriptor of the shared memory region.
    pub open spec fn region(&self) -> i32 {
        match self.data_write_fd {
            Some(fd) => fd,
            None => CLOSED,
        }
    }

    /// The descriptor that the harness reads from.
    pub open spec fn crfd(&self) -> i32 {
        read_end(self.ctrl_read_fd)
    }

    /// The descriptor that the harness writes to.
    pub open spec fn cwfd(&self) -> i32 {
        write_end(self.ctrl_write_fd)
    }

    /// The time that the harness waits for the child, in milliseconds.
    pub open spec fn patience(&self) -> i32 {
        match self.timeout {
            Some(s) => (s * 1000) as i32,
            None => 0,
        }
    }

    /// What the child does before it becomes the engine: it makes the
    /// region, the read end of the pipe that the harness writes to and the
    /// write end of the pipe that the harness reads from its descriptors
    /// 102, 100 and 101, and closes the two ends that are the harness's.
    pub open spec fn hooks(&self) -> Seq<Hook> {
        seq![
            Hook::Dup(self.region(), DRFD),
            Hook::Dup(read_end(self.ctrl_write_fd), CRFD),
            Hook::Dup(write_end(self.ctrl_read_fd), CWFD),
            Hook::Close(write_end(self.ctrl_write_fd)),
            Hook::Close(read_end(self.ctrl_read_fd)),
        ]
    }

    /// The ends of the pipes that belong to the child, as far as they are
    /// open.
    pub open spec fn child_ends(&self) -> Seq<i32> {
        open_among(read_end(self.ctrl_write_fd), write_end(self.ctrl_read_fd))
    }

    /// Tells whether the connection holds nothing.
    pub open spec fn empty(&self) -> bool {
        self.data_write_fd is None && self.ctrl_read_fd is None && self.ctrl_write_fd is None
            && !self.mapping && !self.child
    }

    /// What the connection holds in each phase, and the limits that keep
    /// its numbers in range. While a child is being started the connection
    /// holds what was made so far and nothing else, so that nothing is made
    /// in the place of something that is still held.
    pub open spec fn wf(&self) -> bool {
        &&& self.timeout matches Some(s) ==> s * 1000 <= i32::MAX
        &&& self.size < MAX_SIZE
        &&& match self.phase {
            Phase::CreatingRegion => self.empty(),
            Phase::SizingRegion | Phase::MappingRegion => self.data_write_fd is Some
                && !self.mapping && self.ctrl_read_fd is None && self.ctrl_write_fd is None
                && !self.child,
            Phase::OpeningReadPipe => self.data_write_fd is Some && self.mapping
                && self.ctrl_read_fd is None && self.ctrl_write_fd is None && !self.child,
            Phase::OpeningWritePipe => self.data_write_fd is Some && self.mapping
                && self.ctrl_read_fd is Some && self.ctrl_write_fd is None && !self.child,
            Phase::Spawning => self.data_write_fd is Some && self.mapping
                && self.ctrl_read_fd is Some && self.ctrl_write_fd is Some && !self.child,
            Phase::PollingGreeting | Phase::PollingStatus => self.initialized()
                && self.timeout is Some,
            Phase::ClosingEnds
            | Phase::ReadingGreeting
            | Phase::Greeting
            | Phase::Checking
            | Phase::Seeking
            | Phase::Copying
            | Phase::SendingTag
            | Phase::SendingLength
            | Phase::ReadingStatus => self.initialized(),
            Phase::Reaping(n) | Phase::Pausing(n) => self.initialized() && n <= REAP_ATTEMPTS,
            _ => true,
        }
    }

    /// The connection in another phase.
    pub open spec fn enter(self, phase: Phase) -> ReplConnection {
        ReplConnection { phase, ..self }
    }

    /// The connection once it has let go of everything.
    pub open spec fn cleared(self) -> ReplConnection {
        ReplConnection {
            data_write_fd: None,
            ctrl_write_fd: None,
            ctrl_read_fd: None,
            mapping: false,
            child: false,
            ..self
        }
    }

    /// The connection at the start of an attempt to run a program. Where
    /// it holds everything, the state of the child is asked for; where it
    /// does not, a child is started.
    pub open spec fn attempt(self) -> ReplConnection {
        if self.initialized() {
            self.enter(Phase::Checking)
        } else {
            self.enter(Phase::Clearing(After::Create))
        }
    }

    /// The connection after a failure. The first failure of a run is
    /// answered by a reset and a second attempt; the second is fatal, and so
    /// is a failure to start a child where no program is being run.
    pub open spec fn failed(self, e: ReplError) -> ReplConnection {
        if self.running && !self.retried {
            ReplConnection { retried: true, ..self }.enter(Phase::Clearing(After::Attempt))
        } else {
            self.enter(Phase::Failed(e))
        }
    }

    /// The connection about to wait for the child, which fails where no
    /// timeout is set.
    pub open spec fn wait(self, phase: Phase) -> ReplConnection {
        if self.timeout is Some {
            self.enter(phase)
        } else {
            self.failed(ReplError::MissingTimeout)
        }
    }

    /// The connection after a system call that returned `ret`: in the
    /// phase `then`, or failed if the call failed.
    pub open spec fn checked(self, ret: i32, call: Syscall, then: Phase) -> ReplConnection {
        if ret == -1 {
            self.failed(ReplError::SystemCall(call))
        } else {
            self.enter(then)
        }
    }

    /// The connection with the ends of the pipes that belong to the child
    /// given up.
    pub open spec fn parted(self) -> ReplConnection {
        ReplConnection {
            ctrl_write_fd: match self.ctrl_write_fd {
                Some(p) => Some(Pipefd { readfd: CLOSED, ..p }),
                None => None,
            },
            ctrl_read_fd: match self.ctrl_read_fd {
                Some(p) => Some(Pipefd { writefd: CLOSED, ..p }),
                None => None,
            },
            ..self
        }
    }

    /// The connection after the event. An event that the harness is not
    /// waiting for changes nothing.
    pub open spec fn next(self, event: Event) -> ReplConnection {
        match self.phase {
            Phase::Idle | Phase::Returned(_) => match event {
                Event::Start => ReplConnection { running: false, retried: false, ..self }.enter(
                    Phase::Clearing(After::Create),
                ),
                Event::Run(len) => ReplConnection {
                    running: true,
                    retried: false,
                    size: spec_input_size(len),
                    ..self
                }.attempt(),
                _ => self,
            },
            Phase::Failed(_) => self,
            Phase::Checking => match event {
                Event::Child(ChildState::Running) => self.enter(Phase::Seeking),
                Event::Child(_) => self.enter(Phase::Clearing(After::Create)),
                _ => self,
            },
            Phase::Clearing(after) => match event {
                Event::Done => match after {
                    After::Create => self.cleared().enter(Phase::CreatingRegion),
                    After::Attempt => self.cleared().attempt(),
                    After::Return(code) => self.cleared().enter(Phase::Returned(code)),
                    After::Fail(e) => self.cleared().failed(e),
                },
                _ => self,
            },
            Phase::CreatingRegion => match event {
                Event::Returned(fd) => if fd == -1 {
                    self.failed(ReplError::SystemCall(Syscall::MemfdCreate))
                } else {
                    ReplConnection { data_write_fd: Some(fd), ..self }.enter(Phase::SizingRegion)
                },
                _ => self,
            },
            Phase::SizingRegion => match event {
                Event::Returned(ret) => self.checked(
                    ret,
                    Syscall::Ftruncate,
                    Phase::MappingRegion,
                ),
                _ => self,
            },
            Phase::MappingRegion => match event {
                Event::Mapped(true) => ReplConnection { mapping: true, ..self }.enter(
                    Phase::OpeningReadPipe,
                ),
                Event::Mapped(false) => self.failed(ReplError::SystemCall(Syscall::Mmap)),
                _ => self,
            },
            Phase::OpeningReadPipe => match event {
                Event::Piped(ret, pipe) => if ret == -1 {
                    self.failed(ReplError::SystemCall(Syscall::PipeRead))
                } else {
                    ReplConnection { ctrl_read_fd: Some(pipe), ..self }.enter(
                        Phase::OpeningWritePipe,
                    )
                },
                _ => self,
            },
            Phase::OpeningWritePipe => match event {
                Event::Piped(ret, pipe) => if ret == -1 {
                    self.failed(ReplError::SystemCall(Syscall::PipeWrite))
                } else {
                    ReplConnection { ctrl_write_fd: Some(pipe), ..self }.enter(Phase::Spawning)
                },
                _ => self,
            },
            Phase::Spawning => match event {
                Event::Spawned(true) => ReplConnection { child: true, ..self }.enter(
                    Phase::ClosingEnds,
                ),
                Event::Spawned(false) => self.failed(ReplError::SpawnFailed),
                _ => self,
            },
            Phase::ClosingEnds => match event {
                Event::Done => self.parted().wait(Phase::PollingGreeting),
                _ => self,
            },
            Phase::PollingGreeting => match event {
                Event::Returned(polled) => match spec_waited(polled) {
                    Some(e) => self.failed(e),
                    None => self.enter(Phase::ReadingGreeting),
                },
                _ => self,
            },
            Phase::ReadingGreeting => match event {
                Event::Read(count, word) => match spec_greet(spec_received(count, word)) {
                    Ok(_) => self.enter(Phase::Greeting),
                    Err(e) => self.failed(e),
                },
                _ => self,
            },
            Phase::Greeting => match event {
                Event::Returned(ret) => self.checked(
                    ret,
                    Syscall::Write,
                    if self.running {
                        Phase::Seeking
                    } else {
                        Phase::Idle
                    },
                ),
                _ => self,
            },
            Phase::Seeking => match event {
                Event::Returned(ret) => self.checked(ret, Syscall::Lseek, Phase::Copying),
                _ => self,
            },
            Phase::Copying => match event {
                Event::Done => self.enter(Phase::SendingTag),
                _ => self,
            },
            Phase::SendingTag => match event {
                Event::Returned(ret) => self.checked(ret, Syscall::Write, Phase::SendingLength),
                _ => self,
            },
            Phase::SendingLength => match event {
                Event::Returned(ret) => if ret == -1 {
                    self.failed(ReplError::SystemCall(Syscall::Write))
                } else {
                    self.wait(Phase::PollingStatus)
                },
                _ => self,
            },
            Phase::PollingStatus => match event {
                Event::Returned(polled) => match spec_waited(polled) {
                    None => self.enter(Phase::ReadingStatus),
                    Some(e) => self.judged(spec_judge(Err(e))),
                },
                _ => self,
            },
            Phase::ReadingStatus => match event {
                Event::Read(count, word) => self.judged(spec_judge(spec_received(count, word))),
                _ => self,
            },
            Phase::Reaping(n) => match event {
                Event::Child(state) => match spec_reap(state, n) {
                    Reaping::Ended(code) => self.enter(Phase::Clearing(After::Return(code))),
                    Reaping::Again => self.enter(Phase::Pausing((n + 1) as u8)),
                    Reaping::GiveUp(e) => self.enter(Phase::Clearing(After::Fail(e))),
                    Reaping::Fail(e) => self.failed(e),
                },
                _ => self,
            },
            Phase::Pausing(n) => match event {
                Event::Done => self.enter(Phase::Reaping(n)),
                _ => self,
            },
        }
    }

    /// The connection after the child's answer to a program was judged.
    pub open spec fn judged(self, verdict: Verdict) -> ReplConnection {
        match verdict {
            Verdict::Done(code) => self.enter(Phase::Returned(code)),
            Verdict::TimedOut => self.enter(Phase::Clearing(After::Return(ReturnCode::Timeout))),
            Verdict::Fail(e) => self.enter(Phase::Clearing(After::Fail(e))),
            Verdict::Reap => self.enter(Phase::Reaping(0)),
        }
    }

    /// What the harness asks for in the phase that the connection is in.
    pub open spec fn pending(&self) -> ActionView {
        match self.phase {
            Phase::Idle => ActionView::Idle,
            Phase::Returned(code) => ActionView::Return(code),
            Phase::Failed(e) => ActionView::Fatal(e),
            Phase::Checking | Phase::Reaping(_) => ActionView::AskChild,
            Phase::Clearing(_) => ActionView::Release(self.held()),
            Phase::CreatingRegion => ActionView::CreateRegion,
            Phase::SizingRegion => ActionView::Resize(self.region(), MAX_SIZE),
            Phase::MappingRegion => ActionView::MapRegion(self.region(), MAX_SIZE),
            Phase::OpeningReadPipe | Phase::OpeningWritePipe => ActionView::OpenPipe,
            Phase::Spawning => ActionView::Spawn(self.hooks()),
            Phase::ClosingEnds => ActionView::Close(self.child_ends()),
            Phase::PollingGreeting | Phase::PollingStatus => ActionView::Poll(
                self.crfd(),
                self.patience(),
            ),
            Phase::ReadingGreeting | Phase::ReadingStatus => ActionView::Read(self.crfd()),
            Phase::Greeting => ActionView::Send(self.cwfd(), helo_bytes()),
            Phase::Seeking => ActionView::Seek(self.region()),
            Phase::Copying => ActionView::Copy(self.size),
            Phase::SendingTag => ActionView::Send(self.cwfd(), exec_bytes()),
            Phase::SendingLength => ActionView::Send(
                self.cwfd(),
                spec_length_frame(self.size as u64),
            ),
            Phase::Pausing(_) => ActionView::Pause(REAP_PAUSE),
        }
    }

    /// A connection that holds nothing, was given nothing, and runs nothing.
    pub fn default() -> (r: ReplConnection)
        ensures
            r.wf(),
            r.empty(),
            r.held() == Seq::<Release>::empty(),
            r.phase == Phase::Idle,
            !r.running,
            !r.retried,
            r.size == 0,
            r.path is None,
            r.args is None,
            r.timeout is None,
    {
        let r = ReplConnection {
            data_write_fd: None,
            ctrl_write_fd: None,
            ctrl_read_fd: None,
            mapping: false,
            child: false,
            path: None,
            args: None,
            timeout: None,
            phase: Phase::Idle,
            running: false,
            retried: false,
            size: 0,
        };
        assert(r.held() =~= Seq::<Release>::empty());
        r
    }

    /// A connection to the engine at `path` that holds nothing yet and
    /// waits for a program. The timeout is in seconds.
    pub fn new(path: String, args: Vec<&'static str>, timeout: u32) -> (r: ReplConnection)
        requires
            timeout * 1000 <= i32::MAX,
        ensures
            r.wf(),
            r.empty(),
            r.held() == Seq::<Release>::empty(),
            r.phase == Phase::Idle,
            !r.running,
            !r.retried,
            r.size == 0,
            r.path == Some(path),
            r.args == Some(args),
            r.timeout == Some(timeout),
    {
        let r = ReplConnection {
            data_write_fd: None,
            ctrl_write_fd: None,
            ctrl_read_fd: None,
            mapping: false,
            child: false,
            path: Some(path),
            args: Some(args),
            timeout: Some(timeout),
            phase: Phase::Idle,
            running: false,
            retried: false,
            size: 0,
        };
        assert(r.held() =~= Seq::<Release>::empty());
        r
    }

    /// Lets go of everything that the connection holds, whatever the
    /// harness was waiting for. What is returned is what the caller has to
    /// release, each thing once and in order; afterwards the connection
    /// holds nothing, so that nothing is released twice, and waits for a
    /// program.
    pub fn reset_connection(&mut self) -> (r: Vec<Release>)
        ensures
            r@ == old(self).held(),
            *final(self) == old(self).cleared().enter(Phase::Idle),
            final(self).held() == Seq::<Release>::empty(),
            old(self).wf() ==> final(self).wf(),
    {
        let r = self.holdings();
        self.clear();
        self.phase = Phase::Idle;
        r
    }

    /// Takes note of the event and tells what the harness asks for next.
    pub fn step(&mut self, event: Event) -> (r: Action)
        requires
            old(self).wf(),
        ensures
            final(self).wf(),
            *final(self) == old(self).next(event),
            r@ == final(self).pending(),
    {
        proof {
            old(self).lemma_next_wf(event);
        }
        self.advance(event);
        self.action()
    }

    /// A connection that is as it has to be stays so, whatever happens.
    pub proof fn lemma_next_wf(self, event: Event)
        requires
            self.wf(),
        ensures
            self.next(event).wf(),
    {
    }

    fn holdings(&self) -> (r: Vec<Release>)
        ensures
            r@ == self.held(),
    {
        let mut r: Vec<Release> = Vec::new();
        if self.child {
            r.push(Release::Child);
        }
        if let Some(fd) = self.data_write_fd {
            r.push(Release::Region(fd));
        }
        Self::release_pipe(&mut r, &self.ctrl_read_fd);
        Self::release_pipe(&mut r, &self.ctrl_write_fd);
        if self.mapping {
            r.push(Release::Mapping);
        }
        assert(r@ =~= self.held());
        r
    }

    fn release_pipe(r: &mut Vec<Release>, pipe: &Option<Pipefd>)
        ensures
            final(r)@ == old(r)@ + pipe_releases(*pipe),
    {
        let (read, write) = Self::ends_of(pipe);
        if read >= 0 {
            r.push(Release::Close(read));
        }
        if write >= 0 {
            r.push(Release::Close(write));
        }
        assert(r@ =~= old(r)@ + pipe_releases(*pipe));
    }

    fn ends_of(pipe: &Option<Pipefd>) -> (r: (i32, i32))
        ensures
            r.0 == read_end(*pipe),
            r.1 == write_end(*pipe),
    {
        match pipe {
            Some(p) => (p.readfd, p.writefd),
            None => (CLOSED, CLOSED),
        }
    }

    fn region_fd(&self) -> (r: i32)
        ensures
            r == self.region(),
    {
        match self.data_write_fd {
            Some(fd) => fd,
            None => CLOSED,
        }
    }

    fn is_initialized(&self) -> (r: bool)
        ensures
            r == self.initialized(),
    {
        self.data_write_fd.is_some() && self.ctrl_read_fd.is_some() && self.ctrl_write_fd.is_some()
            && self.mapping && self.child
    }

    fn clear(&mut self)
        ensures
            *final(self) == old(self).cleared(),
            final(self).held() == Seq::<Release>::empty(),
    {
        self.child = false;
        self.data_write_fd = None;
        self.ctrl_read_fd = None;
        self.ctrl_write_fd = None;
        self.mapping = false;
        assert(self.held() =~= Seq::<Release>::empty());
    }

    fn part(&mut self)
        ensures
            *final(self) == old(self).parted(),
    {
        if let Some(p) = self.ctrl_write_fd.take() {
            let mut p = p;
            p.readfd = CLOSED;
            self.ctrl_write_fd = Some(p);
        }
        if let Some(p) = self.ctrl_read_fd.take() {
            let mut p = p;
            p.writefd = CLOSED;
            self.ctrl_read_fd = Some(p);
        }
    }

    fn begin_attempt(&mut self)
        ensures
            *final(self) == old(self).attempt(),
    {
        if self.is_initialized() {
            self.phase = Phase::Checking;
        } else {
            self.phase = Phase::Clearing(After::Create);
        }
    }

    fn fail(&mut self, e: ReplError)
        ensures
            *final(self) == old(self).failed(e),
    {
        if self.running && !self.retried {
            self.retried = true;
            self.phase = Phase::Clearing(After::Attempt);
        } else {
            self.phase = Phase::Failed(e);
        }
    }

    fn begin_wait(&mut self, phase: Phase)
        ensures
            *final(self) == old(self).wait(phase),
    {
        if self.timeout.is_some() {
            self.phase = phase;
        } else {
            self.fail(ReplError::MissingTimeout);
        }
    }

    fn check(&mut self, ret: i32, call: Syscall, then: Phase)
        ensures
            *final(self) == old(self).checked(ret, call, then),
    {
        if ret == -1 {
            self.fail(ReplError::SystemCall(call));
        } else {
            self.phase = then;
        }
    }

    fn judge_answer(&mut self, verdict: Verdict)
        ensures
            *final(self) == old(self).judged(verdict),
    {
        match verdict {
            Verdict::Done(code) => {
                self.phase = Phase::Returned(code);
            },
            Verdict::TimedOut => {
                self.phase = Phase::Clearing(After::Return(ReturnCode::Timeout));
            },
            Verdict::Fail(e) => {
                self.phase = Phase::Clearing(After::Fail(e));
            },
            Verdict::Reap => {
                self.phase = Phase::Reaping(0);
            },
        }
    }

    /// Takes note of an event while a child is started.
    fn init(&mut self, event: Event)
        requires
            old(self).wf(),
            match old(self).phase {
                Phase::Clearing(_)
                | Phase::CreatingRegion
                | Phase::SizingRegion
                | Phase::MappingRegion
                | Phase::OpeningReadPipe
                | Phase::OpeningWritePipe
                | Phase::Spawning
                | Phase::ClosingEnds
                | Phase::PollingGreeting
                | Phase::ReadingGreeting
                | Phase::Greeting => true,
                _ => false,
            },
        ensures
            *final(self) == old(self).next(event),
    {
        match self.phase {
            Phase::Clearing(after) => match event {
                Event::Done => {
                    self.clear();
                    match after {
                        After::Create => {
                            self.phase = Phase::CreatingRegion;
                        },
                        After::Attempt => {
                            self.begin_attempt();
                        },
                        After::Return(code) => {
                            self.phase = Phase::Returned(code);
                        },
                        After::Fail(e) => {
                            self.fail(e);
                        },
                    }
                },
                _ => {},
            },
            Phase::CreatingRegion => match event {
                Event::Returned(fd) => {
                    if fd == -1 {
                        self.fail(ReplError::SystemCall(Syscall::MemfdCreate));
                    } else {
                        self.data_write_fd = Some(fd);
                        self.phase = Phase::SizingRegion;
                    }
                },
                _ => {},
            },
            Phase::SizingRegion => match event {
                Event::Returned(ret) => {
                    self.check(ret, Syscall::Ftruncate, Phase::MappingRegion);
                },
                _ => {},
            },
            Phase::MappingRegion => match event {
                Event::Mapped(mapped) => {
                    if mapped {
                        self.mapping = true;
                        self.phase = Phase::OpeningReadPipe;
                    } else {
                        self.fail(ReplError::SystemCall(Syscall::Mmap));
                    }
                },
                _ => {},
            },
            Phase::OpeningReadPipe => match event {
                Event::Piped(ret, pipe) => {
                    if ret == -1 {
                        self.fail(ReplError::SystemCall(Syscall::PipeRead));
                    } else {
                        self.ctrl_read_fd = Some(pipe);
                        self.phase = Phase::OpeningWritePipe;
                    }
                },
                _ => {},
            },
            Phase::OpeningWritePipe => match event {
                Event::Piped(ret, pipe) => {
                    if ret == -1 {
                        self.fail(ReplError::SystemCall(Syscall::PipeWrite));
                    } else {
                        self.ctrl_write_fd = Some(pipe);
                        self.phase = Phase::Spawning;
                    }
                },
                _ => {},
            },
            Phase::Spawning => match event {
                Event::Spawned(spawned) => {
                    if spawned {
                        self.child = true;
                        self.phase = Phase::ClosingEnds;
                    } else {
                        self.fail(ReplError::SpawnFailed);
                    }
                },
                _ => {},
            },
            Phase::ClosingEnds => match event {
                Event::Done => {
                    self.part();
                    self.begin_wait(Phase::PollingGreeting);
                },
                _ => {},
            },
            Phase::PollingGreeting => match event {
                Event::Returned(polled) => match waited(polled) {
                    Some(e) => {
                        self.fail(e);
                    },
                    None => {
                        self.phase = Phase::ReadingGreeting;
                    },
                },
                _ => {},
            },
            Phase::ReadingGreeting => match event {
                Event::Read(count, word) => match greet(received(count, word)) {
                    Ok(_) => {
                        self.phase = Phase::Greeting;
                    },
                    Err(e) => {
                        self.fail(e);
                    },
                },
                _ => {},
            },
            _ => match event {
                Event::Returned(ret) => {
                    let then = if self.running {
                        Phase::Seeking
                    } else {
                        Phase::Idle
                    };
                    self.check(ret, Syscall::Write, then);
                },
                _ => {},
            },
        }
    }

    /// Takes note of an event while a program is handed to the child and
    /// its answer is waited for, or while the connection waits for a program.
    fn execute_impl(&mut self, event: Event)
        requires
            old(self).wf(),
            match old(self).phase {
                Phase::Idle
                | Phase::Returned(_)
                | Phase::Failed(_)
                | Phase::Checking
                | Phase::Seeking
                | Phase::Copying
                | Phase::SendingTag
                | Phase::SendingLength
                | Phase::PollingStatus
                | Phase::ReadingStatus
                | Phase::Reaping(_)
                | Phase::Pausing(_) => true,
                _ => false,
            },
        ensures
            *final(self) == old(self).next(event),
    {
        match self.phase {
            Phase::Idle | Phase::Returned(_) => match event {
                Event::Start => {
                    self.running = false;
                    self.retried = false;
                    self.phase = Phase::Clearing(After::Create);
                },
                Event::Run(len) => {
                    self.running = true;
                    self.retried = false;
                    self.size = input_size(len);
                    self.begin_attempt();
                },
                _ => {},
            },
            Phase::Checking => match event {
                Event::Child(ChildState::Running) => {
                    self.phase = Phase::Seeking;
                },
                Event::Child(_) => {
                    self.phase = Phase::Clearing(After::Create);
                },
                _ => {},
            },
            Phase::Seeking => match event {
                Event::Returned(ret) => {
                    self.check(ret, Syscall::Lseek, Phase::Copying);
                },
                _ => {},
            },
            Phase::Copying => match event {
                Event::Done => {
                    self.phase = Phase::SendingTag;
                },
                _ => {},
            },
            Phase::SendingTag => match event {
                Event::Returned(ret) => {
                    self.check(ret, Syscall::Write, Phase::SendingLength);
                },
                _ => {},
            },
            Phase::SendingLength => match event {
                Event::Returned(ret) => {
                    if ret == -1 {
                        self.fail(ReplError::SystemCall(Syscall::Write));
                    } else {
                        self.begin_wait(Phase::PollingStatus);
                    }
                },
                _ => {},
            },
            Phase::PollingStatus => match event {
                Event::Returned(polled) => match waited(polled) {
                    None => {
                        self.phase = Phase::ReadingStatus;
                    },
                    Some(e) => {
                        self.judge_answer(judge(Err(e)));
                    },
                },
                _ => {},
            },
            Phase::ReadingStatus => match event {
                Event::Read(count, word) => {
                    self.judge_answer(judge(received(count, word)));
                },
                _ => {},
            },
            Phase::Reaping(n) => match event {
                Event::Child(state) => match reap(state, n) {
                    Reaping::Ended(code) => {
                        self.phase = Phase::Clearing(After::Return(code));
                    },
                    Reaping::Again => {
                        self.phase = Phase::Pausing(n + 1);
                    },
                    Reaping::GiveUp(e) => {
                        self.phase = Phase::Clearing(After::Fail(e));
                    },
                    Reaping::Fail(e) => {
                        self.fail(e);
                    },
                },
                _ => {},
            },
            Phase::Pausing(n) => match event {
                Event::Done => {
                    self.phase = Phase::Reaping(n);
                },
                _ => {},
            },
            _ => {},
        }
    }

    fn advance(&mut self, event: Event)
        requires
            old(self).wf(),
        ensures
            *final(self) == old(self).next(event),
    {
        match self.phase {
            Phase::Clearing(_)
            | Phase::CreatingRegion
            | Phase::SizingRegion
            | Phase::MappingRegion
            | Phase::OpeningReadPipe
            | Phase::OpeningWritePipe
            | Phase::Spawning
            | Phase::ClosingEnds
            | Phase::PollingGreeting
            | Phase::ReadingGreeting
            | Phase::Greeting => self.init(event),
            _ => self.execute_impl(event),
        }
    }

    fn bytes_of(bytes: &[u8]) -> (r: Vec<u8>)
        ensures
            r@ == bytes@,
    {
        let mut r: Vec<u8> = Vec::new();
        let mut i: usize = 0;
        while i < bytes.len()
            invariant
                i <= bytes@.len(),
                r@ == bytes@.subrange(0, i as int),
            decreases bytes@.len() - i,
        {
            r.push(bytes[i]);
            assert(r@ =~= bytes@.subrange(0, i + 1));
            i = i + 1;
        }
        assert(bytes@.subrange(0, i as int) =~= bytes@);
        r
    }

    fn action(&self) -> (r: Action)
        requires
            self.wf(),
        ensures
            r@ == self.pending(),
    {
        match self.phase {
            Phase::Idle => Action::Idle,
            Phase::Returned(code) => Action::Return(code),
            Phase::Failed(e) => Action::Fatal(e),
            Phase::Checking | Phase::Reaping(_) => Action::AskChild,
            Phase::Clearing(_) => Action::Release(self.holdings()),
            Phase::CreatingRegion => Action::CreateRegion,
            Phase::SizingRegion => Action::Resize(self.region_fd(), MAX_SIZE),
            Phase::MappingRegion => Action::MapRegion(self.region_fd(), MAX_SIZE),
            Phase::OpeningReadPipe | Phase::OpeningWritePipe => Action::OpenPipe,
            Phase::Spawning => {
                let (reads, unused_write) = Self::ends_of(&self.ctrl_write_fd);
                let (unused_read, writes) = Self::ends_of(&self.ctrl_read_fd);
                let mut hooks: Vec<Hook> = Vec::new();
                hooks.push(Hook::Dup(self.region_fd(), DRFD));
                hooks.push(Hook::Dup(reads, CRFD));
                hooks.push(Hook::Dup(writes, CWFD));
                hooks.push(Hook::Close(unused_write));
                hooks.push(Hook::Close(unused_read));
                assert(hooks@ =~= self.hooks());
                Action::Spawn(hooks)
            },
            Phase::ClosingEnds => {
                let (reads, _) = Self::ends_of(&self.ctrl_write_fd);
                let (_, writes) = Self::ends_of(&self.ctrl_read_fd);
                let mut ends: Vec<i32> = Vec::new();
                if reads >= 0 {
                    ends.push(reads);
                }
                if writes >= 0 {
                    ends.push(writes);
                }
                assert(ends@ =~= self.child_ends());
                Action::Close(ends)
            },
            Phase::PollingGreeting | Phase::PollingStatus => {
                let (reads, _) = Self::ends_of(&self.ctrl_read_fd);
                match poll_timeout(self.timeout) {
                    Ok(patience) => Action::Poll(reads, patience),
                    Err(_) => Action::Poll(reads, 0),
                }
            },
            Phase::ReadingGreeting | Phase::ReadingStatus => {
                let (reads, _) = Self::ends_of(&self.ctrl_read_fd);
                Action::Read(reads)
            },
            Phase::Greeting => {
                let (_, writes) = Self::ends_of(&self.ctrl_write_fd);
                let tag = CtrlCmd::Helo.bytes();
                Action::Send(writes, Self::bytes_of(tag.as_slice()))
            },
            Phase::Seeking => Action::Seek(self.region_fd()),
            Phase::Copying => Action::Copy(self.size),
            Phase::SendingTag => {
                let (_, writes) = Self::ends_of(&self.ctrl_write_fd);
                let tag = CtrlCmd::Exec.bytes();
                Action::Send(writes, Self::bytes_of(tag.as_slice()))
            },
            Phase::SendingLength => {
                let (_, writes) = Self::ends_of(&self.ctrl_write_fd);
                let frame = length_frame(self.size as u64);
                Action::Send(writes, Self::bytes_of(frame.as_slice()))
            },
            Phase::Pausing(_) => Action::Pause(REAP_PAUSE),
        }
    }
}

/// A child that greets is greeted. Where every system call succeeds, the
/// harness makes the shared memory region and the two pipes, starts the
/// child, closes the ends of the pipes that belong to the child, waits for
/// the greeting and sends it back; then the connection holds everything and
/// waits for a program.
pub proof fn lemma_handshake(
    c: ReplConnection,
    fd: i32,
    sized: i32,
    reading: Pipefd,
    writing: Pipefd,
    polled: i32,
    sent: i32,
)
    requires
        c.wf(),
        c.phase is Idle || c.phase is Returned,
        c.timeout is Some,
        fd != -1 && sized != -1 && sent != -1,
        polled != -1 && polled != 0,
    ensures
        ({
            let c1 = c.next(Event::Start);
            let c2 = c1.next(Event::Done);
            let c3 = c2.next(Event::Returned(fd));
            let c4 = c3.next(Event::Returned(sized));
            let c5 = c4.next(Event::Mapped(true));
            let c6 = c5.next(Event::Piped(0, reading));
            let c7 = c6.next(Event::Piped(0, writing));
            let c8 = c7.next(Event::Spawned(true));
            let c9 = c8.next(Event::Done);
            let c10 = c9.next(Event::Returned(polled));
            let c11 = c10.next(Event::Read(4, HELO_TAG));
            let c12 = c11.next(Event::Returned(sent));
            &&& c1.pending() == ActionView::Release(c.held())
            &&& c2.pending() == ActionView::CreateRegion
            &&& c3.pending() == ActionView::Resize(fd, MAX_SIZE)
            &&& c4.pending() == ActionView::MapRegion(fd, MAX_SIZE)
            &&& c5.pending() == ActionView::OpenPipe
            &&& c6.pending() == ActionView::OpenPipe
            &&& c7.pending() == ActionView::Spawn(
                seq![
                    Hook::Dup(fd, DRFD),
                    Hook::Dup(writing.readfd, CRFD),
                    Hook::Dup(reading.writefd, CWFD),
                    Hook::Close(writing.writefd),
                    Hook::Close(reading.readfd),
                ],
            )
            &&& c8.pending() == ActionView::Close(open_among(writing.readfd, reading.writefd))
            &&& c9.pending() == ActionView::Poll(reading.readfd, c.patience())
            &&& c10.pending() == ActionView::Read(reading.readfd)
            &&& c11.pending() == ActionView::Send(writing.writefd, helo_bytes())
            &&& c12.pending() == ActionView::Idle
            &&& c12.initialized()
            &&& c12.ctrl_read_fd == Some(Pipefd { writefd: CLOSED, ..reading })
            &&& c12.ctrl_write_fd == Some(Pipefd { readfd: CLOSED, ..writing })
        }),
{
}

/// A status that the child returns is the result of the run. Where the
/// connection holds everything, the child is running and every system call
/// succeeds, the harness rewinds the region, has the program copied to it,
/// sends the tag `exec` and the length, and waits; four bytes that are none
/// of the tags are then the status of the run, and the child stays.
pub proof fn lemma_status_is_returned(
    c: ReplConnection,
    len: usize,
    seeked: i32,
    sent: i32,
    polled: i32,
    status: i32,
)
    requires
        c.wf(),
        c.phase is Idle || c.phase is Returned,
        c.initialized(),
        c.timeout is Some,
        seeked != -1 && sent != -1,
        polled != -1 && polled != 0,
        status != HELO_TAG && status != EXEC_TAG && status != EXIT_TAG,
    ensures
        ({
            let c1 = c.next(Event::Run(len));
            let c2 = c1.next(Event::Child(ChildState::Running));
            let c3 = c2.next(Event::Returned(seeked));
            let c4 = c3.next(Event::Done);
            let c5 = c4.next(Event::Returned(sent));
            let c6 = c5.next(Event::Returned(sent));
            let c7 = c6.next(Event::Returned(polled));
            let c8 = c7.next(Event::Read(4, status));
            &&& c1.pending() == ActionView::AskChild
            &&& c2.pending() == ActionView::Seek(c.region())
            &&& c3.pending() == ActionView::Copy(spec_input_size(len))
            &&& c4.pending() == ActionView::Send(c.cwfd(), exec_bytes())
            &&& c5.pending() == ActionView::Send(
                c.cwfd(),
                spec_length_frame(spec_input_size(len) as u64),
            )
            &&& c6.pending() == ActionView::Poll(c.crfd(), c.patience())
            &&& c7.pending() == ActionView::Read(c.crfd())
            &&& c8.pending() == ActionView::Return(ReturnCode::Status(status))
            &&& c8.held() == c.held()
        }),
{
}

/// A child that does not answer has timed out: the harness releases
/// everything that the connection holds, and the run is reported as timed
/// out.
pub proof fn lemma_silence_is_a_timeout(c: ReplConnection)
    requires
        c.wf(),
        c.phase == Phase::PollingStatus,
    ensures
        c.next(Event::Returned(0)).pending() == ActionView::Release(c.held()),
        c.next(Event::Returned(0)).next(Event::Done).pending() == ActionView::Return(
            ReturnCode::Timeout,
        ),
        c.next(Event::Returned(0)).next(Event::Done).empty(),
{
}

/// A child that is ended by a signal during a run has crashed: where
/// the read of its answer gives other than four bytes, the harness asks for
/// the state of the child, releases everything that the connection holds,
/// and the run has the signal for its result.
pub proof fn lemma_signal_is_a_crash(c: ReplConnection, count: i32, word: i32, signal: i32)
    requires
        c.wf(),
        c.phase == Phase::ReadingStatus,
        count != 4,
    ensures
        ({
            let c1 = c.next(Event::Read(count, word));
            let c2 = c1.next(Event::Child(ChildState::Signaled(signal)));
            let c3 = c2.next(Event::Done);
            &&& c1.pending() == ActionView::AskChild
            &&& c2.pending() == ActionView::Release(c.held())
            &&& c3.pending() == ActionView::Return(ReturnCode::Crash(signal))
            &&& c3.empty()
        }),
{
}

/// A tag where a status is expected violates the protocol: the harness
/// releases everything that the connection holds. The first time in a run
/// it then starts a new child for a second attempt; the second time, the
/// worker cannot go on.
pub proof fn lemma_tag_is_retried_once(c: ReplConnection, word: i32)
    requires
        c.wf(),
        c.phase == Phase::ReadingStatus,
        c.running,
        word == HELO_TAG || word == EXEC_TAG || word == EXIT_TAG,
    ensures
        ({
            let c1 = c.next(Event::Read(4, word));
            let c2 = c1.next(Event::Done);
            let c3 = c2.next(Event::Done);
            let c4 = c3.next(Event::Done);
            &&& c1.pending() == ActionView::Release(c.held())
            &&& c2.empty()
            &&& if c.retried {
                c2.pending() == ActionView::Fatal(ReplError::InvalidMessage)
            } else {
                &&& c2.retried
                &&& c2.pending() == ActionView::Release(Seq::<Release>::empty())
                &&& c3.pending() == ActionView::Release(Seq::<Release>::empty())
                &&& c4.pending() == ActionView::CreateRegion
                &&& c4.running
            }
        }),
{
    let c2 = c.next(Event::Read(4, word)).next(Event::Done);
    assert(c2.held() =~= Seq::<Release>::empty());
}

/// The state of a child that has probably ended is asked for eleven
/// times at most, with a pause before each time but the first.
pub proof fn lemma_reaping_ends(c: ReplConnection, n: u8)
    requires
        c.wf(),
        c.phase == Phase::Reaping(n),
    ensures
        ({
            let c1 = c.next(Event::Child(ChildState::Running));
            if n < REAP_ATTEMPTS {
                &&& c1.pending() == ActionView::Pause(REAP_PAUSE)
                &&& c1.next(Event::Done).phase == Phase::Reaping((n + 1) as u8)
            } else {
                c1.pending() == ActionView::Release(c.held())
            }
        }),
{
}

} // verus!
