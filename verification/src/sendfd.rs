//! Passing file descriptors to another process: what is sent, and what is
//! done with what was received.

use vstd::prelude::*;
use vstd::string::StringExecFns;

verus! {

/// A file descriptor as the operating system numbers it.
pub type RawFileDescriptor = i32;

/// Why file descriptors cannot be passed over a channel.
#[derive(Clone, Copy, Debug, PartialEq, Eq, Structural)]
pub enum SendFdError {
    /// The channel speaks the protocol of libuv, which has its own way of
    /// passing descriptors.
    IncompatibleWithLibuv,
}

impl SendFdError {
    /// The text of the failure.
    pub fn message(&self) -> (text: String)
        ensures
            text@
                == "send_fd_vec() and recv_fd_vec() are incompatible with libuv compatibility."@,
    {
        String::from_str(
            "send_fd_vec() and recv_fd_vec() are incompatible with libuv compatibility.",
        )
    }
}

/// What the passing of file descriptors needs to know of a channel.
#[derive(Clone, Copy, Debug, PartialEq, Eq, Structural)]
pub struct NodeIpc {
    pub libuv_compat: bool,
}

impl NodeIpc {
    /// A channel that does not speak the protocol of libuv.
    pub fn new() -> (ipc: NodeIpc)
        ensures
            !ipc.libuv_compat,
    {
        NodeIpc { libuv_compat: false }
    }

    /// This channel, made to speak the protocol of libuv.
    pub fn with_libuv_compat(self) -> (ipc: NodeIpc)
        ensures
            ipc.libuv_compat,
    {
        NodeIpc { libuv_compat: true }
    }

    /// Whether file descriptors can be passed over this channel: they can
    /// unless it speaks the protocol of libuv.
    pub fn check_sendfd_compatibility(&self) -> (r: Result<(), SendFdError>)
        ensures
            r is Ok <==> !self.libuv_compat,
            r is Err ==> r == Err::<(), SendFdError>(SendFdError::IncompatibleWithLibuv),
    {
        if self.libuv_compat {
            Err(SendFdError::IncompatibleWithLibuv)
        } else {
            Ok(())
        }
    }
}

/// The message that carries file descriptors.
#[derive(Clone, Debug, PartialEq, Eq)]
pub struct SendFdPayload {
    /// Raw file descriptors.
    pub raw_fds: Vec<RawFileDescriptor>,
}

/// A file descriptor as it is written into a message: as a `u64`, a
/// negative one by its two's complement.
pub open spec fn fd_to_wire(fd: RawFileDescriptor) -> u64 {
    fd as u64
}

/// The file descriptor that a number of a message stands for: its low 32
/// bits.
pub open spec fn fd_from_wire(item: u64) -> RawFileDescriptor {
    item as RawFileDescriptor
}

/// A file descriptor that is not negative is written as its own number, a
/// negative one as that number plus 2^64; reading gives back what was
/// written.
pub proof fn lemma_fd_wire_round_trip(fd: RawFileDescriptor)
    ensures
        fd >= 0 ==> fd_to_wire(fd) == fd,
        fd < 0 ==> fd_to_wire(fd) == fd + 0x1_0000_0000_0000_0000,
        fd_from_wire(fd_to_wire(fd)) == fd,
{
    assert(fd >= 0 ==> fd as u64 == fd) by (bit_vector);
    assert(fd < 0 ==> (fd as u64) as int == (fd as int) + 0x1_0000_0000_0000_0000) by (bit_vector);
    assert((fd as u64) as i32 == fd) by (bit_vector);
}

/// The numbers that stand for `raw_fds` in a message, in the same order.
pub fn serialize(raw_fds: &Vec<RawFileDescriptor>) -> (seq: Vec<u64>)
    ensures
        seq@ == raw_fds@.map_values(|fd: RawFileDescriptor| fd_to_wire(fd)),
{
    let mut seq: Vec<u64> = Vec::new();
    let mut i: usize = 0;
    while i < raw_fds.len()
        invariant
            i <= raw_fds.len(),
            seq@ == raw_fds@.take(i as int).map_values(|fd: RawFileDescriptor| fd_to_wire(fd)),
        decreases raw_fds.len() - i,
    {
        let item: u64 = #[verifier::truncate]
        (raw_fds[i] as u64);
        seq.push(item);
        i += 1;
        assert(seq@ =~= raw_fds@.take(i as int).map_values(|fd: RawFileDescriptor| fd_to_wire(fd)));
    }
    assert(raw_fds@.take(i as int) =~= raw_fds@);
    seq
}

/// The file descriptors that the numbers of a message stand for, in the
/// same order.
pub fn deserialize(seq: Vec<u64>) -> (raw_fds: Vec<RawFileDescriptor>)
    ensures
        raw_fds@ == seq@.map_values(|item: u64| fd_from_wire(item)),
{
    let mut raw_fds: Vec<RawFileDescriptor> = Vec::new();
    let mut i: usize = 0;
    while i < seq.len()
        invariant
            i <= seq.len(),
            raw_fds@ == seq@.take(i as int).map_values(|item: u64| fd_from_wire(item)),
        decreases seq.len() - i,
    {
        let fd: RawFileDescriptor = #[verifier::truncate]
        (seq[i] as RawFileDescriptor);
        raw_fds.push(fd);
        i += 1;
        assert(raw_fds@ =~= seq@.take(i as int).map_values(|item: u64| fd_from_wire(item)));
    }
    assert(seq@.take(i as int) =~= seq@);
    raw_fds
}

/// The file descriptors of standard input, output and error, in that
/// order.
pub open spec fn stdio() -> Seq<RawFileDescriptor> {
    seq![0i32, 1i32, 2i32]
}

/// `libc::STDIN_FILENO`, `libc::STDOUT_FILENO` and `libc::STDERR_FILENO`.
/// Trusted: that these three constants are 0, 1 and 2.
#[verifier::external_body]
fn stdio_constants() -> (fds: [RawFileDescriptor; 3])
    ensures
        fds@ == stdio(),
{
    [libc::STDIN_FILENO, libc::STDOUT_FILENO, libc::STDERR_FILENO]
}

/// The file descriptors to send so that the other end can attach to this
/// process: standard input, output and error, and after them the descriptor
/// of the process's own channel, where it has one.
pub fn stdio_fds(singleton: Option<RawFileDescriptor>) -> (fds: Vec<RawFileDescriptor>)
    ensures
        fds@ == match singleton {
            Some(fd) => stdio().push(fd),
            None => stdio(),
        },
{
    let constants = stdio_constants();
    let mut fds: Vec<RawFileDescriptor> = Vec::with_capacity(4);
    fds.push(constants[0]);
    fds.push(constants[1]);
    fds.push(constants[2]);
    if let Some(fd) = singleton {
        fds.push(fd);
    }
    assert(fds@ =~= match singleton {
        Some(fd) => stdio().push(fd),
        None => stdio(),
    });
    fds
}

/// Whether the descriptor `received` is to take the place of the standard
/// descriptor `std_fd`: it is a descriptor above 0 and not `std_fd` itself.
pub open spec fn replaces(received: RawFileDescriptor, std_fd: RawFileDescriptor) -> bool {
    received > 0 && received != std_fd
}

/// The pairs of a received and a standard descriptor, among the first `n`
/// standard descriptors, in which the first is to take the place of the
/// second.
pub open spec fn replacements(raw_fds: Seq<RawFileDescriptor>, n: int) -> Seq<
    (RawFileDescriptor, RawFileDescriptor),
>
    decreases n,
{
    if n <= 0 {
        Seq::empty()
    } else if replaces(raw_fds[n - 1], stdio()[n - 1]) {
        replacements(raw_fds, n - 1).push((raw_fds[n - 1], stdio()[n - 1]))
    } else {
        replacements(raw_fds, n - 1)
    }
}

/// Number of standard descriptors for which a descriptor was received.
pub open spec fn paired(raw_fds: Seq<RawFileDescriptor>) -> int {
    if raw_fds.len() < stdio().len() {
        raw_fds.len() as int
    } else {
        stdio().len() as int
    }
}

/// What is to be done with the descriptors that were received for standard
/// input, output and error: each pair is a received descriptor and the
/// standard descriptor whose place it takes, in the order of the standard
/// descriptors.
pub fn stdio_replacements(raw_fds: &Vec<RawFileDescriptor>) -> (pairs: Vec<
    (RawFileDescriptor, RawFileDescriptor),
>)
    ensures
        pairs@ == replacements(raw_fds@, paired(raw_fds@)),
{
    let constants = stdio_constants();
    let mut pairs: Vec<(RawFileDescriptor, RawFileDescriptor)> = Vec::new();
    let mut i: usize = 0;
    while i < 3 && i < raw_fds.len()
        invariant
            i <= 3,
            i <= raw_fds.len(),
            constants@ == stdio(),
            pairs@ == replacements(raw_fds@, i as int),
        decreases 3 - i,
    {
        let received_fd = raw_fds[i];
        let std_fd = constants[i];
        if received_fd > 0 && received_fd != std_fd {
            pairs.push((received_fd, std_fd));
        }
        i += 1;
    }
    pairs
}

/// The descriptor that was received for the sender's own channel: the one
/// after those for standard input, output and error, if there is one.
pub fn received_singleton(raw_fds: &Vec<RawFileDescriptor>) -> (fd: Option<RawFileDescriptor>)
    ensures
        fd == if raw_fds@.len() > stdio().len() {
            Some(raw_fds@[stdio().len() as int])
        } else {
            None
        },
{
    let constants = stdio_constants();
    if constants.len() < raw_fds.len() {
        Some(raw_fds[constants.len()])
    } else {
        None
    }
}

} // verus!
