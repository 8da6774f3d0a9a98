//! Where the pipes of a link sit in the descriptor table.
//!
//! A link is two pipes. On each node the four ends occupy four consecutive
//! descriptors, placed by the side of the link alone, so a process finds the
//! pipes of its neighbour without exchanging a message.

use crate::decimal::{decimal_text, format_decimal};
use crate::side::Side;
use vstd::prelude::*;

verus! {

/// The largest descriptor base for which the blocks of all four sides fit.
pub const MAX_BASE: i32 = 2147483632;

/// One of the four pipe ends of a link, in the order in which they are opened
/// and in which they lie in the block.
#[derive(Clone, Copy, PartialEq, Eq, Debug, Structural)]
pub enum End {
    /// The reading end of the outbound pipe, held open so that the pipe lives.
    OutputRead,
    /// The writing end of the outbound pipe.
    OutputWrite,
    /// The reading end of the inbound pipe.
    InputRead,
    /// The writing end of the inbound pipe, held open so that the pipe lives.
    InputWrite,
}

impl End {
    /// The place of the end in its block, from 0 to 3.
    pub open spec fn spec_position(self) -> int {
        match self {
            End::OutputRead => 0,
            End::OutputWrite => 1,
            End::InputRead => 2,
            End::InputWrite => 3,
        }
    }

    /// Whether the end is written to.
    pub open spec fn spec_writable(self) -> bool {
        self == End::OutputWrite || self == End::InputWrite
    }

    /// The end of the neighbour that is the same end of the same pipe: what one
    /// node sends on, the other receives on.
    pub open spec fn spec_mirrored(self) -> End {
        match self {
            End::OutputRead => End::InputRead,
            End::OutputWrite => End::InputWrite,
            End::InputRead => End::OutputRead,
            End::InputWrite => End::OutputWrite,
        }
    }

    /// The four ends in the order in which they are opened, which is the order
    /// in which the system hands out their descriptors.
    pub fn in_order() -> (ends: [End; 4])
        ensures
            forall|k: int| 0 <= k < 4 ==> (#[trigger] ends[k]).spec_position() == k,
    {
        [End::OutputRead, End::OutputWrite, End::InputRead, End::InputWrite]
    }

    /// The place of the end in its block.
    pub fn position(self) -> (p: i32)
        ensures
            p == self.spec_position(),
    {
        match self {
            End::OutputRead => 0,
            End::OutputWrite => 1,
            End::InputRead => 2,
            End::InputWrite => 3,
        }
    }

    /// Whether the end is opened for writing; the others are opened for
    /// reading.
    pub fn writable(self) -> (w: bool)
        ensures
            w == self.spec_writable(),
    {
        match self {
            End::OutputRead => false,
            End::OutputWrite => true,
            End::InputRead => false,
            End::InputWrite => true,
        }
    }

    /// The neighbour's name for the same pipe end.
    pub fn mirrored(self) -> (other: End)
        ensures
            other == self.spec_mirrored(),
    {
        match self {
            End::OutputRead => End::InputRead,
            End::OutputWrite => End::InputWrite,
            End::InputRead => End::OutputRead,
            End::InputWrite => End::OutputWrite,
        }
    }
}

/// The first descriptor of the block of a side, in a process whose blocks
/// start at `fd_offset`.
pub open spec fn block_base(side: Side, fd_offset: int) -> int {
    side.spec_index() * 4 + fd_offset
}

/// A descriptor of another process.
#[derive(Clone, Copy, PartialEq, Eq, Debug, Structural)]
pub struct Remote {
    /// The process that holds the descriptor.
    pub pid: i32,
    /// The number of the descriptor in that process.
    pub fd: i32,
    /// Whether it is to be opened for writing, else for reading.
    pub writable: bool,
}

/// The place of one link: its side, its block of descriptors, and the
/// neighbour it attaches to, if it does not make its own pipes.
#[derive(Clone, Copy, Debug)]
pub struct Link {
    side: Side,
    base: i32,
    neighbour: Option<(i32, i32)>,
}

impl Link {
    #[verifier::type_invariant]
    spec fn fits(self) -> bool {
        &&& self.base <= i32::MAX - 3
        &&& match self.neighbour {
            Some((_, base)) => base <= i32::MAX - 3,
            None => true,
        }
    }

    /// The side of the link.
    pub closed spec fn spec_side(self) -> Side {
        self.side
    }

    /// The first descriptor of the link's own block.
    pub closed spec fn spec_base(self) -> int {
        self.base as int
    }

    /// The neighbour to attach to, if any: its process, and the first
    /// descriptor of its block for this link.
    pub closed spec fn spec_neighbour(self) -> Option<(i32, int)> {
        match self.neighbour {
            Some((pid, base)) => Some((pid, base as int)),
            None => None,
        }
    }

    /// The descriptor that an end of this link must have in this process.
    pub open spec fn spec_descriptor(self, end: End) -> int {
        self.spec_base() + end.spec_position()
    }

    /// Where an end of this link comes from: the descriptor of the neighbour
    /// that is the same pipe end, or nothing if this node makes the pipes.
    pub open spec fn spec_source(self, end: End) -> Option<Remote> {
        match self.spec_neighbour() {
            Some((pid, base)) => Some(
                Remote {
                    pid,
                    fd: (base + end.spec_mirrored().spec_position()) as i32,
                    writable: end.spec_writable(),
                },
            ),
            None => None,
        }
    }

    /// Whether four descriptors, in the order of the ends, are the block of
    /// this link.
    pub open spec fn spec_matches(self, opened: [i32; 4]) -> bool {
        forall|k: int| 0 <= k < 4 ==> #[trigger] opened[k] == self.spec_base() + k
    }

    /// Places the link of `side`. With a neighbour's process id the link
    /// attaches to the block that the neighbour keeps for its opposite side;
    /// without one the node makes two fresh pipes. Both blocks are counted
    /// from `fd_offset`.
    pub fn new(side: Side, pid: Option<i32>, fd_offset: i32) -> (link: Link)
        requires
            block_base(side, fd_offset as int) + 3 <= i32::MAX,
            pid is Some ==> block_base(side.spec_opposite(), fd_offset as int) + 3 <= i32::MAX,
        ensures
            link.spec_side() == side,
            link.spec_base() == block_base(side, fd_offset as int),
            link.spec_neighbour() == match pid {
                Some(p) => Some((p, block_base(side.spec_opposite(), fd_offset as int))),
                None => None,
            },
    {
        let base: i32 = side.index() as i32 * 4 + fd_offset;
        let neighbour: Option<(i32, i32)> = match pid {
            Some(p) => Some((p, side.opposite().index() as i32 * 4 + fd_offset)),
            None => None,
        };
        Link { side, base, neighbour }
    }

    /// The side of the link.
    pub fn side(&self) -> (side: Side)
        ensures
            side == self.spec_side(),
    {
        self.side
    }

    /// Whether the link attaches to a neighbour's pipes instead of making its
    /// own.
    pub fn attaches(&self) -> (yes: bool)
        ensures
            yes == (self.spec_neighbour() is Some),
    {
        self.neighbour.is_some()
    }

    /// The descriptor that the given end must have once the link is set up.
    pub fn descriptor(&self, end: End) -> (fd: i32)
        ensures
            fd == self.spec_descriptor(end),
    {
        proof {
            use_type_invariant(self);
        }
        self.base + end.position()
    }

    /// The descriptor of the inbound pipe that is watched for readiness.
    pub fn input_fd(&self) -> (fd: i32)
        ensures
            fd == self.spec_descriptor(End::InputRead),
    {
        self.descriptor(End::InputRead)
    }

    /// The neighbour's descriptor to open for the given end, if the link
    /// attaches.
    pub fn source(&self, end: End) -> (remote: Option<Remote>)
        ensures
            remote == self.spec_source(end),
    {
        proof {
            use_type_invariant(self);
        }
        match self.neighbour {
            Some((pid, base)) => Some(
                Remote { pid, fd: base + end.mirrored().position(), writable: end.writable() },
            ),
            None => None,
        }
    }

    /// Whether the descriptors that were opened for the four ends, in their
    /// order, are exactly the block of this link.
    pub fn matches(&self, opened: [i32; 4]) -> (same: bool)
        ensures
            same == self.spec_matches(opened),
    {
        proof {
            use_type_invariant(self);
        }
        opened[0] == self.base && opened[1] == self.base + 1 && opened[2] == self.base + 2
            && opened[3] == self.base + 3
    }

    /// Two nodes that count from the same base and hold one link on opposite
    /// sides name the same pipes: each end that the attaching node opens is the
    /// descriptor that the other node holds for the mirrored end, so what one
    /// writes the other reads.
    pub proof fn attached_link_mirrors(maker: Link, joiner: Link, pid: i32, fd_offset: int)
        requires
            maker.spec_base() == block_base(maker.spec_side(), fd_offset),
            joiner.spec_side() == maker.spec_side().spec_opposite(),
            joiner.spec_neighbour() == Some(
                (pid, block_base(joiner.spec_side().spec_opposite(), fd_offset)),
            ),
            maker.spec_base() + 3 <= i32::MAX,
        ensures
            forall|end: End| #[trigger]
                joiner.spec_source(end) == Some(
                    Remote {
                        pid,
                        fd: maker.spec_descriptor(end.spec_mirrored()) as i32,
                        writable: end.spec_writable(),
                    },
                ),
            forall|end: End|
                i32::MIN <= #[trigger] maker.spec_descriptor(end.spec_mirrored()) <= i32::MAX,
            forall|end: End| #[trigger] end.spec_mirrored().spec_mirrored() == end,
            forall|end: End| #[trigger] end.spec_mirrored().spec_writable() == end.spec_writable(),
    {
        Side::opposite_is_involution(maker.spec_side());
    }
}

/// The text `/proc/<pid>/fd/<fd>`.
pub open spec fn proc_path(pid: int, fd: int) -> Seq<u8> {
    seq![47u8, 112u8, 114u8, 111u8, 99u8, 47u8] + decimal_text(pid) + seq![47u8, 102u8, 100u8, 47u8]
        + decimal_text(fd)
}

/// The path under which the descriptor `fd` of the process `pid` can be
/// opened.
pub fn descriptor_path(pid: i32, fd: i32) -> (path: Vec<u8>)
    ensures
        path@ == proc_path(pid as int, fd as int),
{
    let mut path: Vec<u8> = vec![47u8, 112u8, 114u8, 111u8, 99u8, 47u8];
    let mut number: Vec<u8> = format_decimal(pid);
    path.append(&mut number);
    path.push(47u8);
    path.push(102u8);
    path.push(100u8);
    path.push(47u8);
    let mut number: Vec<u8> = format_decimal(fd);
    path.append(&mut number);
    path
}

} // verus!
