use vstd::prelude::*;

verus! {

/// An instruction queued for the writer, which alone owns the send half.
#[derive(Clone, Debug, PartialEq, Eq)]
pub enum WriteInstruction {
    /// An encoded envelope, sent as a binary frame.
    Data(Vec<u8>),
    /// The answer to a transport ping, carrying the ping's payload.
    Pong(Vec<u8>),
    /// Send a close frame and stop.
    Close,
}

/// A frame handed to the transport.
#[derive(Clone, Debug, PartialEq, Eq)]
pub enum OutFrame {
    Binary(Vec<u8>),
    Pong(Vec<u8>),
    Close,
}

pub open spec fn frame_for(i: WriteInstruction) -> OutFrame {
    match i {
        WriteInstruction::Data(d) => OutFrame::Binary(d),
        WriteInstruction::Pong(p) => OutFrame::Pong(p),
        WriteInstruction::Close => OutFrame::Close,
    }
}

/// The frame to send for one instruction, and whether the writer stops after it.
pub fn writer_step(instruction: WriteInstruction) -> (r: (OutFrame, bool))
    ensures
        r.0 == frame_for(instruction),
        r.1 == instruction is Close,
{
    match instruction {
        WriteInstruction::Data(d) => (OutFrame::Binary(d), false),
        WriteInstruction::Pong(p) => (OutFrame::Pong(p), false),
        WriteInstruction::Close => (OutFrame::Close, true),
    }
}

/// The frames a writer sends for a queue, every write succeeding: one per
/// instruction in queue order, up to and including the first `Close`.
pub open spec fn delivered(queue: Seq<WriteInstruction>) -> Seq<OutFrame>
    decreases queue.len(),
{
    if queue.len() == 0 {
        seq![]
    } else if queue[0] is Close {
        seq![OutFrame::Close]
    } else {
        seq![frame_for(queue[0])] + delivered(queue.drop_first())
    }
}

/// Frames reach the transport in exactly the order they were queued.
pub proof fn lemma_writer_fifo(queue: Seq<WriteInstruction>)
    requires
        forall|i: int| 0 <= i < queue.len() - 1 ==> !(#[trigger] queue[i] is Close),
    ensures
        delivered(queue) == queue.map_values(|i: WriteInstruction| frame_for(i)),
    decreases queue.len(),
{
    if queue.len() > 0 {
        let rest = queue.drop_first();
        assert forall|i: int| 0 <= i < rest.len() - 1 implies !(#[trigger] rest[i] is Close) by {
            assert(rest[i] == queue[i + 1]);
        }
        lemma_writer_fifo(rest);
        assert(delivered(queue) =~= queue.map_values(|i: WriteInstruction| frame_for(i)));
    }
}

/// Nothing queued after a `Close` is sent.
pub proof fn lemma_nothing_after_close(before: Seq<WriteInstruction>, after: Seq<WriteInstruction>)
    ensures
        delivered(before + seq![WriteInstruction::Close] + after) == delivered(
            before + seq![WriteInstruction::Close],
        ),
    decreases before.len(),
{
    let q1 = before + seq![WriteInstruction::Close];
    let q2 = q1 + after;
    if before.len() == 0 {
        assert(q2[0] == WriteInstruction::Close);
        assert(q1[0] == WriteInstruction::Close);
    } else {
        lemma_nothing_after_close(before.drop_first(), after);
        assert(q1.drop_first() =~= before.drop_first() + seq![WriteInstruction::Close]);
        assert(q2.drop_first() =~= before.drop_first() + seq![WriteInstruction::Close] + after);
        assert(q2[0] == before[0]);
        assert(q1[0] == before[0]);
    }
}

} // verus!
