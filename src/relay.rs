use vstd::prelude::*;

verus! {

/// Largest chunk a relay moves in one read.
pub const BUF_SZ: usize = 65536;

/// What one read from the source side of a relay direction gave.
#[derive(Debug, Clone, Copy, PartialEq, Eq, Structural)]
pub enum ReadOutcome {
    /// This many bytes, at least one, are ready to be written on.
    Data(usize),
    /// The peer half-closed this direction.
    Eof,
    /// The read failed.
    Failed,
}

/// What a relay direction does after a read.
#[derive(Debug, Clone, Copy, PartialEq, Eq, Structural)]
pub enum CopyAction {
    /// Write the bytes just read to the other side.
    Write(usize),
    /// Half-close the other side: every byte has been passed on.
    Shutdown,
    /// Stop this direction only.
    Abort,
}

/// One direction of a relay: how many bytes it passed on, and whether it ended.
#[derive(Debug, Clone, Copy, PartialEq, Eq, Structural)]
pub struct CopyProgress {
    pub copied: u64,
    pub finished: bool,
}

/// The bytes the peer sent in the reads `rs`.
pub open spec fn sent_total(rs: Seq<ReadOutcome>) -> nat
    decreases rs.len(),
{
    if rs.len() == 0 {
        0
    } else {
        sent_total(rs.drop_last()) + match rs.last() {
            ReadOutcome::Data(n) => n as nat,
            _ => 0,
        }
    }
}

/// A direction's progress after one read.
pub open spec fn copy_step_spec(p: CopyProgress, r: ReadOutcome) -> CopyProgress {
    match r {
        ReadOutcome::Data(n) => CopyProgress { copied: (p.copied + n) as u64, finished: false },
        _ => CopyProgress { copied: p.copied, finished: true },
    }
}

/// What a direction does after one read.
pub open spec fn copy_action_spec(r: ReadOutcome) -> CopyAction {
    match r {
        ReadOutcome::Data(n) => CopyAction::Write(n),
        ReadOutcome::Eof => CopyAction::Shutdown,
        ReadOutcome::Failed => CopyAction::Abort,
    }
}

/// A direction's progress after the reads `rs`, from the start.
pub open spec fn copy_run(rs: Seq<ReadOutcome>) -> CopyProgress
    decreases rs.len(),
{
    if rs.len() == 0 {
        CopyProgress { copied: 0, finished: false }
    } else {
        copy_step_spec(copy_run(rs.drop_last()), rs.last())
    }
}

/// Whether `rs` is a run of data reads, none over [`BUF_SZ`] bytes, in which
/// no more than `u64::MAX` bytes arrive.
pub open spec fn data_reads(rs: Seq<ReadOutcome>) -> bool {
    &&& forall|i: int| 0 <= i < rs.len() ==> (#[trigger] rs[i] matches ReadOutcome::Data(n) && 0 < n <= BUF_SZ)
    &&& sent_total(rs) <= u64::MAX
}

impl CopyProgress {
    /// A direction that has passed nothing on yet.
    pub fn new() -> (r: CopyProgress)
        ensures
            r == (CopyProgress { copied: 0, finished: false }),
    {
        CopyProgress { copied: 0, finished: false }
    }

    /// Records one read and says what to do with it: data is written on, an
    /// end of stream half-closes the other side, a failure stops this direction.
    pub fn step(&mut self, r: ReadOutcome) -> (a: CopyAction)
        requires
            !old(self).finished,
            r matches ReadOutcome::Data(n) ==> old(self).copied + n <= u64::MAX,
        ensures
            *final(self) == copy_step_spec(*old(self), r),
            a == copy_action_spec(r),
    {
        match r {
            ReadOutcome::Data(n) => {
                self.copied = self.copied + n as u64;
                CopyAction::Write(n)
            },
            ReadOutcome::Eof => {
                self.finished = true;
                CopyAction::Shutdown
            },
            ReadOutcome::Failed => {
                self.finished = true;
                CopyAction::Abort
            },
        }
    }
}

proof fn lemma_copy_run_data(rs: Seq<ReadOutcome>)
    requires
        data_reads(rs),
    ensures
        copy_run(rs).copied == sent_total(rs),
        !copy_run(rs).finished,
    decreases rs.len(),
{
    if rs.len() > 0 {
        let pre = rs.drop_last();
        assert forall|i: int| 0 <= i < pre.len() implies (#[trigger] pre[i] matches ReadOutcome::Data(n) && 0 < n <= BUF_SZ) by {
            assert(pre[i] == rs[i]);
        }
        assert(rs[rs.len() - 1] == rs.last());
        lemma_copy_run_data(pre);
    }
}

/// A relay direction that ends cleanly has passed on exactly the bytes the
/// peer sent before half-closing, and then half-closes the other side.
pub proof fn lemma_relay_conserves_bytes(rs: Seq<ReadOutcome>)
    requires
        data_reads(rs),
    ensures
        copy_run(rs.push(ReadOutcome::Eof)).copied == sent_total(rs),
        copy_run(rs.push(ReadOutcome::Eof)).finished,
        sent_total(rs.push(ReadOutcome::Eof)) == sent_total(rs),
        copy_action_spec(ReadOutcome::Eof) == CopyAction::Shutdown,
{
    lemma_copy_run_data(rs);
    assert(rs.push(ReadOutcome::Eof).drop_last() =~= rs);
}

} // verus!
