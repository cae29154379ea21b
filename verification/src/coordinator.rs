use vstd::prelude::*;
use crate::update::Update;

verus! {

/// Where the coordinator stands within one iteration of its loop.
#[derive(Clone, Copy, Debug, PartialEq, Eq, Structural)]
pub enum Phase {
    /// The batch is being filled from the hand-off channel.
    Accumulating,
    /// The batch is complete and waits for a permit.
    PermitWait,
    /// The channel is exhausted: the loop has ended.
    Stopped,
}

/// What the caller has to do next on the coordinator's behalf.
#[derive(Clone, Copy, Debug, PartialEq, Eq, Structural)]
pub enum Directive {
    /// Report healthy, then race a receive of up to `limit` updates against
    /// a timer of `TICK_SECONDS`.
    Receive { limit: usize },
    /// Acquire one permit, however long it takes. `forced` says that the
    /// batch is under-full and was closed by the time limit.
    AcquirePermit { forced: bool },
    /// Leave the loop.
    Exit,
}

/// The seconds after which the timer ends a receive that has yielded
/// nothing, so that the age of the batch is looked at.
pub const TICK_SECONDS: u64 = 1;

/// Whether `elapsed_nanos` nanoseconds are more than `max_issue_period` seconds.
pub open spec fn issue_period_exceeded(elapsed_nanos: u128, max_issue_period: u64) -> bool {
    elapsed_nanos as int > max_issue_period as int * 1_000_000_000
}

/// The phase in which an iteration starts: a target of zero is met by the
/// empty batch.
pub open spec fn initial_phase(batch_size: usize) -> Phase {
    if batch_size == 0 {
        Phase::PermitWait
    } else {
        Phase::Accumulating
    }
}

/// The decisions of the batch coordinator: it is told what came from the
/// channel and when the timer fired, and says what to do next.
pub struct Coordinator {
    pub batch_size: usize,
    pub max_issue_period: u64,
    pub batch: Vec<Update>,
    pub phase: Phase,
    pub forced: bool,
}

impl Coordinator {
    /// The batch never outgrows its target; it is under-full while it is
    /// filled, and a batch that waits for a permit is under-full exactly if
    /// the time limit closed it.
    pub open spec fn wf(&self) -> bool {
        &&& self.batch@.len() <= self.batch_size
        &&& self.phase == Phase::Accumulating ==> self.batch@.len() < self.batch_size
        &&& self.phase == Phase::PermitWait ==> (self.forced <==> self.batch@.len()
            < self.batch_size)
        &&& self.phase != Phase::PermitWait ==> !self.forced
    }

    /// How many updates the batch still takes.
    pub open spec fn spec_remaining(&self) -> int {
        self.batch_size - self.batch@.len()
    }

    /// What the coordinator waits for in its present phase.
    pub open spec fn spec_directive(&self) -> Directive {
        match self.phase {
            Phase::Accumulating => Directive::Receive {
                limit: (self.batch_size - self.batch@.len()) as usize,
            },
            Phase::PermitWait => Directive::AcquirePermit { forced: self.forced },
            Phase::Stopped => Directive::Exit,
        }
    }

    /// A coordinator at the start of its first iteration, with an empty batch.
    pub fn new(batch_size: usize, max_issue_period: u64) -> (c: Coordinator)
        ensures
            c.wf(),
            c.batch_size == batch_size,
            c.max_issue_period == max_issue_period,
            c.batch@ == Seq::<Update>::empty(),
            c.phase == initial_phase(batch_size),
            !c.forced,
    {
        let phase = if batch_size == 0 {
            Phase::PermitWait
        } else {
            Phase::Accumulating
        };
        Coordinator {
            batch_size,
            max_issue_period,
            batch: Vec::with_capacity(batch_size),
            phase,
            forced: false,
        }
    }

    pub fn remaining(&self) -> (n: usize)
        requires
            self.wf(),
        ensures
            n == self.spec_remaining(),
    {
        self.batch_size - self.batch.len()
    }

    pub fn directive(&self) -> (d: Directive)
        requires
            self.wf(),
        ensures
            d == self.spec_directive(),
    {
        match self.phase {
            Phase::Accumulating => Directive::Receive { limit: self.batch_size - self.batch.len() },
            Phase::PermitWait => Directive::AcquirePermit { forced: self.forced },
            Phase::Stopped => Directive::Exit,
        }
    }

    /// The receive won the race and yielded `items`, at most as many as were
    /// asked for. None at all means that the channel is exhausted, which ends
    /// the loop; otherwise they join the batch in order, and the batch goes
    /// on to wait for a permit exactly when it has reached its target.
    pub fn on_received(&mut self, items: Vec<Update>) -> (d: Directive)
        requires
            old(self).wf(),
            old(self).phase == Phase::Accumulating,
            items@.len() <= old(self).spec_remaining(),
        ensures
            final(self).wf(),
            final(self).batch_size == old(self).batch_size,
            final(self).max_issue_period == old(self).max_issue_period,
            !final(self).forced,
            d == final(self).spec_directive(),
            items@.len() == 0 ==> final(self).phase == Phase::Stopped && final(self).batch@ == old(
                self,
            ).batch@,
            items@.len() > 0 ==> final(self).batch@ == old(self).batch@ + items@,
            items@.len() > 0 ==> (final(self).phase == if items@.len() == old(
                self,
            ).spec_remaining() {
                Phase::PermitWait
            } else {
                Phase::Accumulating
            }),
    {
        let mut items = items;
        if items.len() == 0 {
            self.phase = Phase::Stopped;
            return Directive::Exit;
        }
        self.batch.append(&mut items);
        if self.batch.len() >= self.batch_size {
            self.phase = Phase::PermitWait;
            Directive::AcquirePermit { forced: false }
        } else {
            Directive::Receive { limit: self.batch_size - self.batch.len() }
        }
    }

    /// The timer won the race, `elapsed_nanos` nanoseconds after the batch
    /// was started. Nothing is discarded: past the issue period the batch is
    /// closed under-full, before it the coordinator goes on receiving.
    pub fn on_tick(&mut self, elapsed_nanos: u128) -> (d: Directive)
        requires
            old(self).wf(),
            old(self).phase == Phase::Accumulating,
        ensures
            final(self).wf(),
            final(self).batch_size == old(self).batch_size,
            final(self).max_issue_period == old(self).max_issue_period,
            final(self).batch@ == old(self).batch@,
            final(self).forced == issue_period_exceeded(elapsed_nanos, old(self).max_issue_period),
            final(self).phase == if final(self).forced {
                Phase::PermitWait
            } else {
                Phase::Accumulating
            },
            d == final(self).spec_directive(),
    {
        let limit: u128 = (self.max_issue_period as u128) * 1_000_000_000u128;
        if elapsed_nanos > limit {
            self.phase = Phase::PermitWait;
            self.forced = true;
            Directive::AcquirePermit { forced: true }
        } else {
            Directive::Receive { limit: self.batch_size - self.batch.len() }
        }
    }

    /// A permit was acquired: the batch is handed out whole for issuance and
    /// the next iteration starts at once, with an empty batch. A batch closed
    /// by the time limit is under-full, any other has exactly the target size.
    pub fn on_permit(&mut self) -> (batch: Vec<Update>)
        requires
            old(self).wf(),
            old(self).phase == Phase::PermitWait,
        ensures
            batch@ == old(self).batch@,
            old(self).forced ==> batch@.len() < old(self).batch_size,
            !old(self).forced ==> batch@.len() == old(self).batch_size,
            final(self).wf(),
            final(self).batch_size == old(self).batch_size,
            final(self).max_issue_period == old(self).max_issue_period,
            final(self).batch@ == Seq::<Update>::empty(),
            final(self).phase == initial_phase(old(self).batch_size),
            !final(self).forced,
    {
        let mut batch: Vec<Update> = Vec::with_capacity(self.batch_size);
        std::mem::swap(&mut self.batch, &mut batch);
        self.forced = false;
        self.phase = if self.batch_size == 0 {
            Phase::PermitWait
        } else {
            Phase::Accumulating
        };
        batch
    }
}

/// Batch sizing. A batch that waits for its permit has exactly the target
/// size, unless the time limit closed it: then, and only then, it is smaller.
pub proof fn lemma_batch_sizing(c: Coordinator)
    requires
        c.wf(),
        c.phase == Phase::PermitWait,
    ensures
        !c.forced <==> c.batch@.len() == c.batch_size,
        c.forced <==> c.batch@.len() < c.batch_size,
        c.spec_directive() == (Directive::AcquirePermit { forced: c.forced }),
{
}

} // verus!
