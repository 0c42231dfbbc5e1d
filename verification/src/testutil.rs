//! Stand-ins for hardware and messages, for trying the kernel out on a host.

use vstd::prelude::*;
use crate::time::Milliseconds;
use crate::timer::{Alarm, HalTimer};

verus! {

/// A message that carries nothing but a number to tell it by.
#[derive(Clone, Copy, Debug, PartialEq, Eq, Structural)]
pub struct TestMessage(pub u32);

/// One thing that was asked of an alarm.
#[derive(Clone, Copy, Debug, PartialEq, Eq, Structural)]
pub enum Asked {
    /// To start a countdown of this duration.
    Start(Milliseconds),
    /// To acknowledge its interrupt.
    Acknowledge,
}

/// What has been asked of an alarm by `log`, in order.
pub open spec fn alarm_of(log: Seq<Asked>) -> Alarm
    decreases log.len(),
{
    if log.len() == 0 {
        Alarm::untouched()
    } else {
        match log.last() {
            Asked::Start(duration) => alarm_of(log.drop_last()).started(duration),
            Asked::Acknowledge => alarm_of(log.drop_last()).acknowledge(),
        }
    }
}

/// An alarm that only keeps a log of what was asked of it.
pub struct TestTimer {
    log: Vec<Asked>,
}

/// What a log of an alarm comes to.
pub struct Tally {
    /// The countdown that the alarm was last started with.
    pub duration: Option<Milliseconds>,
    /// How often the alarm was started.
    pub starts: usize,
    /// How often its interrupt was acknowledged.
    pub clears: usize,
}

impl TestTimer {
    /// Everything that was asked of the alarm, in order.
    pub closed spec fn asked(&self) -> Seq<Asked> {
        self.log@
    }

    /// What the log says of the alarm is what the alarm is.
    pub proof fn lemma_alarm(&self)
        ensures
            self.alarm() == alarm_of(self.asked()),
    {
    }

    /// An alarm of which nothing was asked yet.
    pub fn new() -> (timer: TestTimer)
        ensures
            timer.asked() == Seq::<Asked>::empty(),
            timer.alarm() == Alarm::untouched(),
    {
        TestTimer { log: Vec::new() }
    }

    /// Everything that was asked of the alarm, in order.
    pub fn log(&self) -> (log: &Vec<Asked>)
        ensures
            log@ == self.asked(),
    {
        &self.log
    }

    /// What the log comes to.
    pub fn tally(&self) -> (tally: Tally)
        ensures
            tally.duration == self.alarm().armed,
            tally.starts == self.alarm().starts,
            tally.clears == self.alarm().acknowledged,
    {
        let mut tally = Tally { duration: None, starts: 0, clears: 0 };
        let mut i: usize = 0;
        while i < self.log.len()
            invariant
                i <= self.log.len(),
                tally.duration == alarm_of(self.log@.take(i as int)).armed,
                tally.starts == alarm_of(self.log@.take(i as int)).starts,
                tally.clears == alarm_of(self.log@.take(i as int)).acknowledged,
                tally.starts + tally.clears == i,
            decreases self.log.len() - i,
        {
            proof {
                assert(self.log@.take(i + 1).drop_last() =~= self.log@.take(i as int));
            }
            match self.log[i] {
                Asked::Start(duration) => {
                    tally.duration = Some(duration);
                    tally.starts = tally.starts + 1;
                },
                Asked::Acknowledge => {
                    tally.clears = tally.clears + 1;
                },
            }
            i += 1;
        }
        proof {
            assert(self.log@.take(i as int) =~= self.log@);
        }
        tally
    }

    /// The countdown that the alarm was last started with.
    pub fn duration(&self) -> (duration: Option<Milliseconds>)
        ensures
            duration == self.alarm().armed,
    {
        self.tally().duration
    }

    /// How often the alarm was started.
    pub fn starts(&self) -> (starts: usize)
        ensures
            starts == self.alarm().starts,
    {
        self.tally().starts
    }

    /// How often its interrupt was acknowledged.
    pub fn clears(&self) -> (clears: usize)
        ensures
            clears == self.alarm().acknowledged,
    {
        self.tally().clears
    }
}

impl HalTimer for TestTimer {
    closed spec fn alarm(&self) -> Alarm {
        alarm_of(self.log@)
    }

    fn start(&mut self, duration: Milliseconds)
        ensures
            final(self).asked() == old(self).asked().push(Asked::Start(duration)),
    {
        self.log.push(Asked::Start(duration));
        proof {
            assert(self.log@.drop_last() =~= old(self).log@);
        }
    }

    fn clear_update_interrupt_flag(&mut self)
        ensures
            final(self).asked() == old(self).asked().push(Asked::Acknowledge),
    {
        self.log.push(Asked::Acknowledge);
        proof {
            assert(self.log@.drop_last() =~= old(self).log@);
        }
    }
}

} // verus!
