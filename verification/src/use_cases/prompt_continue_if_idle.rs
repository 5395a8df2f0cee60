//! "Ready to continue?" for a day left idle between intervals.
use vstd::prelude::*;

use crate::decisions::IdlePromptDecision;
use crate::hour_interval::HourInterval;
use crate::text::owned;
use crate::use_cases::config::IdlePromptConfig;
use crate::use_cases::errors::{NotifierError, RepoError};
use crate::value_objects::UtcTimestamp;
use crate::work_day::{WorkDay, WorkDayView};

verus! {

/// Why an idle tick failed.
#[derive(Debug, Clone, PartialEq, Eq)]
pub enum PromptContinueIfIdleError {
    Repo(RepoError),
    Notifier(NotifierError),
}

/// Text of the idle prompt.
pub open spec fn idle_message() -> Seq<char> {
    "Готовы продолжить работу?"@
}

/// The later of two instants, in milliseconds.
pub open spec fn later(a: int, b: int) -> int {
    if a >= b {
        a
    } else {
        b
    }
}

/// When the current idle stretch began: the latest of the start of the day,
/// the end of lunch and the end of any closed interval of the day.
pub open spec fn spec_idle_started_at(day: WorkDayView, intervals: Seq<HourInterval>) -> int
    decreases intervals.len(),
{
    if intervals.len() == 0 {
        match day.lunch_ended_at {
            Some(t) => later(day.started_at.spec_millis(), t.spec_millis()),
            None => day.started_at.spec_millis(),
        }
    } else {
        let prev = spec_idle_started_at(day, intervals.drop_last());
        match intervals.last()@.ended_at {
            Some(t) => later(prev, t.spec_millis()),
            None => prev,
        }
    }
}

/// The day is open and none of its intervals is still running.
pub open spec fn spec_is_idle_day(day: WorkDayView, intervals: Seq<HourInterval>) -> bool {
    &&& day.finished_at is None
    &&& forall|i: int| 0 <= i < intervals.len() ==> (#[trigger] intervals[i])@.ended_at is Some
}

/// Called on every tick for each open day without an active interval: if
/// the idle stretch (counted from the last prompt, or from its start when not
/// prompted yet) reached the threshold, asks again whether the user is ready
/// to continue. Starting an interval or finishing the day ends the prompts.
pub struct PromptContinueIfIdle {
    idle_config: IdlePromptConfig,
}

impl PromptContinueIfIdle {
    pub fn new(idle_config: IdlePromptConfig) -> (u: Self)
        ensures
            u.config() == idle_config,
    {
        PromptContinueIfIdle { idle_config }
    }

    pub closed spec fn config(self) -> IdlePromptConfig {
        self.idle_config
    }

    /// The start of the current idle stretch of a day.
    pub fn idle_started_at(&self, work_day: &WorkDay, intervals: &Vec<HourInterval>) -> (t: UtcTimestamp)
        ensures
            t.spec_millis() == spec_idle_started_at(work_day@, intervals@),
    {
        let mut reference = work_day.started_at();
        match work_day.lunch_ended_at() {
            Some(lunch_ended_at) => {
                reference = reference.latest(&lunch_ended_at);
            },
            None => {},
        }
        let mut i: usize = 0;
        proof {
            assert(intervals@.take(0) =~= Seq::<HourInterval>::empty());
        }
        while i < intervals.len()
            invariant
                i <= intervals@.len(),
                reference.spec_millis() == spec_idle_started_at(work_day@, intervals@.take(i as int)),
            decreases intervals@.len() - i,
        {
            proof {
                assert(intervals@.take(i as int + 1).drop_last() =~= intervals@.take(i as int));
            }
            match intervals[i].ended_at() {
                Some(ended_at) => {
                    reference = reference.latest(&ended_at);
                },
                None => {},
            }
            i = i + 1;
        }
        proof {
            assert(intervals@.take(i as int) =~= intervals@);
        }
        reference
    }

    /// Whether the day is one to prompt: open, with no running interval.
    pub fn is_idle_day(&self, work_day: &WorkDay, intervals: &Vec<HourInterval>) -> (b: bool)
        ensures
            b == spec_is_idle_day(work_day@, intervals@),
    {
        if work_day.finished_at().is_some() {
            return false;
        }
        let mut i: usize = 0;
        while i < intervals.len()
            invariant
                i <= intervals@.len(),
                forall|k: int| 0 <= k < i ==> (#[trigger] intervals@[k])@.ended_at is Some,
            decreases intervals@.len() - i,
        {
            if intervals[i].ended_at().is_none() {
                return false;
            }
            i = i + 1;
        }
        true
    }

    /// The prompt to send now for an idle day, if due; sending it makes `now`
    /// the moment of the last prompt.
    pub fn execute(
        &self,
        work_day: &WorkDay,
        last_idle_prompt_at: Option<UtcTimestamp>,
        intervals: &Vec<HourInterval>,
        now: UtcTimestamp,
    ) -> (r: Option<String>)
        ensures
            ({
                let reference = match last_idle_prompt_at {
                    Some(t) => t.spec_millis(),
                    None => spec_idle_started_at(work_day@, intervals@),
                };
                &&& now.spec_millis() - reference >= self.config().idle_threshold.spec_millis()
                    ==> (r matches Some(text) && text@ == idle_message())
                &&& now.spec_millis() - reference < self.config().idle_threshold.spec_millis()
                    ==> r is None
            }),
    {
        let idle_started_at = self.idle_started_at(work_day, intervals);
        let reference = match last_idle_prompt_at {
            Some(t) => t,
            None => idle_started_at,
        };
        let elapsed_since_last_prompt = now.duration_since(&reference);
        if !IdlePromptDecision::decide(elapsed_since_last_prompt, self.idle_config.idle_threshold) {
            return None;
        }
        Some(owned("Готовы продолжить работу?"))
    }
}

} // verus!
