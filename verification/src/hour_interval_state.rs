use vstd::prelude::*;

use crate::hour_interval::MAX_SUCCESSFUL;
use crate::ten_min_check::CheckStatus;

verus! {

/// Number of `Worked` statuses in a sequence of closed work-slot statuses.
pub open spec fn count_worked(statuses: Seq<CheckStatus>) -> nat
    decreases statuses.len(),
{
    if statuses.len() == 0 {
        0
    } else {
        count_worked(statuses.drop_last()) + if statuses.last() == CheckStatus::Worked {
            1nat
        } else {
            0nat
        }
    }
}

/// The successful count as an interval records it: the number of worked
/// statuses, kept in a byte (so it wraps past 255).
pub open spec fn spec_successful_count(statuses: Seq<CheckStatus>) -> u8 {
    (count_worked(statuses) % 256) as u8
}

/// The work stage of an interval is closed exactly when the successful count
/// is five, however many failed or silent checks lie between.
pub open spec fn spec_work_stage_closed(statuses: Seq<CheckStatus>) -> bool {
    spec_successful_count(statuses) == MAX_SUCCESSFUL
}

/// Aggregates the closed work checks of one hour interval (never the rest
/// check): failures do not count and do not take one of the five slots.
pub struct HourIntervalState;

impl HourIntervalState {
    /// Number of worked checks among the closed work checks.
    pub fn successful_count(closed_work_slot_statuses: &[CheckStatus]) -> (c: u8)
        ensures
            c == spec_successful_count(closed_work_slot_statuses@),
    {
        let mut count: usize = 0;
        let mut i: usize = 0;
        while i < closed_work_slot_statuses.len()
            invariant
                i <= closed_work_slot_statuses@.len(),
                count == count_worked(closed_work_slot_statuses@.take(i as int)),
                count <= i,
            decreases closed_work_slot_statuses@.len() - i,
        {
            proof {
                assert(closed_work_slot_statuses@.take(i as int + 1).drop_last()
                    =~= closed_work_slot_statuses@.take(i as int));
            }
            if closed_work_slot_statuses[i] == CheckStatus::Worked {
                count = count + 1;
            }
            i = i + 1;
        }
        proof {
            assert(closed_work_slot_statuses@.take(i as int) =~= closed_work_slot_statuses@);
        }
        (count % 256) as u8
    }

    /// The work stage is closed exactly when the successful count reaches five.
    pub fn is_work_stage_closed(closed_work_slot_statuses: &[CheckStatus]) -> (b: bool)
        ensures
            b == spec_work_stage_closed(closed_work_slot_statuses@),
    {
        Self::successful_count(closed_work_slot_statuses) == MAX_SUCCESSFUL
    }

    /// Rest is owed exactly when the work stage closed naturally (five of five).
    pub fn is_rest_owed(closed_work_slot_statuses: &[CheckStatus]) -> (b: bool)
        ensures
            b == spec_work_stage_closed(closed_work_slot_statuses@),
    {
        Self::is_work_stage_closed(closed_work_slot_statuses)
    }

    /// The check about to be created is the rest slot exactly when the closed
    /// work checks before it already hold five worked ones.
    pub fn is_next_slot_rest(closed_work_slot_statuses: &[CheckStatus]) -> (b: bool)
        ensures
            b == spec_work_stage_closed(closed_work_slot_statuses@),
    {
        Self::is_work_stage_closed(closed_work_slot_statuses)
    }
}

/// A failed or silent check adds no progress: appending it leaves the worked
/// count as it was.
pub proof fn lemma_failure_keeps_progress(statuses: Seq<CheckStatus>, status: CheckStatus)
    requires
        status != CheckStatus::Worked,
    ensures
        count_worked(statuses.push(status)) == count_worked(statuses),
{
    assert(statuses.push(status).drop_last() =~= statuses);
}

/// A worked check adds exactly one to the worked count.
pub proof fn lemma_worked_adds_one(statuses: Seq<CheckStatus>)
    ensures
        count_worked(statuses.push(CheckStatus::Worked)) == count_worked(statuses) + 1,
{
    assert(statuses.push(CheckStatus::Worked).drop_last() =~= statuses);
}

/// The worked count never exceeds the number of checks.
pub proof fn lemma_count_worked_bounded(statuses: Seq<CheckStatus>)
    ensures
        count_worked(statuses) <= statuses.len(),
    decreases statuses.len(),
{
    if statuses.len() > 0 {
        lemma_count_worked_bounded(statuses.drop_last());
    }
}

/// For fewer than 256 checks the work stage is closed exactly when five of
/// them were worked, however many failures lie between.
pub proof fn lemma_closed_iff_five_worked(statuses: Seq<CheckStatus>)
    requires
        statuses.len() < 256,
    ensures
        spec_work_stage_closed(statuses) <==> count_worked(statuses) == 5,
{
    lemma_count_worked_bounded(statuses);
}

} // verus!
