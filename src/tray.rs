use vstd::prelude::*;
use crate::disk::{
    evaluate, lemma_names_nonempty_iff_some_low, low_space_report, some_disk_low, string_views, DiskInfo, LowSpaceReport, Threshold,
};

verus! {

/// Tooltip shown before the first sampling completes.
pub const CHECKING_TOOLTIP: &'static str = "Disk Space Monitor: Checking...";

/// Tooltip shown while no volume is low.
pub const ALL_CLEAR_TOOLTIP: &'static str = "Disk Space Monitor: All clear";

/// Start of the tooltip that lists the low volumes.
pub const LOW_SPACE_PREFIX: &'static str = "Low Space Warning: ";

/// Text between two volume names in the tooltip.
pub const NAME_SEPARATOR: &'static str = ", ";

/// Wait before the next sampling while every volume is clear.
pub const MINUTES_IN_A_DAY: u64 = 1440;

/// Wait before the next sampling while some volume is low.
pub const CHECK_INTERVAL_DEFAULT_MINUTES: u64 = 15;

/// `parts` with `sep` between each two neighbours.
pub open spec fn joined(parts: Seq<Seq<char>>, sep: Seq<char>) -> Seq<char>
    decreases parts.len(),
{
    if parts.len() == 0 {
        Seq::empty()
    } else if parts.len() == 1 {
        parts[0]
    } else {
        joined(parts.drop_last(), sep) + sep + parts.last()
    }
}

/// The tooltip for a list of low volume names.
pub open spec fn tooltip_for(names: Seq<Seq<char>>) -> Seq<char> {
    if names.len() == 0 {
        ALL_CLEAR_TOOLTIP@
    } else {
        LOW_SPACE_PREFIX@ + joined(names, NAME_SEPARATOR@)
    }
}

/// Joins `names` with the tooltip's separator.
pub fn join_names(names: &[String]) -> (r: String)
    ensures
        r@ == joined(string_views(names@), NAME_SEPARATOR@),
{
    let mut out = String::new();
    let mut i: usize = 0;
    while i < names.len()
        invariant
            0 <= i <= names@.len(),
            out@ == joined(string_views(names@).take(i as int), NAME_SEPARATOR@),
        decreases names@.len() - i,
    {
        let ghost parts = string_views(names@);
        if i > 0 {
            out.append(NAME_SEPARATOR);
        }
        out.append(names[i].as_str());
        proof {
            let prefix = parts.take(i + 1);
            assert(prefix.drop_last() =~= parts.take(i as int));
            assert(prefix.last() == names@[i as int]@);
            if i == 0 {
                assert(out@ =~= prefix[0]);
            }
        }
        i += 1;
    }
    assert(string_views(names@).take(names@.len() as int) =~= string_views(names@));
    out
}

/// The tooltip text that reports `names` as the low volumes.
pub fn tooltip_text(names: &[String]) -> (r: String)
    ensures
        r@ == tooltip_for(string_views(names@)),
{
    if names.len() == 0 {
        String::from_str(ALL_CLEAR_TOOLTIP)
    } else {
        let listed = join_names(names);
        let mut text = String::from_str(LOW_SPACE_PREFIX);
        text.append(listed.as_str());
        text
    }
}

/// How long to wait before the next sampling, given whether the last one
/// found a low volume.
pub open spec fn next_check_spec(any_low: bool) -> u64 {
    if any_low {
        CHECK_INTERVAL_DEFAULT_MINUTES
    } else {
        MINUTES_IN_A_DAY
    }
}

/// Minutes until the next sampling: short while a volume is low, a day
/// otherwise.
pub fn next_check_minutes(any_low: bool) -> (r: u64)
    ensures
        r == next_check_spec(any_low),
{
    if any_low {
        CHECK_INTERVAL_DEFAULT_MINUTES
    } else {
        MINUTES_IN_A_DAY
    }
}

/// Everything one sampling decides: the report, whose `any_low` is the value
/// to publish in the shared low-space flag, the tooltip, and the wait until
/// the next sampling.
pub struct SamplingOutcome {
    pub report: LowSpaceReport,
    pub tooltip: String,
    pub next_check_minutes: u64,
}

impl SamplingOutcome {
    /// `self` is what sampling the snapshot `disks` under `threshold` decides.
    pub open spec fn is_outcome_of(self, disks: Seq<DiskInfo>, threshold: Threshold) -> bool {
        &&& self.report@ == low_space_report(disks, threshold)
        &&& self.tooltip@ == tooltip_for(self.report@.0)
        &&& self.next_check_minutes == next_check_spec(self.report.any_low)
    }
}

/// Evaluates a fresh snapshot and derives what the tray shows from it. Both
/// the periodic sampling and the on-demand query go through here.
pub fn sampling_tick(disks: &[DiskInfo], threshold: Threshold) -> (r: SamplingOutcome)
    ensures
        r.is_outcome_of(disks@, threshold),
{
    let report = evaluate(disks, threshold);
    let tooltip = tooltip_text(report.low_volume_names.as_slice());
    let next = next_check_minutes(report.any_low);
    SamplingOutcome { report, tooltip, next_check_minutes: next }
}

/// What the blink toggler does to the tray icon on one short tick.
#[derive(Clone, Copy, Debug, PartialEq, Eq, Structural)]
pub enum IconUpdate {
    Show,
    Hide,
    Unchanged,
}

/// The blink toggler's state: whether the icon is shown, and what the shared
/// flag read on the last tick.
#[derive(Clone, Copy, Debug, PartialEq, Eq, Structural)]
pub struct BlinkState {
    pub visible: bool,
    pub is_low: bool,
}

impl BlinkState {
    /// The state after one tick that read `is_low` from the shared flag.
    pub open spec fn after_tick(self, is_low: bool) -> BlinkState {
        if is_low {
            BlinkState { visible: !self.visible, is_low }
        } else {
            BlinkState { visible: true, is_low }
        }
    }

    /// The icon change of one tick that read `is_low` from the shared flag.
    pub open spec fn update_on_tick(self, is_low: bool) -> IconUpdate {
        if is_low {
            if self.visible {
                IconUpdate::Hide
            } else {
                IconUpdate::Show
            }
        } else if !self.visible {
            IconUpdate::Show
        } else {
            IconUpdate::Unchanged
        }
    }

    /// The state at start-up: icon shown, nothing known to be low.
    pub fn new() -> (r: BlinkState)
        ensures
            r.visible,
            !r.is_low,
    {
        BlinkState { visible: true, is_low: false }
    }

    /// One short tick: toggles the icon while `is_low` holds, and otherwise
    /// brings a hidden icon back.
    pub fn tick(&mut self, is_low: bool) -> (r: IconUpdate)
        ensures
            *final(self) == old(self).after_tick(is_low),
            r == old(self).update_on_tick(is_low),
            r == IconUpdate::Show ==> final(self).visible,
            r == IconUpdate::Hide ==> !final(self).visible,
            r == IconUpdate::Unchanged ==> final(self).visible == old(self).visible,
    {
        let update = if is_low {
            self.visible = !self.visible;
            if self.visible {
                IconUpdate::Show
            } else {
                IconUpdate::Hide
            }
        } else if !self.visible {
            self.visible = true;
            IconUpdate::Show
        } else {
            IconUpdate::Unchanged
        };
        self.is_low = is_low;
        update
    }
}

/// Recovery: when a sampling finds no low volume after one that found some,
/// the flag it publishes reads false, its tooltip is the all-clear text, the
/// wait is back to a day, and the next blink tick leaves the icon shown,
/// whichever phase the blink was in.
pub proof fn lemma_recovery_restores_icon(
    previous: Seq<DiskInfo>,
    current: Seq<DiskInfo>,
    threshold: Threshold,
    before: SamplingOutcome,
    after: SamplingOutcome,
    blink: BlinkState,
)
    requires
        before.is_outcome_of(previous, threshold),
        after.is_outcome_of(current, threshold),
        before.report.any_low,
        !some_disk_low(current, threshold),
    ensures
        !after.report.any_low,
        after.tooltip@ == ALL_CLEAR_TOOLTIP@,
        after.next_check_minutes == MINUTES_IN_A_DAY,
        blink.after_tick(after.report.any_low).visible,
        blink.update_on_tick(after.report.any_low) != IconUpdate::Hide,
{
    lemma_names_nonempty_iff_some_low(current, threshold);
}

} // verus!
