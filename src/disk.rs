use vstd::prelude::*;
use vstd::seq_lib::group_filter_ensures;

verus! {

/// Numerator of the default low-space threshold.
pub const LOW_SPACE_THRESHOLD_NUM: u64 = 1;

/// Denominator of the default low-space threshold.
pub const LOW_SPACE_THRESHOLD_DEN: u64 = 10;

/// A low-space threshold, the ratio `num / den`.
///
/// The comparison is made by cross-multiplication, so no precision is lost.
/// A zero denominator stands for an unbounded ratio: every volume with some
/// capacity is then below it, as long as `num` is not zero.
#[derive(Clone, Copy, Debug, PartialEq, Eq, Structural)]
pub struct Threshold {
    pub num: u64,
    pub den: u64,
}

impl Default for Threshold {
    /// The default threshold: a volume is low when less than a tenth of it
    /// is free.
    fn default() -> (r: Threshold)
        ensures
            r.num == LOW_SPACE_THRESHOLD_NUM,
            r.den == LOW_SPACE_THRESHOLD_DEN,
    {
        Threshold { num: LOW_SPACE_THRESHOLD_NUM, den: LOW_SPACE_THRESHOLD_DEN }
    }
}

impl Threshold {
    /// `available / total < num / den`: the free share lies below `self`. A
    /// volume without capacity is never below it.
    pub open spec fn has_ratio_below(self, available: u64, total: u64) -> bool {
        total > 0 && (available as int) * (self.den as int) < (self.num as int) * (total as int)
    }
}

/// One mounted volume as the operating system reported it.
pub struct DiskInfo {
    pub name: String,
    pub total_space: u64,
    pub available_space: u64,
}

impl DiskInfo {
    /// The volume's free share is strictly below the threshold.
    pub open spec fn is_low_spec(&self, threshold: Threshold) -> bool {
        threshold.has_ratio_below(self.available_space, self.total_space)
    }

    /// Whether the free share `available_space / total_space` lies strictly
    /// below `threshold`. A volume of zero capacity is never low.
    pub fn is_low(&self, threshold: Threshold) -> (r: bool)
        ensures
            r == self.is_low_spec(threshold),
            self.total_space == 0 ==> !r,
    {
        if self.total_space == 0 {
            return false;
        }
        let a = self.available_space as u128;
        let d = threshold.den as u128;
        let n = threshold.num as u128;
        let t = self.total_space as u128;
        proof {
            assert(a * d <= 0xffff_ffff_ffff_ffffu128 * 0xffff_ffff_ffff_ffffu128) by (nonlinear_arith)
                requires a <= 0xffff_ffff_ffff_ffffu128, d <= 0xffff_ffff_ffff_ffffu128;
            assert(n * t <= 0xffff_ffff_ffff_ffffu128 * 0xffff_ffff_ffff_ffffu128) by (nonlinear_arith)
                requires n <= 0xffff_ffff_ffff_ffffu128, t <= 0xffff_ffff_ffff_ffffu128;
        }
        a * d < n * t
    }
}

/// The text of each string, in order.
pub open spec fn string_views(v: Seq<String>) -> Seq<Seq<char>> {
    v.map_values(|s: String| s@)
}

/// The low volumes of `disks`, in the order in which they occur.
pub open spec fn low_disks(disks: Seq<DiskInfo>, threshold: Threshold) -> Seq<DiskInfo> {
    disks.filter(|d: DiskInfo| d.is_low_spec(threshold))
}

/// The names of the low volumes of `disks`, in the order in which they occur.
pub open spec fn low_disk_names(disks: Seq<DiskInfo>, threshold: Threshold) -> Seq<Seq<char>> {
    low_disks(disks, threshold).map_values(|d: DiskInfo| d.name@)
}

/// The names of the volumes of `disks` that are low under `threshold`, in
/// input order.
pub fn get_low_disk_names(disks: &[DiskInfo], threshold: Threshold) -> (r: Vec<String>)
    ensures
        string_views(r@) == low_disk_names(disks@, threshold),
{
    let mut names: Vec<String> = Vec::new();
    let mut i: usize = 0;
    while i < disks.len()
        invariant
            0 <= i <= disks@.len(),
            string_views(names@) == low_disk_names(disks@.take(i as int), threshold),
        decreases disks@.len() - i,
    {
        let d = &disks[i];
        let low = d.is_low(threshold);
        let ghost before = names@;
        if low {
            names.push(d.name.clone());
        }
        proof {
            let pred = |x: DiskInfo| x.is_low_spec(threshold);
            let prefix = disks@.take(i + 1);
            assert(prefix.drop_last() =~= disks@.take(i as int));
            assert(prefix.last() == disks@[i as int]);
            reveal(Seq::filter);
            if low {
                assert(prefix.filter(pred) == disks@.take(i as int).filter(pred).push(disks@[i as int]));
                assert(string_views(names@) =~= string_views(before).push(d.name@));
                assert(low_disk_names(prefix, threshold) =~= low_disk_names(disks@.take(i as int), threshold).push(d.name@));
            } else {
                assert(prefix.filter(pred) == disks@.take(i as int).filter(pred));
            }
        }
        i += 1;
    }
    assert(disks@.take(disks@.len() as int) =~= disks@);
    names
}

/// Whether some volume of `disks` is low under `threshold`.
pub open spec fn some_disk_low(disks: Seq<DiskInfo>, threshold: Threshold) -> bool {
    exists|i: int| 0 <= i < disks.len() && #[trigger] disks[i].is_low_spec(threshold)
}

/// The names list is non-empty exactly when some volume is low.
pub proof fn lemma_names_nonempty_iff_some_low(disks: Seq<DiskInfo>, threshold: Threshold)
    ensures
        (low_disk_names(disks, threshold).len() > 0) == some_disk_low(disks, threshold),
{
    broadcast use group_filter_ensures;

    let pred = |d: DiskInfo| d.is_low_spec(threshold);
    let kept = disks.filter(pred);
    if kept.len() > 0 {
        assert(pred(kept[0]));
        assert(kept.contains(kept[0]));
        disks.lemma_filter_contains_rev(pred, kept[0]);
        let i = choose|i: int| 0 <= i < disks.len() && disks[i] == kept[0];
        assert(disks[i].is_low_spec(threshold));
    }
    if some_disk_low(disks, threshold) {
        let i = choose|i: int| 0 <= i < disks.len() && #[trigger] disks[i].is_low_spec(threshold);
        assert(kept.contains(disks[i]));
    }
}

/// What one evaluation of a snapshot finds: the low volumes by name, in
/// input order, and whether there is any.
pub struct LowSpaceReport {
    pub low_volume_names: Vec<String>,
    pub any_low: bool,
}

impl View for LowSpaceReport {
    type V = (Seq<Seq<char>>, bool);

    open spec fn view(&self) -> (Seq<Seq<char>>, bool) {
        (string_views(self.low_volume_names@), self.any_low)
    }
}

/// The report that a snapshot `disks` yields under `threshold`.
pub open spec fn low_space_report(disks: Seq<DiskInfo>, threshold: Threshold) -> (Seq<Seq<char>>, bool) {
    let names = low_disk_names(disks, threshold);
    (names, names.len() > 0)
}

/// Evaluates a snapshot of volumes against `threshold`.
pub fn evaluate(disks: &[DiskInfo], threshold: Threshold) -> (r: LowSpaceReport)
    ensures
        r@ == low_space_report(disks@, threshold),
        r.any_low == some_disk_low(disks@, threshold),
{
    let names = get_low_disk_names(disks, threshold);
    proof {
        lemma_names_nonempty_iff_some_low(disks@, threshold);
    }
    let any_low = names.len() > 0;
    LowSpaceReport { low_volume_names: names, any_low }
}

/// A volume of zero capacity is never low, whatever the threshold: adding
/// one to a snapshot leaves the low names as they were.
pub proof fn lemma_zero_capacity_never_low(disks: Seq<DiskInfo>, disk: DiskInfo, threshold: Threshold)
    requires
        disk.total_space == 0,
    ensures
        !disk.is_low_spec(threshold),
        low_disk_names(disks.push(disk), threshold) == low_disk_names(disks, threshold),
{
    reveal(Seq::filter);
    let pred = |d: DiskInfo| d.is_low_spec(threshold);
    assert(disks.push(disk).drop_last() =~= disks);
    assert(disks.push(disk).filter(pred) == disks.filter(pred));
}

/// The low set is exact and keeps input order: a volume of the snapshot is
/// among the low volumes if and only if it is low; an empty snapshot has
/// none; and a volume added at the end is listed last when it is low and
/// leaves the list as it was when it is not.
pub proof fn lemma_low_set_exact(disks: Seq<DiskInfo>, disk: DiskInfo, threshold: Threshold)
    ensures
        forall|i: int|
            0 <= i < disks.len() ==> (#[trigger] disks[i].is_low_spec(threshold) <==> low_disks(
                disks,
                threshold,
            ).contains(disks[i])),
        low_disk_names(Seq::empty(), threshold) == Seq::<Seq<char>>::empty(),
        low_disk_names(disks.push(disk), threshold) == (if disk.is_low_spec(threshold) {
            low_disk_names(disks, threshold).push(disk.name@)
        } else {
            low_disk_names(disks, threshold)
        }),
{
    broadcast use group_filter_ensures;

    let pred = |d: DiskInfo| d.is_low_spec(threshold);
    assert forall|i: int|
        0 <= i < disks.len() implies (#[trigger] disks[i].is_low_spec(threshold) <==> low_disks(
            disks,
            threshold,
        ).contains(disks[i])) by {
        if low_disks(disks, threshold).contains(disks[i]) {
            let j = choose|j: int|
                0 <= j < disks.filter(pred).len() && disks.filter(pred)[j] == disks[i];
            assert(pred(disks.filter(pred)[j]));
        }
    }
    reveal(Seq::filter);
    assert(Seq::<DiskInfo>::empty().filter(pred) =~= Seq::<DiskInfo>::empty());
    assert(low_disk_names(Seq::empty(), threshold) =~= Seq::<Seq<char>>::empty());
    assert(disks.push(disk).drop_last() =~= disks);
    if disk.is_low_spec(threshold) {
        assert(disks.push(disk).filter(pred) == disks.filter(pred).push(disk));
        assert(low_disk_names(disks.push(disk), threshold) =~= low_disk_names(disks, threshold).push(
            disk.name@,
        ));
    } else {
        assert(disks.push(disk).filter(pred) == disks.filter(pred));
    }
}

/// Evaluation has no hidden state: two reports computed from the same
/// snapshot and threshold are equal.
pub proof fn lemma_evaluate_idempotent(
    disks: Seq<DiskInfo>,
    threshold: Threshold,
    first: LowSpaceReport,
    second: LowSpaceReport,
)
    requires
        first@ == low_space_report(disks, threshold),
        second@ == low_space_report(disks, threshold),
    ensures
        first@ == second@,
        first.any_low == second.any_low,
{
}

} // verus!
