use vstd::prelude::*;
use crate::icons::IconSet;
use crate::service::{Service, target_of};

verus! {

/// Whether every verdict of one poll is healthy; an empty poll is.
pub open spec fn all_up(verdicts: Seq<bool>) -> bool {
    forall|i: int| 0 <= i < verdicts.len() ==> #[trigger] verdicts[i]
}

/// Aggregate health: good for no services, bad as soon as one service is
/// unreachable, good when every service is reachable.
pub proof fn lemma_aggregate_health(verdicts: Seq<bool>)
    ensures
        verdicts.len() == 0 ==> all_up(verdicts),
        (exists|i: int| 0 <= i < verdicts.len() && !#[trigger] verdicts[i]) ==> !all_up(verdicts),
        (forall|i: int| 0 <= i < verdicts.len() ==> #[trigger] verdicts[i]) ==> all_up(verdicts),
{
}

/// One line of a status report: a service's name and its verdict.
#[derive(Clone, Debug)]
pub struct StatusEntry {
    pub name: String,
    pub healthy: bool,
}

/// What the status surface is redrawn with after a poll.
#[derive(Clone, Debug)]
pub struct StatusReport {
    pub healthy: bool,
    pub icon_set: IconSet,
    pub entries: Vec<StatusEntry>,
}

/// `r` reports the verdicts of one poll of `services` in their order.
pub open spec fn reports(
    r: StatusReport,
    services: Seq<Service>,
    verdicts: Seq<bool>,
    icon_set: IconSet,
) -> bool {
    &&& r.healthy == all_up(verdicts)
    &&& r.icon_set == icon_set
    &&& r.entries@.len() == services.len()
    &&& forall|i: int|
        0 <= i < services.len() ==> (#[trigger] r.entries@[i]).name@ == services[i].name@
            && r.entries@[i].healthy == verdicts[i]
}

/// The connection targets of a list of services, in order.
pub fn probe_targets(services: &Vec<Service>) -> (r: Vec<String>)
    ensures
        r@.len() == services@.len(),
        forall|i: int| 0 <= i < services@.len() ==> #[trigger] r@[i]@ == target_of(services@[i]@),
{
    let mut r: Vec<String> = Vec::new();
    let mut i: usize = 0;
    while i < services.len()
        invariant
            i <= services@.len(),
            r@.len() == i,
            forall|j: int| 0 <= j < i ==> #[trigger] r@[j]@ == target_of(services@[j]@),
        decreases services.len() - i,
    {
        r.push(services[i].probe_target());
        i = i + 1;
    }
    r
}

/// The aggregate health of one poll: the AND of its verdicts.
pub fn aggregate_health(verdicts: &Vec<bool>) -> (r: bool)
    ensures
        r == all_up(verdicts@),
{
    let mut i: usize = 0;
    while i < verdicts.len()
        invariant
            i <= verdicts@.len(),
            forall|j: int| 0 <= j < i ==> #[trigger] verdicts@[j],
        decreases verdicts.len() - i,
    {
        if !verdicts[i] {
            return false;
        }
        i = i + 1;
    }
    true
}

/// The report of one poll: the aggregate and, per service, its verdict.
pub fn status_report(services: &Vec<Service>, verdicts: &Vec<bool>, icon_set: IconSet) -> (r:
    StatusReport)
    requires
        verdicts@.len() == services@.len(),
    ensures
        reports(r, services@, verdicts@, icon_set),
{
    let mut entries: Vec<StatusEntry> = Vec::new();
    let mut i: usize = 0;
    while i < services.len()
        invariant
            i <= services@.len(),
            verdicts@.len() == services@.len(),
            entries@.len() == i,
            forall|j: int|
                0 <= j < i ==> (#[trigger] entries@[j]).name@ == services@[j].name@
                    && entries@[j].healthy == verdicts@[j],
        decreases services.len() - i,
    {
        entries.push(StatusEntry { name: services[i].name.clone(), healthy: verdicts[i] });
        i = i + 1;
    }
    StatusReport { healthy: aggregate_health(verdicts), icon_set, entries }
}

} // verus!
