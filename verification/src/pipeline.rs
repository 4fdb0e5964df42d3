//! Reconciliation: from the inventory and what came back for each of its
//! references to the changes that are worth proposing.
//!
//! Retrieval is the caller's business and may run for all references at once.
//! The pipeline takes the outcomes in the order in which they arrived, drops
//! every reference whose retrieval or resolution failed and every reference
//! that is up to date, and builds one patched document per remaining one.

use crate::error::AdelieError;
use crate::helm::record_versions;
use crate::helm::HelmIndex;
use crate::inventory::Inventory;
use crate::inventory::PackageReference;
use crate::inventory::ReferenceView;
use crate::version::first_stable;
use crate::version::is_stable;
use crate::version::law_prereleases_select_nothing;
use crate::version::law_selection_is_first_stable;
use crate::version::law_selection_not_later;
use crate::version::normalize_version;
use crate::version::normalized;
use vstd::prelude::*;

verus! {

/// What came back for one reference: its index, or why there is none.
pub struct Completion {
    pub reference: PackageReference,
    pub fetched: Result<HelmIndex, AdelieError>,
}

/// A change that is worth proposing.
#[derive(Clone, Debug)]
pub struct UpdateCandidate {
    /// The key of the inventory entry that changes.
    pub package_name: String,
    pub old_version: String,
    pub new_version: String,
    /// The whole inventory as text, with this one entry pinned to the new
    /// version.
    pub patched_document: String,
}

/// What a candidate proposes, as plain text.
pub struct Update {
    pub package_name: Seq<char>,
    pub old_version: Seq<char>,
    pub new_version: Seq<char>,
}

impl UpdateCandidate {
    /// The change that this candidate proposes.
    pub open spec fn update(&self) -> Update {
        Update {
            package_name: self.package_name@,
            old_version: self.old_version@,
            new_version: self.new_version@,
        }
    }
}

/// The changes that a list of candidates proposes.
pub open spec fn proposed(candidates: Seq<UpdateCandidate>) -> Seq<Update> {
    Seq::new(candidates.len(), |i: int| candidates[i].update())
}

/// The version that resolution arrives at for the chart `chart`, given what
/// came back from its repository.
///
/// A failed retrieval is passed on as it is. Otherwise the index proposes the
/// chart's first stable record, whose version is taken without a leading `v`;
/// an index that proposes nothing gives `NotFound`.
pub open spec fn resolution(chart: Seq<char>, fetched: Result<HelmIndex, AdelieError>) -> Result<
    Seq<char>,
    AdelieError,
> {
    match fetched {
        Ok(index) => match index.proposal(chart) {
            Some(record) => Ok(normalized(record.version@)),
            None => Err(AdelieError::NotFound),
        },
        Err(e) => Err(e),
    }
}

/// The change that an outcome calls for: none where resolution failed or
/// arrived at the pinned version.
pub open spec fn update_of(
    reference: ReferenceView,
    fetched: Result<HelmIndex, AdelieError>,
) -> Option<Update> {
    match resolution(reference.chart, fetched) {
        Ok(version) => if version != reference.version {
            Some(
                Update {
                    package_name: reference.key,
                    old_version: reference.version,
                    new_version: version,
                },
            )
        } else {
            None
        },
        Err(_) => None,
    }
}

/// The change that an outcome contributes to a run on `inventory`: the one it
/// calls for, provided the inventory has the entry to pin.
pub open spec fn contribution(inventory: &Inventory, completion: Completion) -> Option<Update> {
    if inventory.fields().contains_key((completion.reference.key@, "version"@)) {
        update_of(completion.reference@, completion.fetched)
    } else {
        None
    }
}

/// The changes of a run, in the order in which the outcomes arrived.
pub open spec fn updates(inventory: &Inventory, completions: Seq<Completion>) -> Seq<Update>
    decreases completions.len(),
{
    if completions.len() == 0 {
        Seq::empty()
    } else {
        let before = updates(inventory, completions.drop_last());
        match contribution(inventory, completions.last()) {
            Some(update) => before.push(update),
            None => before,
        }
    }
}

/// Whether `text` is `inventory` written out with the entry `key` pinned to
/// `version` and nothing else changed.
pub open spec fn is_patched_text(
    inventory: &Inventory,
    key: Seq<char>,
    version: Seq<char>,
    text: Seq<char>,
) -> bool {
    exists|patched: Inventory| #[trigger]
        patched.is_patch_of(inventory, key, version) && patched.text() == text
}

/// Resolves one reference against what came back from its repository.
pub fn resolve(reference: &PackageReference, fetched: &Result<HelmIndex, AdelieError>) -> (r:
    Result<String, AdelieError>)
    ensures
        match r {
            Ok(version) => resolution(reference.chart@, *fetched) == Ok::<Seq<char>, AdelieError>(
                version@,
            ),
            Err(e) => resolution(reference.chart@, *fetched) == Err::<Seq<char>, AdelieError>(e),
        },
{
    match fetched {
        Ok(index) => {
            let mut chart = reference.pinned_chart();
            match chart.update_version(index) {
                Ok(()) => {
                    let listed = chart.version.unwrap();
                    Ok(normalize_version(listed.as_str()))
                },
                Err(e) => Err(e),
            }
        },
        Err(e) => Err(*e),
    }
}

/// Decides what one outcome contributes, and builds the candidate.
pub fn candidate_for(inventory: &Inventory, completion: &Completion) -> (r: Option<
    UpdateCandidate,
>)
    ensures
        match r {
            Some(candidate) => {
                &&& contribution(inventory, *completion) == Some(candidate.update())
                &&& is_patched_text(
                    inventory,
                    candidate.package_name@,
                    candidate.new_version@,
                    candidate.patched_document@,
                )
            },
            None => contribution(inventory, *completion) is None,
        },
{
    let reference = &completion.reference;
    match resolve(reference, &completion.fetched) {
        Ok(version) => {
            if version == reference.version {
                return None;
            }
            match inventory.with_version(reference.key.as_str(), version.as_str()) {
                Some(patched) => {
                    let text = patched.render();
                    assert(patched.is_patch_of(inventory, reference.key@, version@));
                    Some(
                        UpdateCandidate {
                            package_name: reference.key.clone(),
                            old_version: reference.version.clone(),
                            new_version: version,
                            patched_document: text,
                        },
                    )
                },
                None => None,
            }
        },
        Err(_) => None,
    }
}

/// Turns the outcomes of a run into its update candidates.
///
/// The candidates stand in the order in which their outcomes arrived. Each
/// proposes a version that differs from the pinned one, and carries the
/// inventory with that one entry changed.
pub fn reconcile(inventory: &Inventory, completions: &Vec<Completion>) -> (out: Vec<
    UpdateCandidate,
>)
    ensures
        proposed(out@) == updates(inventory, completions@),
        forall|i: int|
            0 <= i < out.len() ==> (#[trigger] out[i]).new_version@ != out[i].old_version@,
        forall|i: int|
            0 <= i < out.len() ==> is_patched_text(
                inventory,
                (#[trigger] out[i]).package_name@,
                out[i].new_version@,
                out[i].patched_document@,
            ),
{
    let mut out: Vec<UpdateCandidate> = Vec::new();
    let mut i: usize = 0;
    assert(completions@.take(0) =~= Seq::<Completion>::empty());
    assert(proposed(out@) =~= Seq::<Update>::empty());
    while i < completions.len()
        invariant
            i <= completions.len(),
            proposed(out@) == updates(inventory, completions@.take(i as int)),
            forall|j: int|
                0 <= j < out.len() ==> (#[trigger] out[j]).new_version@ != out[j].old_version@,
            forall|j: int|
                0 <= j < out.len() ==> is_patched_text(
                    inventory,
                    (#[trigger] out[j]).package_name@,
                    out[j].new_version@,
                    out[j].patched_document@,
                ),
        decreases completions.len() - i,
    {
        let ghost before = proposed(out@);
        proof {
            let upto = completions@.take(i as int + 1);
            assert(upto.drop_last() =~= completions@.take(i as int));
            assert(upto.last() == completions@[i as int]);
        }
        match candidate_for(inventory, &completions[i]) {
            Some(candidate) => {
                out.push(candidate);
                assert(proposed(out@) =~= before.push(candidate.update()));
            },
            None => {},
        }
        i = i + 1;
    }
    assert(completions@.take(i as int) =~= completions@);
    out
}

/// An index that lists nothing but versions with a hyphen for a chart
/// resolves to `NotFound`, and so does one that does not list the chart.
pub proof fn law_prereleases_resolve_to_not_found(chart: Seq<char>, index: HelmIndex)
    requires
        index.entries@.contains_key(chart) ==> forall|i: int|
            0 <= i < index.entries@[chart]@.len() ==> (
            #[trigger] index.entries@[chart]@[i]).version@.contains('-'),
    ensures
        resolution(chart, Ok(index)) == Err::<Seq<char>, AdelieError>(AdelieError::NotFound),
{
    if index.entries@.contains_key(chart) {
        let records = index.entries@[chart]@;
        let versions = record_versions(records);
        assert forall|i: int| 0 <= i < versions.len() implies (#[trigger] versions[i]).contains(
            '-',
        ) by {
            assert(versions[i] == records[i].version@);
        }
        law_prereleases_select_nothing(versions);
    }
}

/// Resolution goes by list order alone: where the record at `k` is stable,
/// the resolved version is that of a stable record at or before `k` which has
/// only versions with a hyphen before it.
pub proof fn law_resolution_takes_first_stable(chart: Seq<char>, index: HelmIndex, k: int)
    requires
        index.entries@.contains_key(chart),
        0 <= k < index.entries@[chart]@.len(),
        is_stable(index.entries@[chart]@[k].version@),
    ensures
        exists|i: int|
            {
                &&& 0 <= i <= k
                &&& #[trigger] is_stable(index.entries@[chart]@[i].version@)
                &&& forall|j: int|
                    0 <= j < i ==> (#[trigger] index.entries@[chart]@[j]).version@.contains('-')
                &&& resolution(chart, Ok(index)) == Ok::<Seq<char>, AdelieError>(
                    normalized(index.entries@[chart]@[i].version@),
                )
            },
{
    let records = index.entries@[chart]@;
    let versions = record_versions(records);
    assert(versions[k] == records[k].version@);
    law_selection_is_first_stable(versions);
    law_selection_not_later(versions, k);
    let i = first_stable(versions)->Some_0;
    assert(versions[i] == records[i].version@);
    assert forall|j: int| 0 <= j < i implies (#[trigger] records[j]).version@.contains('-') by {
        assert(versions[j] == records[j].version@);
    }
    assert(is_stable(index.entries@[chart]@[i].version@));
}

/// A run in which no outcome arrives at a version other than the pinned one
/// emits no candidate.
pub proof fn law_up_to_date_run_emits_nothing(inventory: &Inventory, completions: Seq<Completion>)
    requires
        forall|i: int|
            0 <= i < completions.len() ==> (resolution(
                (#[trigger] completions[i]).reference.chart@,
                completions[i].fetched,
            ) matches Ok(version) ==> version == completions[i].reference.version@),
    ensures
        updates(inventory, completions) == Seq::<Update>::empty(),
    decreases completions.len(),
{
    if completions.len() > 0 {
        let before = completions.drop_last();
        assert forall|i: int| 0 <= i < before.len() implies (resolution(
            (#[trigger] before[i]).reference.chart@,
            before[i].fetched,
        ) matches Ok(version) ==> version == before[i].reference.version@) by {
            assert(before[i] == completions[i]);
        }
        law_up_to_date_run_emits_nothing(inventory, before);
        assert(completions.last() == completions[completions.len() - 1]);
    }
}

/// A reference whose retrieval or resolution failed is dropped and nothing
/// else: the run emits what it would emit had that reference not been there.
pub proof fn law_failure_is_isolated(inventory: &Inventory, completions: Seq<Completion>, k: int)
    requires
        0 <= k < completions.len(),
        resolution(completions[k].reference.chart@, completions[k].fetched) is Err,
    ensures
        updates(inventory, completions) == updates(inventory, completions.remove(k)),
    decreases completions.len(),
{
    let without = completions.remove(k);
    if k == completions.len() - 1 {
        assert(without =~= completions.drop_last());
    } else {
        let before = completions.drop_last();
        assert(before[k] == completions[k]);
        law_failure_is_isolated(inventory, before, k);
        assert(without.drop_last() =~= before.remove(k));
        assert(without.last() == completions.last());
    }
}

/// Every outcome that calls for a change of an entry that the inventory has
/// is answered by a candidate, wherever it stands among the others and
/// whatever became of them.
pub proof fn law_every_update_is_emitted(
    inventory: &Inventory,
    completions: Seq<Completion>,
    k: int,
)
    requires
        0 <= k < completions.len(),
        contribution(inventory, completions[k]) is Some,
    ensures
        updates(inventory, completions).contains(contribution(inventory, completions[k])->Some_0),
    decreases completions.len(),
{
    let wanted = contribution(inventory, completions[k])->Some_0;
    let before = updates(inventory, completions.drop_last());
    if k == completions.len() - 1 {
        assert(before.push(wanted).last() == wanted);
    } else {
        assert(completions.drop_last()[k] == completions[k]);
        law_every_update_is_emitted(inventory, completions.drop_last(), k);
        let i = choose|i: int| 0 <= i < before.len() && before[i] == wanted;
        match contribution(inventory, completions.last()) {
            Some(update) => {
                assert(before.push(update)[i] == wanted);
            },
            None => {},
        }
    }
}

} // verus!
