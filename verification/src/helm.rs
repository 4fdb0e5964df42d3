//! Helm's side of the updater: the version index that a chart repository
//! publishes, and a chart as the inventory pins it.

use crate::error::AdelieError;
use crate::fetch::index_location;
use crate::fetch::index_url;
use crate::version::first_stable;
use crate::version::is_stable;
use crate::version::is_stable_version;
use crate::version::law_prereleases_select_nothing;
use crate::version::lemma_first_stable_is;
use vstd::hash_map::StringHashMap;
use vstd::prelude::*;

verus! {

/// The index document of one chart repository.
pub struct HelmIndex {
    pub api_version: String,
    /// The published versions of each chart, by chart name, in the order in
    /// which the repository lists them.
    pub entries: StringHashMap<Vec<HelmIndexVersion>>,
}

/// One published version of a chart.
#[derive(Clone, Debug)]
pub struct HelmIndexVersion {
    pub version: String,
    pub app_version: Option<String>,
}

/// A chart as pinned in the inventory.
#[derive(Clone, Debug)]
pub struct Chart {
    pub name: String,
    pub repo: String,
    pub version: Option<String>,
    pub app_version: Option<String>,
}

/// The characters of an optional string.
pub open spec fn opt_text(s: Option<String>) -> Option<Seq<char>> {
    match s {
        Some(text) => Some(text@),
        None => None,
    }
}

/// The version strings of a list of records, in list order.
pub open spec fn record_versions(records: Seq<HelmIndexVersion>) -> Seq<Seq<char>> {
    Seq::new(records.len(), |i: int| records[i].version@)
}

/// The record that the version policy selects from `records`: the first one,
/// in list order, whose version is stable.
pub open spec fn selected_record(records: Seq<HelmIndexVersion>) -> Option<HelmIndexVersion> {
    match first_stable(record_versions(records)) {
        Some(i) => Some(records[i]),
        None => None,
    }
}

/// Copies an optional string.
fn clone_opt_text(s: &Option<String>) -> (out: Option<String>)
    ensures
        opt_text(out) == opt_text(*s),
{
    match s {
        Some(text) => Some(text.clone()),
        None => None,
    }
}

/// Picks the record that the version policy selects.
pub fn select_record(records: &Vec<HelmIndexVersion>) -> (picked: Option<usize>)
    ensures
        match picked {
            Some(i) => first_stable(record_versions(records@)) == Some(i as int) && i
                < records.len(),
            None => first_stable(record_versions(records@)) is None,
        },
{
    let ghost versions = record_versions(records@);
    let mut i: usize = 0;
    while i < records.len()
        invariant
            i <= records.len(),
            versions == record_versions(records@),
            forall|j: int| 0 <= j < i ==> !is_stable(#[trigger] versions[j]),
        decreases records.len() - i,
    {
        if is_stable_version(records[i].version.as_str()) {
            proof {
                lemma_first_stable_is(versions, i as int);
            }
            return Some(i);
        }
        i = i + 1;
    }
    proof {
        law_prereleases_select_nothing(versions);
    }
    None
}

impl HelmIndex {
    /// An index that lists no chart.
    pub fn new(api_version: String) -> (index: HelmIndex)
        ensures
            index.api_version == api_version,
            index.entries@ == Map::<Seq<char>, Vec<HelmIndexVersion>>::empty(),
    {
        HelmIndex { api_version, entries: StringHashMap::new() }
    }

    /// Lists `records` as the versions of the chart `name`, in place of what
    /// was listed for it before.
    pub fn insert(&mut self, name: String, records: Vec<HelmIndexVersion>)
        ensures
            final(self).api_version == old(self).api_version,
            final(self).entries@ == old(self).entries@.insert(name@, records),
    {
        self.entries.insert(name, records);
    }

    /// The records listed for the chart `name`.
    pub fn records(&self, name: &str) -> (found: Option<&Vec<HelmIndexVersion>>)
        ensures
            match found {
                Some(records) => self.entries@.contains_key(name@) && *records
                    == self.entries@[name@],
                None => !self.entries@.contains_key(name@),
            },
    {
        self.entries.get(name)
    }

    /// The record that is proposed for the chart `name`: the first stable one
    /// among those listed for it.
    pub open spec fn proposal(&self, name: Seq<char>) -> Option<HelmIndexVersion> {
        if self.entries@.contains_key(name) {
            selected_record(self.entries@[name]@)
        } else {
            None
        }
    }

    /// Looks up the record that is proposed for the chart `name`.
    pub fn propose(&self, name: &str) -> (found: Option<&HelmIndexVersion>)
        ensures
            match found {
                Some(record) => self.proposal(name@) == Some(*record),
                None => self.proposal(name@) is None,
            },
    {
        match self.entries.get(name) {
            Some(records) => match select_record(records) {
                Some(i) => Some(&records[i]),
                None => None,
            },
            None => None,
        }
    }
}

impl Chart {
    /// Where this chart's repository publishes its index.
    pub fn index_url(&self) -> (r: Result<String, AdelieError>)
        ensures
            match r {
                Ok(location) => index_location(self.repo@) == Some(location@),
                Err(e) => e == AdelieError::Fetch && index_location(self.repo@) is None,
            },
    {
        index_url(self.repo.as_str())
    }

    /// Moves the chart to the version that `index` proposes for it.
    ///
    /// The chart takes the version and the application version of the first
    /// stable record listed under its name, exactly as the index writes them.
    /// Where the index proposes nothing, the chart stays as it was.
    pub fn update_version(&mut self, index: &HelmIndex) -> (r: Result<(), AdelieError>)
        ensures
            final(self).name == old(self).name,
            final(self).repo == old(self).repo,
            match index.proposal(old(self).name@) {
                Some(record) => {
                    &&& r is Ok
                    &&& opt_text(final(self).version) == Some(record.version@)
                    &&& opt_text(final(self).app_version) == opt_text(record.app_version)
                },
                None => r == Err::<(), AdelieError>(AdelieError::NotFound) && *final(self) == *old(
                    self,
                ),
            },
    {
        match index.propose(self.name.as_str()) {
            Some(record) => {
                self.version = Some(record.version.clone());
                self.app_version = clone_opt_text(&record.app_version);
                Ok(())
            },
            None => Err(AdelieError::NotFound),
        }
    }
}

} // verus!
