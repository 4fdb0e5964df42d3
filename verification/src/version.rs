//! The version policy: which version strings count as stable, and the form in
//! which a selected version is compared and proposed.
//!
//! The policy is textual on purpose. It never orders versions by number: the
//! index is trusted to list the newest version first.

use vstd::prelude::*;

verus! {

/// A version is stable when its text holds no hyphen.
pub open spec fn is_stable(version: Seq<char>) -> bool {
    !version.contains('-')
}

/// The version without one leading `v`, if it has one.
pub open spec fn normalized(version: Seq<char>) -> Seq<char> {
    if version.len() > 0 && version[0] == 'v' {
        version.subrange(1, version.len() as int)
    } else {
        version
    }
}

/// Position of the first stable version among `versions`, if there is one.
pub open spec fn first_stable(versions: Seq<Seq<char>>) -> Option<int>
    decreases versions.len(),
{
    if versions.len() == 0 {
        None
    } else if is_stable(versions[0]) {
        Some(0)
    } else {
        match first_stable(versions.drop_first()) {
            Some(i) => Some(i + 1),
            None => None,
        }
    }
}

/// Decides whether a version string is stable.
pub fn is_stable_version(version: &str) -> (stable: bool)
    ensures
        stable == is_stable(version@),
{
    for c in it: version.chars()
        invariant
            it.seq() == version@,
            forall|j: int| 0 <= j < it.index() ==> version@[j] != '-',
    {
        if c == '-' {
            return false;
        }
    }
    true
}

/// Strips one leading `v` from a version string.
pub fn normalize_version(version: &str) -> (out: String)
    ensures
        out@ == normalized(version@),
{
    let n: usize = version.unicode_len();
    if n > 0 && version.get_char(0) == 'v' {
        String::from_str(version.substring_char(1, n))
    } else {
        String::from_str(version)
    }
}

/// If the version at `i` is stable and none before it is, `i` is selected.
pub proof fn lemma_first_stable_is(versions: Seq<Seq<char>>, i: int)
    requires
        0 <= i < versions.len(),
        is_stable(versions[i]),
        forall|j: int| 0 <= j < i ==> !is_stable(#[trigger] versions[j]),
    ensures
        first_stable(versions) == Some(i),
    decreases versions.len(),
{
    if i > 0 {
        let rest = versions.drop_first();
        assert forall|j: int| 0 <= j < i - 1 implies !is_stable(#[trigger] rest[j]) by {
            assert(rest[j] == versions[j + 1]);
        }
        lemma_first_stable_is(rest, i - 1);
    }
}

/// Among versions that all hold a hyphen, none is selected.
pub proof fn law_prereleases_select_nothing(versions: Seq<Seq<char>>)
    requires
        forall|j: int| 0 <= j < versions.len() ==> (#[trigger] versions[j]).contains('-'),
    ensures
        first_stable(versions) is None,
    decreases versions.len(),
{
    if versions.len() > 0 {
        let rest = versions.drop_first();
        assert forall|j: int| 0 <= j < rest.len() implies (#[trigger] rest[j]).contains('-') by {
            assert(rest[j] == versions[j + 1]);
        }
        law_prereleases_select_nothing(rest);
    }
}

/// The selected version is the first stable one in list order, whatever the
/// numbers in it: it is stable, and every version before it holds a hyphen.
/// Nothing is selected only where no version is stable.
pub proof fn law_selection_is_first_stable(versions: Seq<Seq<char>>)
    ensures
        match first_stable(versions) {
            Some(i) => {
                &&& 0 <= i < versions.len()
                &&& is_stable(versions[i])
                &&& forall|j: int| 0 <= j < i ==> (#[trigger] versions[j]).contains('-')
            },
            None => forall|j: int|
                0 <= j < versions.len() ==> (#[trigger] versions[j]).contains('-'),
        },
    decreases versions.len(),
{
    if versions.len() > 0 && !is_stable(versions[0]) {
        let rest = versions.drop_first();
        law_selection_is_first_stable(rest);
        match first_stable(rest) {
            Some(i) => {
                assert(versions[i + 1] == rest[i]);
                assert forall|j: int| 0 <= j < i + 1 implies (#[trigger] versions[j]).contains(
                    '-',
                ) by {
                    if j > 0 {
                        assert(versions[j] == rest[j - 1]);
                    }
                }
            },
            None => {
                assert forall|j: int| 0 <= j < versions.len() implies (
                #[trigger] versions[j]).contains('-') by {
                    if j > 0 {
                        assert(versions[j] == rest[j - 1]);
                    }
                }
            },
        }
    }
}

/// The selection never passes over a stable version: it stands at or before
/// every one of them.
pub proof fn law_selection_not_later(versions: Seq<Seq<char>>, k: int)
    requires
        0 <= k < versions.len(),
        is_stable(versions[k]),
    ensures
        first_stable(versions) matches Some(i) && i <= k,
{
    law_selection_is_first_stable(versions);
}

/// A version without a leading `v` is its own normal form.
pub proof fn law_normalize_keeps_stripped(version: Seq<char>)
    requires
        version.len() == 0 || version[0] != 'v',
    ensures
        normalized(version) == version,
{
}

/// Normalizing twice gives what normalizing once gives, for every version
/// that does not begin with two `v`s.
pub proof fn law_normalize_idempotent(version: Seq<char>)
    requires
        !(version.len() >= 2 && version[0] == 'v' && version[1] == 'v'),
    ensures
        normalized(normalized(version)) == normalized(version),
{
}

} // verus!
