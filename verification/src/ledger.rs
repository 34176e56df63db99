//! The version tags of a repository, in ascending order of version.

use crate::error::{ReleaseError, ReleaseErrorModel};
use crate::text::same_text;
use crate::version::{version_of_v_tag, SemanticVersion};
use vstd::prelude::*;

verus! {

/// A tag whose name is a `v` followed by a semantic version.
#[derive(Clone, Debug)]
pub struct TagEntry {
    pub version: SemanticVersion,
    pub name: String,
}

/// A [`TagEntry`] with its name as a sequence of characters.
pub struct TagModel {
    pub version: SemanticVersion,
    pub name: Seq<char>,
}

impl DeepView for TagEntry {
    type V = TagModel;

    open spec fn deep_view(&self) -> TagModel {
        TagModel { version: self.version, name: self.name@ }
    }
}

/// The version tags of a repository.
#[derive(Clone, Debug)]
pub struct Ledger {
    pub entries: Vec<TagEntry>,
}

impl DeepView for Ledger {
    type V = Seq<TagModel>;

    open spec fn deep_view(&self) -> Seq<TagModel> {
        self.entries.deep_view()
    }
}

/// The base of a history without releases: version `0.0.0` and no tag.
pub open spec fn root_base() -> TagModel {
    TagModel { version: SemanticVersion { major: 0, minor: 0, patch: 0 }, name: Seq::empty() }
}

/// Whether an entry of `entries` has the given name.
pub open spec fn holds_name(entries: Seq<TagModel>, name: Seq<char>) -> bool {
    exists|i: int| 0 <= i < entries.len() && (#[trigger] entries[i]).name == name
}

/// The first entry of `entries` with the given name, if there is one.
pub open spec fn entry_named(entries: Seq<TagModel>, name: Seq<char>) -> Option<TagModel>
    decreases entries.len(),
{
    if entries.len() == 0 {
        None
    } else if entries.first().name == name {
        Some(entries.first())
    } else {
        entry_named(entries.drop_first(), name)
    }
}

/// Whether `at` is the index of the first `name` in `names`.
pub open spec fn is_first_occurrence(names: Seq<Seq<char>>, name: Seq<char>, at: int) -> bool {
    &&& 0 <= at < names.len()
    &&& names[at] == name
    &&& forall|k: int| 0 <= k < at ==> names[k] != name
}

/// The index of the first `name` in `names`, where it occurs.
pub open spec fn first_occurrence(names: Seq<Seq<char>>, name: Seq<char>) -> int {
    choose|at: int| is_first_occurrence(names, name, at)
}

/// What holds of every ledger: each entry carries the version that its
/// name denotes, the versions ascend, and no name occurs twice.
pub open spec fn is_ledger(entries: Seq<TagModel>) -> bool {
    &&& forall|i: int|
        0 <= i < entries.len() ==> version_of_v_tag((#[trigger] entries[i]).name) == Some(
            entries[i].version,
        )
    &&& forall|i: int, j: int|
        0 <= i < j < entries.len() ==> (#[trigger] entries[i]).version.at_most(
            (#[trigger] entries[j]).version,
        )
    &&& forall|i: int, j: int|
        0 <= i < j < entries.len() ==> (#[trigger] entries[i]).name != (#[trigger] entries[j]).name
}

/// Whether `entries` is the ledger of the tags named `names`: it holds
/// exactly the names among them that denote a version, and entries of the
/// same version stand in the order in which their names first occur.
pub open spec fn is_ledger_of(entries: Seq<TagModel>, names: Seq<Seq<char>>) -> bool {
    &&& is_ledger(entries)
    &&& forall|name: Seq<char>|
        holds_name(entries, name) <==> #[trigger] names.contains(name) && version_of_v_tag(name)
            is Some
    &&& forall|i: int, j: int|
        0 <= i < j < entries.len() && (#[trigger] entries[i]).version == (
        #[trigger] entries[j]).version ==> first_occurrence(names, entries[i].name)
            < first_occurrence(names, entries[j].name)
}

/// The base that a release is computed from: the entry named
/// `previous_tag` where one is given, and nothing where no entry has that
/// name; else the last entry, which has the greatest version; else the base
/// of a history without releases.
pub open spec fn base_of(entries: Seq<TagModel>, previous_tag: Option<Seq<char>>) -> Option<
    TagModel,
> {
    match previous_tag {
        Some(name) => entry_named(entries, name),
        None => if entries.len() == 0 {
            Some(root_base())
        } else {
            Some(entries.last())
        },
    }
}

/// The ledger of the tags named `names`.
pub open spec fn ledger_of(names: Seq<Seq<char>>) -> Seq<TagModel> {
    choose|entries: Seq<TagModel>| is_ledger_of(entries, names)
}

/// The base that a release is computed from, among the tags named `names`.
pub open spec fn base_among(names: Seq<Seq<char>>, previous_tag: Option<Seq<char>>) -> Option<
    TagModel,
> {
    base_of(ledger_of(names), previous_tag)
}

/// What the loop that fills a ledger keeps true once it has seen the first
/// `seen` names.
spec fn is_ledger_so_far(entries: Seq<TagModel>, names: Seq<Seq<char>>, seen: int) -> bool {
    &&& is_ledger(entries)
    &&& forall|i: int|
        0 <= i < entries.len() ==> is_first_occurrence(
            names,
            (#[trigger] entries[i]).name,
            first_occurrence(names, entries[i].name),
        ) && first_occurrence(names, entries[i].name) < seen
    &&& forall|k: int|
        0 <= k < seen && version_of_v_tag(#[trigger] names[k]) is Some ==> holds_name(
            entries,
            names[k],
        )
    &&& forall|i: int, j: int|
        0 <= i < j < entries.len() && (#[trigger] entries[i]).version == (
        #[trigger] entries[j]).version ==> first_occurrence(names, entries[i].name)
            < first_occurrence(names, entries[j].name)
}

/// A name that is not in the ledger goes in behind every entry whose
/// version is not greater.
proof fn lemma_insert(
    entries: Seq<TagModel>,
    names: Seq<Seq<char>>,
    seen: int,
    at: int,
    entry: TagModel,
)
    requires
        is_ledger_so_far(entries, names, seen),
        0 <= seen < names.len(),
        entry.name == names[seen],
        version_of_v_tag(entry.name) == Some(entry.version),
        !holds_name(entries, entry.name),
        0 <= at <= entries.len(),
        forall|i: int| 0 <= i < at ==> (#[trigger] entries[i]).version.at_most(entry.version),
        forall|i: int|
            at <= i < entries.len() ==> entry.version.precedes((#[trigger] entries[i]).version),
    ensures
        is_ledger_so_far(entries.insert(at, entry), names, seen + 1),
{
    let grown = entries.insert(at, entry);
    assert(is_first_occurrence(names, entry.name, seen));
    assert forall|k: int|
        0 <= k < seen + 1 && version_of_v_tag(#[trigger] names[k]) is Some implies holds_name(
        grown,
        names[k],
    ) by {
        if k == seen {
            assert(grown[at].name == names[k]);
        } else {
            let i = choose|i: int|
                0 <= i < entries.len() && (#[trigger] entries[i]).name == names[k];
            let moved = if i < at {
                i
            } else {
                i + 1
            };
            assert(grown[moved].name == names[k]);
        }
    }
}

impl Ledger {
    /// Whether an entry has the given name.
    pub fn has_name(&self, name: &str) -> (found: bool)
        ensures
            found == holds_name(self.deep_view(), name@),
    {
        let mut k: usize = 0;
        while k < self.entries.len()
            invariant
                k <= self.entries.len(),
                forall|i: int| 0 <= i < k ==> (#[trigger] self.deep_view()[i]).name != name@,
            decreases self.entries.len() - k,
        {
            if same_text(self.entries[k].name.as_str(), name) {
                assert(self.deep_view()[k as int].name == name@);
                return true;
            }
            k += 1;
        }
        false
    }

    /// The index behind the entries whose version is not greater than
    /// `version`.
    fn insertion_point(&self, version: &SemanticVersion) -> (at: usize)
        requires
            is_ledger(self.deep_view()),
        ensures
            at <= self.entries.len(),
            forall|i: int|
                0 <= i < at ==> (#[trigger] self.deep_view()[i]).version.at_most(*version),
            forall|i: int|
                at <= i < self.entries.len() ==> version.precedes(
                    (#[trigger] self.deep_view()[i]).version,
                ),
    {
        let mut at: usize = 0;
        while at < self.entries.len() && !version.is_before(&self.entries[at].version)
            invariant
                at <= self.entries.len(),
                forall|i: int|
                    0 <= i < at ==> (#[trigger] self.deep_view()[i]).version.at_most(*version),
            decreases self.entries.len() - at,
        {
            at += 1;
        }
        assert(at < self.entries.len() ==> version.precedes(self.deep_view()[at as int].version));
        at
    }

    /// The ledger of the tags named `names`: the names that are a `v`
    /// followed by a semantic version, each once, in ascending order of
    /// version. Names of the same version stand in the order in which they
    /// first occur in `names`.
    pub fn from_tag_names(names: &Vec<String>) -> (ledger: Ledger)
        ensures
            is_ledger_of(ledger.deep_view(), names.deep_view()),
    {
        let mut ledger = Ledger { entries: Vec::new() };
        let ghost all = names.deep_view();
        let mut k: usize = 0;
        while k < names.len()
            invariant
                k <= names.len(),
                all == names.deep_view(),
                is_ledger_so_far(ledger.deep_view(), all, k as int),
            decreases names.len() - k,
        {
            let name = &names[k];
            let ghost before = ledger.deep_view();
            match SemanticVersion::parse_v_tag(name.as_str()) {
                None => {},
                Some(version) => {
                    if !ledger.has_name(name.as_str()) {
                        let at = ledger.insertion_point(&version);
                        let entry = TagEntry { version, name: name.clone() };
                        ledger.entries.insert(at, entry);
                        proof {
                            assert(ledger.deep_view() =~= before.insert(
                                at as int,
                                entry.deep_view(),
                            ));
                            lemma_insert(before, all, k as int, at as int, entry.deep_view());
                        }
                    }
                },
            }
            k += 1;
        }
        ledger
    }

    /// The first entry with the given name, if there is one.
    pub fn find(&self, name: &str) -> (found: Option<TagEntry>)
        ensures
            found.deep_view() == entry_named(self.deep_view(), name@),
    {
        let ghost all = self.deep_view();
        let mut k: usize = 0;
        assert(all.skip(0) =~= all);
        while k < self.entries.len()
            invariant
                k <= self.entries.len(),
                all == self.deep_view(),
                entry_named(all, name@) == entry_named(all.skip(k as int), name@),
            decreases self.entries.len() - k,
        {
            let entry = &self.entries[k];
            assert(all.skip(k as int).drop_first() =~= all.skip(k + 1));
            if same_text(entry.name.as_str(), name) {
                return Some(TagEntry { version: entry.version, name: entry.name.clone() });
            }
            k += 1;
        }
        None
    }

    /// The base that a release is computed from: the entry named
    /// `previous_tag` where one is given; else the entry of the greatest
    /// version; else, in a ledger without entries, version `0.0.0` and an
    /// empty tag name, which stands for the root of the history.
    pub fn resolve_base(&self, previous_tag: Option<&str>) -> (base: Result<TagEntry, ReleaseError>)
        ensures
            (match base_of(
                self.deep_view(),
                match previous_tag {
                    Some(name) => Some(name@),
                    None => None,
                },
            ) {
                Some(entry) => base matches Ok(found) && found.deep_view() == entry,
                None => base matches Err(error) && previous_tag matches Some(name)
                    && error.deep_view() == (ReleaseErrorModel::UnknownTag { tag: name@ }),
            }),
    {
        match previous_tag {
            Some(name) => match self.find(name) {
                Some(entry) => Ok(entry),
                None => Err(ReleaseError::UnknownTag { tag: String::from_str(name) }),
            },
            None => {
                let count = self.entries.len();
                if count == 0 {
                    Ok(TagEntry { version: SemanticVersion::new(0, 0, 0), name: String::new() })
                } else {
                    let last = &self.entries[count - 1];
                    Ok(TagEntry { version: last.version, name: last.name.clone() })
                }
            },
        }
    }
}

/// The names decide the base: any two ledgers of the same names give the
/// same base, so the base of a ledger of `names` is the base among `names`.
pub proof fn lemma_base_is_determined(
    entries: Seq<TagModel>,
    names: Seq<Seq<char>>,
    previous_tag: Option<Seq<char>>,
)
    requires
        is_ledger_of(entries, names),
    ensures
        base_of(entries, previous_tag) == base_among(names, previous_tag),
{
    let other = ledger_of(names);
    assert(is_ledger_of(other, names));
    match previous_tag {
        Some(name) => {
            lemma_ledger_base(entries, name);
            lemma_ledger_base(other, name);
            assert(holds_name(entries, name) ==> names.contains(name));
            assert(holds_name(other, name) ==> names.contains(name));
            if holds_name(entries, name) {
                let mine = entry_named(entries, name).unwrap();
                let theirs = entry_named(other, name).unwrap();
                assert(mine.name == theirs.name);
                assert(mine.version == theirs.version);
                assert(mine == theirs);
            } else {
                assert(entry_named(entries, name) is None);
                assert(entry_named(other, name) is None);
            }
            assert(base_of(entries, previous_tag) == entry_named(entries, name));
            assert(base_among(names, previous_tag) == entry_named(other, name));
        },
        None => {
            if entries.len() > 0 {
                assert(holds_name(entries, entries[0].name));
                assert(names.contains(entries[0].name));
                assert(holds_name(other, entries[0].name));
            }
            if other.len() > 0 {
                assert(holds_name(other, other[0].name));
                assert(names.contains(other[0].name));
                assert(holds_name(entries, other[0].name));
            }
            if entries.len() > 0 && other.len() > 0 {
                let a = entries.last();
                let b = other.last();
                assert(holds_name(entries, entries[entries.len() - 1].name));
                assert(holds_name(other, other[other.len() - 1].name));
                assert(names.contains(a.name) && names.contains(b.name));
                let i = choose|i: int|
                    0 <= i < entries.len() && (#[trigger] entries[i]).name == b.name;
                let j = choose|j: int| 0 <= j < other.len() && (#[trigger] other[j]).name == a.name;
                assert(entries[i].version == b.version);
                assert(other[j].version == a.version);
                if i < entries.len() - 1 {
                    assert(entries[i].version.at_most(entries[entries.len() - 1].version));
                }
                if j < other.len() - 1 {
                    assert(other[j].version.at_most(other[other.len() - 1].version));
                }
                assert(a.version == b.version);
                if a.name != b.name {
                    assert(first_occurrence(names, b.name) < first_occurrence(names, a.name));
                    assert(first_occurrence(names, a.name) < first_occurrence(names, b.name));
                }
                assert(a == b);
            }
        },
    }
}

/// In a ledger, the entry found under a name carries the version that the
/// name denotes, and the last entry has the greatest version.
pub proof fn lemma_ledger_base(entries: Seq<TagModel>, name: Seq<char>)
    requires
        is_ledger(entries),
    ensures
        entry_named(entries, name) matches Some(entry) ==> entry.name == name
            && version_of_v_tag(name) == Some(entry.version),
        entry_named(entries, name) is Some <==> holds_name(entries, name),
        forall|i: int|
            0 <= i < entries.len() ==> (#[trigger] entries[i]).version.at_most(
                entries.last().version,
            ),
    decreases entries.len(),
{
    if entries.len() > 0 {
        let rest = entries.drop_first();
        lemma_ledger_base(rest, name);
        if holds_name(entries, name) {
            let i = choose|i: int| 0 <= i < entries.len() && (#[trigger] entries[i]).name == name;
            if i > 0 {
                assert(rest[i - 1].name == name);
            }
        }
    }
}

} // verus!
