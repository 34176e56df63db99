//! Commits as the walk over the history hands them in, and which walk to
//! ask for.

use crate::text::chars_of;
use vstd::prelude::*;

verus! {

/// A commit: its identifier and the first line of its message.
#[derive(Clone, Debug)]
pub struct CommitRecord {
    pub sha: String,
    pub summary: String,
}

/// A [`CommitRecord`] with its texts as sequences of characters.
pub struct CommitModel {
    pub sha: Seq<char>,
    pub summary: Seq<char>,
}

impl DeepView for CommitRecord {
    type V = CommitModel;

    open spec fn deep_view(&self) -> CommitModel {
        CommitModel { sha: self.sha@, summary: self.summary@ }
    }
}

/// Whether `c` is a hexadecimal digit, in either case.
pub open spec fn is_hex_digit(c: char) -> bool {
    ||| '0' <= c <= '9'
    ||| 'a' <= c <= 'f'
    ||| 'A' <= c <= 'F'
}

/// Whether `sha` is an identifier of forty hexadecimal digits.
pub open spec fn is_commit_id(sha: Seq<char>) -> bool {
    &&& sha.len() == 40
    &&& forall|k: int| 0 <= k < sha.len() ==> is_hex_digit(#[trigger] sha[k])
}

impl CommitModel {
    /// Whether the identifier of the commit is one of forty hexadecimal
    /// digits.
    pub open spec fn wf(self) -> bool {
        is_commit_id(self.sha)
    }
}

/// Whether every commit of `commits` has an identifier of forty hexadecimal
/// digits.
pub open spec fn all_wf(commits: Seq<CommitModel>) -> bool {
    forall|k: int| 0 <= k < commits.len() ==> (#[trigger] commits[k]).wf()
}

/// Whether `sha` is an identifier of forty hexadecimal digits.
pub fn is_valid_commit_id(sha: &str) -> (ok: bool)
    ensures
        ok == is_commit_id(sha@),
{
    let chars = chars_of(sha);
    if chars.len() != 40 {
        return false;
    }
    let mut k: usize = 0;
    while k < chars.len()
        invariant
            k <= chars.len(),
            chars@ == sha@,
            forall|j: int| 0 <= j < k ==> is_hex_digit(#[trigger] sha@[j]),
        decreases chars.len() - k,
    {
        let c = chars[k];
        let hex = ('0' <= c && c <= '9') || ('a' <= c && c <= 'f') || ('A' <= c && c <= 'F');
        if !hex {
            return false;
        }
        k += 1;
    }
    true
}

impl CommitRecord {
    /// The commit with the given identifier and summary, where the
    /// identifier is one of forty hexadecimal digits.
    pub fn new(sha: &str, summary: &str) -> (commit: Option<CommitRecord>)
        ensures
            (match commit {
                Some(commit) => is_commit_id(sha@) && commit.deep_view() == (CommitModel {
                    sha: sha@,
                    summary: summary@,
                }),
                None => !is_commit_id(sha@),
            }),
    {
        if is_valid_commit_id(sha) {
            Some(CommitRecord { sha: String::from_str(sha), summary: String::from_str(summary) })
        } else {
            None
        }
    }

    /// Whether the identifier of the commit is one of forty hexadecimal
    /// digits.
    pub fn is_well_formed(&self) -> (ok: bool)
        ensures
            ok == self.deep_view().wf(),
    {
        is_valid_commit_id(self.sha.as_str())
    }
}

/// Whether every commit of `commits` has an identifier of forty hexadecimal
/// digits.
pub fn all_well_formed(commits: &Vec<CommitRecord>) -> (ok: bool)
    ensures
        ok == all_wf(commits.deep_view()),
{
    let mut k: usize = 0;
    while k < commits.len()
        invariant
            k <= commits.len(),
            forall|j: int| 0 <= j < k ==> (#[trigger] commits.deep_view()[j]).wf(),
        decreases commits.len() - k,
    {
        if !commits[k].is_well_formed() {
            assert(!commits.deep_view()[k as int].wf());
            return false;
        }
        k += 1;
    }
    true
}

/// The walk over the history that a release is computed from.
#[derive(Clone, Debug)]
pub enum WalkRequest {
    /// Every ancestor of `target`, and `target` itself.
    FullAncestry { target: String },
    /// The commits named by `range`, which has the form `BASE..TARGET`:
    /// those that `TARGET` reaches and `BASE` does not.
    Range { range: String },
}

/// A [`WalkRequest`] with its texts as sequences of characters.
pub enum WalkRequestModel {
    FullAncestry { target: Seq<char> },
    Range { range: Seq<char> },
}

impl DeepView for WalkRequest {
    type V = WalkRequestModel;

    open spec fn deep_view(&self) -> WalkRequestModel {
        match self {
            WalkRequest::FullAncestry { target } => WalkRequestModel::FullAncestry {
                target: target@,
            },
            WalkRequest::Range { range } => WalkRequestModel::Range { range: range@ },
        }
    }
}

/// The walk from the release tagged `base_tag` to `target`: the whole
/// ancestry of `target` where `base_tag` is empty, which stands for no
/// release so far.
pub open spec fn walk_for(base_tag: Seq<char>, target: Seq<char>) -> WalkRequestModel {
    if base_tag.len() == 0 {
        WalkRequestModel::FullAncestry { target }
    } else {
        WalkRequestModel::Range { range: base_tag + ".."@ + target }
    }
}

/// The walk from the release tagged `base_tag` to `target`.
pub fn walk_request(base_tag: &str, target: &str) -> (request: WalkRequest)
    ensures
        request.deep_view() == walk_for(base_tag@, target@),
{
    if base_tag.is_empty() {
        WalkRequest::FullAncestry { target: String::from_str(target) }
    } else {
        let mut range = String::from_str(base_tag);
        range.append("..");
        range.append(target);
        WalkRequest::Range { range }
    }
}

} // verus!
