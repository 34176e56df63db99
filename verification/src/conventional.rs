//! Release notes from commit history by the Conventional Commits
//! convention: each commit is classified by its summary, the classes that
//! occur decide the next version, and the changelog lists them by class.

use crate::error::{ReleaseError, ReleaseErrorModel};
use crate::history::{all_wf, CommitModel, CommitRecord};
use crate::text::{
    begins_with, chars_of, contains, contains_chars, find_char, first_index_of, joined,
    slice_text, trim_prefix, trim_suffix, trimmed_end, trimmed_start,
};
use crate::version::{
    dotted, lemma_text_denotes_version, refusal_of, strip_v, version_of_tag, without_v,
    SemanticVersion, VersionBump,
};
use vstd::prelude::*;

verus! {

/// The description of a release: its tag, its name and its changelog.
#[derive(Clone, Debug)]
pub struct ReleaseInfo {
    pub tag_name: String,
    pub name: String,
    pub body: String,
}

/// A [`ReleaseInfo`] with its texts as sequences of characters.
pub struct ReleaseInfoModel {
    pub tag_name: Seq<char>,
    pub name: Seq<char>,
    pub body: Seq<char>,
}

impl DeepView for ReleaseInfo {
    type V = ReleaseInfoModel;

    open spec fn deep_view(&self) -> ReleaseInfoModel {
        ReleaseInfoModel { tag_name: self.tag_name@, name: self.name@, body: self.body@ }
    }
}

/// What a commit means for a release.
#[derive(Clone, Copy, Debug, PartialEq, Eq, Structural)]
pub enum CommitCategory {
    /// It breaks what users rely on.
    Breaking,
    /// It adds a feature.
    Feature,
    /// It fixes a bug.
    Fix,
    /// It is none of these; it shows in no changelog and moves no version.
    Unclassified,
}

/// The category of a commit with the given summary. A breaking marker
/// anywhere in the summary outweighs what the summary starts with.
pub open spec fn category_of(summary: Seq<char>) -> CommitCategory {
    if contains(summary, "BREAKING CHANGE"@) || contains(summary, "!:"@) {
        CommitCategory::Breaking
    } else if "feat"@.is_prefix_of(summary) {
        CommitCategory::Feature
    } else if "fix"@.is_prefix_of(summary) {
        CommitCategory::Fix
    } else {
        CommitCategory::Unclassified
    }
}

/// The commits of one category, in the order of the walk.
pub open spec fn of_category(commits: Seq<CommitModel>, category: CommitCategory) -> Seq<
    CommitModel,
>
    decreases commits.len(),
{
    if commits.len() == 0 {
        Seq::empty()
    } else {
        let earlier = of_category(commits.drop_last(), category);
        if category_of(commits.last().summary) == category {
            earlier.push(commits.last())
        } else {
            earlier
        }
    }
}

/// Whether a commit of the given category is among `commits`.
pub open spec fn has_category(commits: Seq<CommitModel>, category: CommitCategory) -> bool {
    exists|k: int|
        0 <= k < commits.len() && category_of((#[trigger] commits[k]).summary) == category
}

/// The bump that `commits` ask for: major for any breaking change, else
/// minor for any feature, else patch for any fix, else none.
pub open spec fn bump_for(commits: Seq<CommitModel>) -> VersionBump {
    if has_category(commits, CommitCategory::Breaking) {
        VersionBump::Major
    } else if has_category(commits, CommitCategory::Feature) {
        VersionBump::Minor
    } else if has_category(commits, CommitCategory::Fix) {
        VersionBump::Patch
    } else {
        VersionBump::Nothing
    }
}

/// The heading of the section of breaking changes.
pub open spec fn breaking_heading() -> Seq<char> {
    "## ‚ö† BREAKING CHANGES\n"@
}

/// The heading of the section of features.
pub open spec fn features_heading() -> Seq<char> {
    "## ‚ú® Features\n"@
}

/// The heading of the section of fixes.
pub open spec fn fixes_heading() -> Seq<char> {
    "## \u{f8ff}üêõ Bug Fixes\n"@
}

/// The changelog line of one commit: its summary, and its identifier cut
/// to seven digits as a link to the commit.
pub open spec fn bullet(commit: CommitModel, url_base: Seq<char>) -> Seq<char> {
    "- "@ + commit.summary + " (["@ + commit.sha.take(7) + "]("@ + url_base + "/commit/"@
        + commit.sha + "))\n"@
}

/// The changelog lines of `commits`, in order.
pub open spec fn bullets(commits: Seq<CommitModel>, url_base: Seq<char>) -> Seq<char>
    decreases commits.len(),
{
    if commits.len() == 0 {
        Seq::empty()
    } else {
        bullets(commits.drop_last(), url_base) + bullet(commits.last(), url_base)
    }
}

/// A section of the changelog: the heading, a line for each commit and an
/// empty line; nothing at all where there are no commits.
pub open spec fn section(heading: Seq<char>, commits: Seq<CommitModel>, url_base: Seq<char>) -> Seq<
    char,
> {
    if commits.len() == 0 {
        Seq::empty()
    } else {
        heading + bullets(commits, url_base) + "\n"@
    }
}

/// The changelog of `commits`: breaking changes, then features, then fixes.
pub open spec fn changelog(commits: Seq<CommitModel>, url_base: Seq<char>) -> Seq<char> {
    classified(commits).changelog(url_base)
}

/// The version of the release: the one given by hand, read with or without
/// a leading `v`, where there is one; else the base moved on by the bump
/// that the commits ask for. Nothing where the version given by hand is no
/// semantic version.
pub open spec fn next_version(
    base: SemanticVersion,
    commits: Seq<CommitModel>,
    manual_version: Option<Seq<char>>,
) -> Option<SemanticVersion> {
    match manual_version {
        Some(text) => version_of_tag(text),
        None => Some(base.bumped(bump_for(commits))),
    }
}

/// The version of the release as the release shows it: the one given by
/// hand as it was given, but for a leading `v`; else the numeral of the
/// computed version. Nothing where the version given by hand is no semantic
/// version.
pub open spec fn next_version_text(
    base: SemanticVersion,
    commits: Seq<CommitModel>,
    manual_version: Option<Seq<char>>,
) -> Option<Seq<char>> {
    match manual_version {
        Some(text) => if version_of_tag(text) is Some {
            Some(without_v(text))
        } else {
            None
        },
        None => Some(base.bumped(bump_for(commits)).text()),
    }
}

/// The error for a version given by hand that is no semantic version: it
/// holds the text as it was given, and what `semver` finds wrong with it.
pub open spec fn refused_version(manual_version: Option<Seq<char>>) -> Option<ReleaseErrorModel> {
    match manual_version {
        Some(text) => if version_of_tag(text) is None {
            Some(ReleaseErrorModel::InvalidVersion { text, detail: refusal_of(without_v(text)) })
        } else {
            None
        },
        None => None,
    }
}

/// The description of the release that shows its version as `version`,
/// with the changes of `commits`.
pub open spec fn release_info(
    version: Seq<char>,
    commits: Seq<CommitModel>,
    url_base: Seq<char>,
) -> ReleaseInfoModel {
    ReleaseInfoModel {
        tag_name: "v"@ + version,
        name: "Release "@ + version,
        body: changelog(commits, url_base),
    }
}

/// The address under which the commits of a repository are shown, from the
/// address of its remote. `git@HOST:PATH` becomes `https://HOST/PATH`; an
/// address that starts with `http` stays; both lose every `.git` they end
/// in. Any other address stays as it is.
pub open spec fn commit_url_base_of(origin: Seq<char>) -> Seq<char> {
    if "git@"@.is_prefix_of(origin) {
        let rest = trim_prefix(origin, "git@"@);
        match first_index_of(rest, ':') {
            Some(colon) => "https://"@ + rest.take(colon) + "/"@ + trim_suffix(
                rest.skip(colon + 1),
                ".git"@,
            ),
            None => origin,
        }
    } else if "http"@.is_prefix_of(origin) {
        trim_suffix(origin, ".git"@)
    } else {
        origin
    }
}

/// A text that may be absent, as a sequence of characters.
pub open spec fn given(text: Option<&str>) -> Option<Seq<char>> {
    match text {
        Some(text) => Some(text@),
        None => None,
    }
}

/// The category of a commit with the given summary.
pub fn classify(summary: &str) -> (category: CommitCategory)
    ensures
        category == category_of(summary@),
        contains(summary@, "BREAKING CHANGE"@) || contains(summary@, "!:"@) ==> category
            == CommitCategory::Breaking,
{
    let text = chars_of(summary);
    if contains_chars(&text, &chars_of("BREAKING CHANGE")) || contains_chars(
        &text,
        &chars_of("!:"),
    ) {
        CommitCategory::Breaking
    } else if begins_with(&text, &chars_of("feat")) {
        CommitCategory::Feature
    } else if begins_with(&text, &chars_of("fix")) {
        CommitCategory::Fix
    } else {
        CommitCategory::Unclassified
    }
}

/// The commits of a history by category, each list in the order of the
/// walk. Commits of no category are in none of them.
#[derive(Clone, Debug)]
pub struct ClassifiedCommits {
    pub breaking: Vec<CommitRecord>,
    pub features: Vec<CommitRecord>,
    pub fixes: Vec<CommitRecord>,
}

/// A [`ClassifiedCommits`] with its texts as sequences of characters.
pub struct ClassifiedModel {
    pub breaking: Seq<CommitModel>,
    pub features: Seq<CommitModel>,
    pub fixes: Seq<CommitModel>,
}

impl DeepView for ClassifiedCommits {
    type V = ClassifiedModel;

    open spec fn deep_view(&self) -> ClassifiedModel {
        ClassifiedModel {
            breaking: self.breaking.deep_view(),
            features: self.features.deep_view(),
            fixes: self.fixes.deep_view(),
        }
    }
}

impl ClassifiedModel {
    /// Whether every commit in the lists has an identifier of forty
    /// hexadecimal digits.
    pub open spec fn wf(self) -> bool {
        all_wf(self.breaking) && all_wf(self.features) && all_wf(self.fixes)
    }

    /// The bump that the lists ask for, by the first of them that is not
    /// empty.
    pub open spec fn bump(self) -> VersionBump {
        if self.breaking.len() > 0 {
            VersionBump::Major
        } else if self.features.len() > 0 {
            VersionBump::Minor
        } else if self.fixes.len() > 0 {
            VersionBump::Patch
        } else {
            VersionBump::Nothing
        }
    }

    /// The changelog of the lists: a section for each that is not empty.
    pub open spec fn changelog(self, url_base: Seq<char>) -> Seq<char> {
        section(breaking_heading(), self.breaking, url_base) + section(
            features_heading(),
            self.features,
            url_base,
        ) + section(fixes_heading(), self.fixes, url_base)
    }
}

/// The commits of a history by category.
pub open spec fn classified(commits: Seq<CommitModel>) -> ClassifiedModel {
    ClassifiedModel {
        breaking: of_category(commits, CommitCategory::Breaking),
        features: of_category(commits, CommitCategory::Feature),
        fixes: of_category(commits, CommitCategory::Fix),
    }
}

/// A commit is in the list of a category exactly if it is in the history
/// and of that category; so the list is empty exactly if the history has
/// no such commit.
pub proof fn lemma_of_category(commits: Seq<CommitModel>, category: CommitCategory)
    ensures
        of_category(commits, category).len() > 0 <==> has_category(commits, category),
        all_wf(commits) ==> all_wf(of_category(commits, category)),
    decreases commits.len(),
{
    if commits.len() > 0 {
        let earlier = commits.drop_last();
        lemma_of_category(earlier, category);
        if has_category(commits, category) {
            let k = choose|k: int|
                0 <= k < commits.len() && category_of((#[trigger] commits[k]).summary) == category;
            if k < commits.len() - 1 {
                assert(category_of(earlier[k].summary) == category);
            }
        }
    }
}

/// Adds a copy of `commit` to `list`.
fn push_commit(list: &mut Vec<CommitRecord>, commit: &CommitRecord)
    ensures
        final(list).deep_view() == old(list).deep_view().push(commit.deep_view()),
{
    list.push(CommitRecord { sha: commit.sha.clone(), summary: commit.summary.clone() });
}

/// Sorts the commits of a history into the three categories that a
/// changelog shows, keeping the order of the walk in each.
pub fn classify_commits(commits: &Vec<CommitRecord>) -> (groups: ClassifiedCommits)
    ensures
        groups.deep_view() == classified(commits.deep_view()),
{
    let mut breaking: Vec<CommitRecord> = Vec::new();
    let mut features: Vec<CommitRecord> = Vec::new();
    let mut fixes: Vec<CommitRecord> = Vec::new();
    let ghost all = commits.deep_view();
    let mut k: usize = 0;
    while k < commits.len()
        invariant
            k <= commits.len(),
            all == commits.deep_view(),
            breaking.deep_view() == of_category(all.take(k as int), CommitCategory::Breaking),
            features.deep_view() == of_category(all.take(k as int), CommitCategory::Feature),
            fixes.deep_view() == of_category(all.take(k as int), CommitCategory::Fix),
        decreases commits.len() - k,
    {
        let commit = &commits[k];
        proof {
            let seen = all.take(k + 1);
            assert(seen.drop_last() =~= all.take(k as int));
        }
        match classify(commit.summary.as_str()) {
            CommitCategory::Breaking => push_commit(&mut breaking, commit),
            CommitCategory::Feature => push_commit(&mut features, commit),
            CommitCategory::Fix => push_commit(&mut fixes, commit),
            CommitCategory::Unclassified => {},
        }
        k += 1;
    }
    assert(all.take(k as int) =~= all);
    ClassifiedCommits { breaking, features, fixes }
}

/// The lists of a history ask for the bump that the history asks for, and
/// hold well-formed commits where the history does.
pub proof fn lemma_classified(commits: Seq<CommitModel>)
    ensures
        classified(commits).bump() == bump_for(commits),
        all_wf(commits) ==> classified(commits).wf(),
{
    lemma_of_category(commits, CommitCategory::Breaking);
    lemma_of_category(commits, CommitCategory::Feature);
    lemma_of_category(commits, CommitCategory::Fix);
}

/// Appends the changelog line of `commit` to `out`.
fn push_bullet(out: &mut String, commit: &CommitRecord, url_base: &str)
    requires
        commit.deep_view().wf(),
    ensures
        final(out)@ == old(out)@ + bullet(commit.deep_view(), url_base@),
{
    out.append("- ");
    out.append(commit.summary.as_str());
    out.append(" ([");
    out.append(commit.sha.as_str().substring_char(0, 7));
    out.append("](");
    out.append(url_base);
    out.append("/commit/");
    out.append(commit.sha.as_str());
    out.append("))\n");
}

/// Appends a section of the changelog to `out`.
fn push_section(out: &mut String, heading: &str, commits: &Vec<CommitRecord>, url_base: &str)
    requires
        all_wf(commits.deep_view()),
    ensures
        final(out)@ == old(out)@ + section(heading@, commits.deep_view(), url_base@),
{
    let ghost all = commits.deep_view();
    if commits.len() == 0 {
        return ;
    }
    out.append(heading);
    let mut k: usize = 0;
    while k < commits.len()
        invariant
            k <= commits.len(),
            all == commits.deep_view(),
            all_wf(all),
            out@ == old(out)@ + heading@ + bullets(all.take(k as int), url_base@),
        decreases commits.len() - k,
    {
        proof {
            let seen = all.take(k + 1);
            assert(seen.drop_last() =~= all.take(k as int));
            assert(seen.last() == commits[k as int].deep_view());
        }
        push_bullet(out, &commits[k], url_base);
        k += 1;
    }
    assert(all.take(k as int) =~= all);
    out.append("\n");
}

impl ClassifiedCommits {
    /// The bump that the lists ask for.
    pub fn bump(&self) -> (bump: VersionBump)
        ensures
            bump == self.deep_view().bump(),
    {
        if self.breaking.len() > 0 {
            VersionBump::Major
        } else if self.features.len() > 0 {
            VersionBump::Minor
        } else if self.fixes.len() > 0 {
            VersionBump::Patch
        } else {
            VersionBump::Nothing
        }
    }

    /// The changelog of the lists, with links below `url_base`.
    pub fn changelog(&self, url_base: &str) -> (body: String)
        requires
            self.deep_view().wf(),
        ensures
            body@ == self.deep_view().changelog(url_base@),
    {
        let mut body = String::new();
        push_section(&mut body, "## ‚ö† BREAKING CHANGES\n", &self.breaking, url_base);
        push_section(&mut body, "## ‚ú® Features\n", &self.features, url_base);
        push_section(&mut body, "## \u{f8ff}üêõ Bug Fixes\n", &self.fixes, url_base);
        body
    }
}

/// The description of the next release after `base`, from the commits
/// since then, oldest first. A `manual_version` takes the place of the
/// computed version and shows in the release as it was given, but for a
/// leading `v`; it is refused where it is no semantic version.
pub fn generate_release_info(
    base: &SemanticVersion,
    commits: &Vec<CommitRecord>,
    manual_version: Option<&str>,
    commit_url_base: &str,
) -> (result: Result<ReleaseInfo, ReleaseError>)
    requires
        all_wf(commits.deep_view()),
        manual_version is None ==> base.allows(bump_for(commits.deep_view())),
    ensures
        (match next_version_text(*base, commits.deep_view(), given(manual_version)) {
            Some(version) => result matches Ok(info) && info.deep_view() == release_info(
                version,
                commits.deep_view(),
                commit_url_base@,
            ),
            None => result matches Err(error) && Some(error.deep_view()) == refused_version(
                given(manual_version),
            ),
        }),
        result matches Ok(info) ==> version_of_tag(info.tag_name@) is Some && version_of_tag(
            info.tag_name@,
        ) == next_version(*base, commits.deep_view(), given(manual_version)),
{
    let groups = classify_commits(commits);
    proof {
        lemma_classified(commits.deep_view());
        lemma_tag_of_release(*base, commits.deep_view(), given(manual_version), commit_url_base@);
    }
    let version = match manual_version {
        Some(text) => {
            let shown = strip_v(text);
            match SemanticVersion::parse(shown) {
                Ok(_) => String::from_str(shown),
                Err(invalid) => {
                    return Err(
                        ReleaseError::InvalidVersion {
                            text: String::from_str(text),
                            detail: invalid.detail,
                        },
                    );
                },
            }
        },
        None => base.bump(groups.bump()).render(),
    };
    let tag_name = joined("v", version.as_str());
    let name = joined("Release ", version.as_str());
    let body = groups.changelog(commit_url_base);
    Ok(ReleaseInfo { tag_name, name, body })
}

/// The address under which the commits of a repository are shown, from the
/// address of its remote.
pub fn commit_url_base(origin: &str) -> (url_base: String)
    ensures
        url_base@ == commit_url_base_of(origin@),
{
    let chars = chars_of(origin);
    let suffix = chars_of(".git");
    let marker = chars_of("git@");
    if begins_with(&chars, &marker) {
        let start = trimmed_start(&chars, &marker);
        let rest = slice_text(origin, start, chars.len());
        let rest_chars = chars_of(rest.as_str());
        match find_char(&rest_chars, ':') {
            Some(colon) => {
                let path = slice_text(rest.as_str(), colon + 1, rest_chars.len());
                let path_chars = chars_of(path.as_str());
                let end = trimmed_end(&path_chars, &suffix);
                let mut url_base = String::from_str("https://");
                url_base.append(rest.as_str().substring_char(0, colon));
                url_base.append("/");
                url_base.append(path.as_str().substring_char(0, end));
                url_base
            },
            None => String::from_str(origin),
        }
    } else if begins_with(&chars, &chars_of("http")) {
        let end = trimmed_end(&chars, &suffix);
        slice_text(origin, 0, end)
    } else {
        String::from_str(origin)
    }
}

/// A summary with a breaking marker is classified as breaking, whatever it
/// starts with.
pub proof fn lemma_breaking_marker_wins(summary: Seq<char>)
    requires
        contains(summary, "BREAKING CHANGE"@) || contains(summary, "!:"@),
    ensures
        category_of(summary) == CommitCategory::Breaking,
{
}

/// A history with a breaking change gets a major bump, whatever else is in
/// it.
pub proof fn lemma_breaking_outranks(commits: Seq<CommitModel>, breaking: int)
    requires
        0 <= breaking < commits.len(),
        category_of(commits[breaking].summary) == CommitCategory::Breaking,
    ensures
        bump_for(commits) == VersionBump::Major,
{
}

/// The tag of a generated release is its version with a `v` before it,
/// and reads back as the version of the release: no generated tag is
/// refused as a tag.
pub proof fn lemma_tag_of_release(
    base: SemanticVersion,
    commits: Seq<CommitModel>,
    manual_version: Option<Seq<char>>,
    url_base: Seq<char>,
)
    ensures
        next_version_text(base, commits, manual_version) matches Some(version) ==> {
            let tag = release_info(version, commits, url_base).tag_name;
            &&& tag == "v"@ + version
            &&& version_of_tag(tag) is Some
            &&& version_of_tag(tag) == next_version(base, commits, manual_version)
        },
{
    if next_version_text(base, commits, manual_version) is Some {
        let version = next_version_text(base, commits, manual_version).unwrap();
        reveal_strlit("v");
        let tag = "v"@ + version;
        assert(without_v(tag) =~= version);
        if manual_version is None {
            lemma_text_denotes_version(base.bumped(bump_for(commits)));
        }
    }
}

/// Classifying the same history again gives the same lists and the same
/// changelog.
pub proof fn lemma_classification_repeats(
    first: Seq<CommitModel>,
    second: Seq<CommitModel>,
    url_base: Seq<char>,
)
    requires
        first == second,
    ensures
        classified(first) == classified(second),
        changelog(first, url_base) == changelog(second, url_base),
{
}

/// A history without commits moves the patch number on by one and gives an
/// empty changelog, without any heading.
pub proof fn lemma_empty_history(base: SemanticVersion, url_base: Seq<char>)
    requires
        base.patch < u64::MAX,
    ensures
        next_version(base, Seq::empty(), None) == Some(
            SemanticVersion {
                major: base.major,
                minor: base.minor,
                patch: (base.patch + 1) as u64,
            },
        ),
        next_version_text(base, Seq::empty(), None) == Some(
            dotted(base.major, base.minor, (base.patch + 1) as u64),
        ),
        changelog(Seq::empty(), url_base) == Seq::<char>::empty(),
{
}

} // verus!
