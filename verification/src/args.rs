//! What a run is asked to do.

use vstd::prelude::*;

verus! {

/// The options of one run.
#[derive(Clone, Debug)]
pub struct Args {
    /// Repository owner.
    pub owner: String,
    /// Repository name.
    pub repo: String,
    /// Personal access token.
    pub token: String,
    /// Path to the repository whose history is analysed.
    pub repo_path: String,
    /// Tag to start the analysis from; the latest version tag when absent.
    pub previous_tag: Option<String>,
    /// Tag name such as `v1.0.0`; with generated notes, the version to use
    /// in place of the computed one.
    pub tag_name: Option<String>,
    /// Release name; not used with generated notes.
    pub name: Option<String>,
    /// Release description; not used with generated notes.
    pub body: Option<String>,
    /// Target commit or branch.
    pub target_commitish: String,
    /// Whether the release is a draft.
    pub draft: bool,
    /// Whether the release is a pre-release.
    pub prerelease: bool,
    /// Language of the messages, such as `en-us` or `zh-cn`.
    pub lang: String,
    /// Paths of the files to attach to the release.
    pub artifacts: Option<Vec<String>>,
    /// Whether tag, name and description are generated from the history.
    pub auto_gen_notes: bool,
}

/// An [`Args`] with its texts as sequences of characters.
pub struct ArgsModel {
    pub owner: Seq<char>,
    pub repo: Seq<char>,
    pub token: Seq<char>,
    pub repo_path: Seq<char>,
    pub previous_tag: Option<Seq<char>>,
    pub tag_name: Option<Seq<char>>,
    pub name: Option<Seq<char>>,
    pub body: Option<Seq<char>>,
    pub target_commitish: Seq<char>,
    pub draft: bool,
    pub prerelease: bool,
    pub lang: Seq<char>,
    pub artifacts: Option<Seq<Seq<char>>>,
    pub auto_gen_notes: bool,
}

impl DeepView for Args {
    type V = ArgsModel;

    open spec fn deep_view(&self) -> ArgsModel {
        ArgsModel {
            owner: self.owner@,
            repo: self.repo@,
            token: self.token@,
            repo_path: self.repo_path@,
            previous_tag: self.previous_tag.deep_view(),
            tag_name: self.tag_name.deep_view(),
            name: self.name.deep_view(),
            body: self.body.deep_view(),
            target_commitish: self.target_commitish@,
            draft: self.draft,
            prerelease: self.prerelease,
            lang: self.lang@,
            artifacts: self.artifacts.deep_view(),
            auto_gen_notes: self.auto_gen_notes,
        }
    }
}

impl ArgsModel {
    /// The artifact paths, none where no artifacts were asked for.
    pub open spec fn artifact_paths(self) -> Seq<Seq<char>> {
        match self.artifacts {
            Some(paths) => paths,
            None => Seq::empty(),
        }
    }
}

} // verus!
