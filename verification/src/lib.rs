//! Release automation for a repository hosted on Gitee.
//!
//! The library derives the next semantic version and a changelog from the
//! commit history by the Conventional Commits convention, and decides every
//! step of publishing the release and its artifacts. It reads no repository
//! and sends no request itself: [`gitee::create_release`] begins a run, and
//! [`gitee::Publisher::step`] takes it on from the outcome of each action
//! that the caller performs.
//!
//! - [`version`]: semantic versions, read from text by `semver`;
//! - [`ledger`]: the version tags of a repository and the base of a release;
//! - [`history`]: commits, and which walk over the history to ask for;
//! - [`conventional`]: classification of commits, the bump they ask for and
//!   the changelog;
//! - [`gitee`]: the run of a release as a machine of states;
//! - [`error`], [`messages`], [`status`]: what is told of a run and how;
//! - [`args`]: the options of a run;
//! - [`text`]: text as sequences of characters.

pub mod args;
pub mod conventional;
pub mod error;
pub mod gitee;
pub mod history;
pub mod ledger;
pub mod messages;
pub mod status;
pub mod text;
pub mod version;
