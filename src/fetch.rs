//! Template mode: a fresh repository takes a fetched template's tree as its
//! single commit, whose message records where the tree came from.
//!
//! The caller carries out each [`TemplateAction`] with version control and
//! hands back what the command printed, where the next step needs it: the
//! fetched commit's hash after `ReadFetchedHash`, the new commit's hash after
//! `CommitTree`.
use vstd::prelude::*;
use crate::args::SubmoduleSetup;
use crate::template::{template_commit_message, template_commit_message_spec};

verus! {

/// What the caller is to do next in template mode.
#[derive(Debug, PartialEq, Eq)]
pub enum TemplateAction {
    /// Create a repository at the root, whether or not one exists.
    GitInit,
    /// Fetch the template with the most recent history only.
    FetchShallow { url: String, branch: Option<String> },
    /// Report the hash of the fetched head.
    ReadFetchedHash,
    /// Create a commit without parent from the fetched head's tree, with this
    /// message, and report its hash.
    CommitTree { message: String },
    /// Reset the head, index and working tree to this commit.
    ResetHard { commit: String },
    /// Set up the template's submodules.
    Submodules(SubmoduleSetup),
    /// Stop: the repository stands.
    Finish,
}

/// Where a template-mode run stands.
#[derive(Clone, Copy, Debug, PartialEq, Eq)]
pub enum TemplateStage {
    Start,
    AwaitInit,
    AwaitFetch,
    AwaitHash,
    AwaitCommit,
    AwaitReset,
    AwaitSubmodules,
    Finished,
}

/// One template-mode run in progress.
pub struct TemplateSession {
    /// The resolved URL of the template.
    pub url: String,
    /// The branch to fetch, or the default one.
    pub branch: Option<String>,
    /// Whether submodules are only registered.
    pub shallow: bool,
    /// The message of the collapsed commit, once the fetched hash is known.
    pub message: String,
    pub stage: TemplateStage,
}

fn clone_branch(b: &Option<String>) -> (r: Option<String>)
    ensures
        r == *b,
{
    match b {
        Some(s) => Some(s.clone()),
        None => None,
    }
}

impl TemplateSession {
    /// A run that fetches `url`, at `branch` if one is given.
    pub fn new(url: String, branch: Option<String>, shallow: bool) -> (r: TemplateSession)
        ensures
            r.url == url,
            r.branch == branch,
            r.shallow == shallow,
            r.stage == TemplateStage::Start,
    {
        TemplateSession { url, branch, shallow, message: String::new(), stage: TemplateStage::Start }
    }

    /// Takes what the last command printed, where the step needs it, and
    /// returns what the caller is to do next. Without the output it needs, a
    /// step stays where it is and repeats its action.
    pub fn step(&mut self, output: Option<String>) -> (a: TemplateAction)
        ensures
            final(self).url == old(self).url,
            final(self).branch == old(self).branch,
            final(self).shallow == old(self).shallow,
            old(self).stage == TemplateStage::Start ==> final(self).stage
                == TemplateStage::AwaitInit && a == TemplateAction::GitInit,
            old(self).stage == TemplateStage::AwaitInit ==> final(self).stage
                == TemplateStage::AwaitFetch && a == (TemplateAction::FetchShallow {
                url: old(self).url,
                branch: old(self).branch,
            }),
            old(self).stage == TemplateStage::AwaitFetch ==> final(self).stage
                == TemplateStage::AwaitHash && a == TemplateAction::ReadFetchedHash,
            old(self).stage != TemplateStage::AwaitHash || output is None ==> final(self).message
                == old(self).message,
            old(self).stage == TemplateStage::AwaitHash && output is None ==> final(self).stage
                == TemplateStage::AwaitHash && a == TemplateAction::ReadFetchedHash,
            old(self).stage == TemplateStage::AwaitHash && output is Some ==> final(self).stage
                == TemplateStage::AwaitCommit && final(self).message@
                == template_commit_message_spec(old(self).url@, output->Some_0@) && a == (
            TemplateAction::CommitTree { message: final(self).message }),
            old(self).stage == TemplateStage::AwaitCommit && output is None ==> final(self).stage
                == TemplateStage::AwaitCommit && a == (TemplateAction::CommitTree {
                message: old(self).message,
            }),
            old(self).stage == TemplateStage::AwaitCommit && output is Some ==> final(self).stage
                == TemplateStage::AwaitReset && a == (TemplateAction::ResetHard {
                commit: output->Some_0,
            }),
            old(self).stage == TemplateStage::AwaitReset ==> final(self).stage
                == TemplateStage::AwaitSubmodules && a == TemplateAction::Submodules(
                if old(self).shallow {
                    SubmoduleSetup::InitOnly
                } else {
                    SubmoduleSetup::UpdateRecursive
                },
            ),
            old(self).stage == TemplateStage::AwaitSubmodules || old(self).stage
                == TemplateStage::Finished ==> final(self).stage == TemplateStage::Finished && a
                == TemplateAction::Finish,
    {
        match self.stage {
            TemplateStage::Start => {
                self.stage = TemplateStage::AwaitInit;
                TemplateAction::GitInit
            },
            TemplateStage::AwaitInit => {
                self.stage = TemplateStage::AwaitFetch;
                TemplateAction::FetchShallow {
                    url: self.url.clone(),
                    branch: clone_branch(&self.branch),
                }
            },
            TemplateStage::AwaitFetch => {
                self.stage = TemplateStage::AwaitHash;
                TemplateAction::ReadFetchedHash
            },
            TemplateStage::AwaitHash => match output {
                Some(hash) => {
                    self.message = template_commit_message(self.url.as_str(), hash.as_str());
                    self.stage = TemplateStage::AwaitCommit;
                    TemplateAction::CommitTree { message: self.message.clone() }
                },
                None => TemplateAction::ReadFetchedHash,
            },
            TemplateStage::AwaitCommit => match output {
                Some(commit) => {
                    self.stage = TemplateStage::AwaitReset;
                    TemplateAction::ResetHard { commit }
                },
                None => TemplateAction::CommitTree { message: self.message.clone() },
            },
            TemplateStage::AwaitReset => {
                self.stage = TemplateStage::AwaitSubmodules;
                if self.shallow {
                    TemplateAction::Submodules(SubmoduleSetup::InitOnly)
                } else {
                    TemplateAction::Submodules(SubmoduleSetup::UpdateRecursive)
                }
            },
            TemplateStage::AwaitSubmodules | TemplateStage::Finished => {
                self.stage = TemplateStage::Finished;
                TemplateAction::Finish
            },
        }
    }
}

} // verus!
