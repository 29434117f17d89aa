//! The request of one initialisation.
use vstd::prelude::*;
use crate::session::InitFlags;
use crate::template::{resolve_template_url, template_url};

verus! {

/// How dependencies and version control are handled.
#[derive(Clone, Copy, Debug, Default, PartialEq, Eq)]
pub struct InstallOpts {
    /// Fetch only the most recent history.
    pub shallow: bool,
    /// Leave version control to the caller.
    pub no_git: bool,
    /// Commit everything once the scaffold stands.
    pub commit: bool,
}

/// The arguments of a project initialisation.
#[derive(Clone, Debug, Default)]
pub struct InitArgs {
    /// The root directory of the new project.
    pub root: String,
    /// The template to start from.
    pub template: Option<String>,
    /// The template's branch; only meaningful with a template.
    pub branch: Option<String>,
    /// Do not install dependencies from the network.
    pub offline: bool,
    /// Create the project even if the root directory is not empty.
    pub force: bool,
    /// Write editor settings and a remappings file.
    pub vscode: bool,
    /// Initialise a Vyper project.
    pub vyper: bool,
    pub install: InstallOpts,
}

/// How submodules of a fetched template are set up.
#[derive(Clone, Copy, Debug, PartialEq, Eq)]
pub enum SubmoduleSetup {
    /// Register them only, fetching nothing.
    InitOnly,
    /// Register and check them out, recursively.
    UpdateRecursive,
}

impl InitArgs {
    /// The choices of a default-mode run.
    pub fn flags(&self) -> (f: InitFlags)
        ensures
            f.offline == self.offline,
            f.force == self.force,
            f.vscode == self.vscode,
            f.vyper == self.vyper,
            f.no_git == self.install.no_git,
            f.commit == self.install.commit,
    {
        InitFlags {
            offline: self.offline,
            force: self.force,
            vscode: self.vscode,
            vyper: self.vyper,
            no_git: self.install.no_git,
            commit: self.install.commit,
        }
    }

    /// The URL of the template to fetch, where a template was given.
    pub fn template_url(&self) -> (r: Option<String>)
        ensures
            r is None <==> self.template is None,
            r matches Some(u) ==> u@ == template_url(self.template->Some_0@),
    {
        match &self.template {
            Some(t) => Some(resolve_template_url(t.as_str())),
            None => None,
        }
    }

    /// Submodules of a template are only registered on a shallow run.
    pub fn submodule_setup(&self) -> (r: SubmoduleSetup)
        ensures
            r == (if self.install.shallow {
                SubmoduleSetup::InitOnly
            } else {
                SubmoduleSetup::UpdateRecursive
            }),
    {
        if self.install.shallow {
            SubmoduleSetup::InitOnly
        } else {
            SubmoduleSetup::UpdateRecursive
        }
    }
}

} // verus!
