//! The fixed layout of a new project: which directories are created and which
//! embedded file goes where, for each language variant.
use vstd::prelude::*;
use vstd::string::*;

verus! {

/// An embedded file, named by its role; the caller holds the contents.
#[derive(Clone, Copy, Debug, PartialEq, Eq)]
pub enum Asset {
    SolidityContract,
    SolidityTest,
    SolidityScript,
    SolidityReadme,
    SolidityWorkflow,
    VyperContract,
    VyperInterface,
    VyperDeployer,
    VyperTest,
    VyperScript,
    VyperReadme,
    VyperWorkflow,
    /// The Vyper configuration; see [`vyper_config`].
    VyperConfig,
    /// The default configuration, derived by the configuration loader.
    DefaultConfig,
    Gitignore,
}

/// A file of the scaffold: its path relative to the root and what it holds.
#[derive(Clone, Debug, PartialEq, Eq)]
pub struct ScaffoldFile {
    pub path: String,
    pub asset: Asset,
}

/// The directories of a new project, in order of creation.
pub open spec fn scaffold_dirs_spec(vyper: bool) -> Seq<Seq<char>> {
    let common = seq!["src"@, "test"@, "script"@];
    if vyper {
        common + seq!["src/interface"@, "src/utils"@]
    } else {
        common
    }
}

/// The files of a new project, in order of writing.
pub open spec fn scaffold_files_spec(vyper: bool) -> Seq<(Seq<char>, Asset)> {
    if vyper {
        seq![
            ("test/Counter.t.sol"@, Asset::VyperTest),
            ("script/Counter.s.sol"@, Asset::VyperScript),
            ("README.md"@, Asset::VyperReadme),
            ("src/Counter.vy"@, Asset::VyperContract),
            ("src/interface/ICounter.sol"@, Asset::VyperInterface),
            ("src/utils/VyperDeployer.sol"@, Asset::VyperDeployer),
        ]
    } else {
        seq![
            ("test/Counter.t.sol"@, Asset::SolidityTest),
            ("script/Counter.s.sol"@, Asset::SolidityScript),
            ("README.md"@, Asset::SolidityReadme),
            ("src/Counter.sol"@, Asset::SolidityContract),
        ]
    }
}

/// The configuration of a Vyper project: the default layout, with calls to
/// outside programs enabled.
pub open spec fn vyper_config_spec() -> Seq<char> {
    "[profile.default]\nsrc = \"src\"\nout = \"out\"\nlibs = [\"lib\"]\nffi = true\n\n# See more config options https://github.com/foundry-rs/foundry/blob/master/crates/config/README.md#all-options"@
}

/// The text of the Vyper project's configuration file.
pub fn vyper_config() -> (r: String)
    ensures
        r@ == vyper_config_spec(),
{
    String::from_str(
        "[profile.default]\nsrc = \"src\"\nout = \"out\"\nlibs = [\"lib\"]\nffi = true\n\n# See more config options https://github.com/foundry-rs/foundry/blob/master/crates/config/README.md#all-options",
    )
}

/// The path and role of a scaffold file.
pub open spec fn file_view(f: ScaffoldFile) -> (Seq<char>, Asset) {
    (f.path@, f.asset)
}

/// The directories to create, each idempotently.
pub fn scaffold_dirs(vyper: bool) -> (r: Vec<String>)
    ensures
        r@.map_values(|s: String| s@) == scaffold_dirs_spec(vyper),
{
    let mut r: Vec<String> = Vec::new();
    r.push(String::from_str("src"));
    r.push(String::from_str("test"));
    r.push(String::from_str("script"));
    if vyper {
        r.push(String::from_str("src/interface"));
        r.push(String::from_str("src/utils"));
    }
    assert(r@.map_values(|s: String| s@) =~= scaffold_dirs_spec(vyper));
    r
}

fn file(path: &str, asset: Asset) -> (f: ScaffoldFile)
    ensures
        file_view(f) == (path@, asset),
{
    ScaffoldFile { path: String::from_str(path), asset }
}

/// The files to write, each over whatever stands at its path.
pub fn scaffold_files(vyper: bool) -> (r: Vec<ScaffoldFile>)
    ensures
        r@.map_values(|f: ScaffoldFile| file_view(f)) == scaffold_files_spec(vyper),
{
    let mut r: Vec<ScaffoldFile> = Vec::new();
    if vyper {
        r.push(file("test/Counter.t.sol", Asset::VyperTest));
        r.push(file("script/Counter.s.sol", Asset::VyperScript));
        r.push(file("README.md", Asset::VyperReadme));
        r.push(file("src/Counter.vy", Asset::VyperContract));
        r.push(file("src/interface/ICounter.sol", Asset::VyperInterface));
        r.push(file("src/utils/VyperDeployer.sol", Asset::VyperDeployer));
    } else {
        r.push(file("test/Counter.t.sol", Asset::SolidityTest));
        r.push(file("script/Counter.s.sol", Asset::SolidityScript));
        r.push(file("README.md", Asset::SolidityReadme));
        r.push(file("src/Counter.sol", Asset::SolidityContract));
    }
    assert(r@.map_values(|f: ScaffoldFile| file_view(f)) =~= scaffold_files_spec(vyper));
    r
}

/// The path of a file that is written only where none exists.
pub open spec fn guarded_path_spec(g: crate::session::Guarded) -> Seq<char> {
    match g {
        crate::session::Guarded::Config => "foundry.toml"@,
        crate::session::Guarded::Gitignore => ".gitignore"@,
        crate::session::Guarded::Workflow => ".github/workflows/test.yml"@,
    }
}

/// What a file that is written only where none exists holds.
pub open spec fn guarded_asset_spec(g: crate::session::Guarded, vyper: bool) -> Asset {
    match g {
        crate::session::Guarded::Config => if vyper {
            Asset::VyperConfig
        } else {
            Asset::DefaultConfig
        },
        crate::session::Guarded::Gitignore => Asset::Gitignore,
        crate::session::Guarded::Workflow => if vyper {
            Asset::VyperWorkflow
        } else {
            Asset::SolidityWorkflow
        },
    }
}

/// The path and content of a file that is written only where none exists.
pub fn guarded_file(g: crate::session::Guarded, vyper: bool) -> (f: ScaffoldFile)
    ensures
        file_view(f) == (guarded_path_spec(g), guarded_asset_spec(g, vyper)),
{
    match g {
        crate::session::Guarded::Config => file(
            "foundry.toml",
            if vyper {
                Asset::VyperConfig
            } else {
                Asset::DefaultConfig
            },
        ),
        crate::session::Guarded::Gitignore => file(".gitignore", Asset::Gitignore),
        crate::session::Guarded::Workflow => file(
            ".github/workflows/test.yml",
            if vyper {
                Asset::VyperWorkflow
            } else {
                Asset::SolidityWorkflow
            },
        ),
    }
}

} // verus!
