//! Where the files of a generated project go.

use vstd::prelude::*;

verus! {

/// The directories and files of a generated project.
#[derive(Clone, Debug, PartialEq, Eq)]
pub struct ProjectPaths {
    /// The project's directory.
    pub root: String,
    /// The package manifest, in the project's directory.
    pub manifest: String,
    /// The directory of the sources, in the project's directory.
    pub source_dir: String,
    /// The main source file, in the directory of the sources.
    pub source: String,
}

/// The mathematical value of a [`ProjectPaths`].
pub struct ProjectPathsView {
    pub root: Seq<char>,
    pub manifest: Seq<char>,
    pub source_dir: Seq<char>,
    pub source: Seq<char>,
}

impl View for ProjectPaths {
    type V = ProjectPathsView;

    open spec fn view(&self) -> ProjectPathsView {
        ProjectPathsView {
            root: self.root@,
            manifest: self.manifest@,
            source_dir: self.source_dir@,
            source: self.source@,
        }
    }
}

/// The paths of the project `project_name`: a directory of that name under
/// the current one, with the manifest in it and the main source file in its
/// directory of sources. The name is taken as it is.
pub open spec fn paths_for(project_name: Seq<char>) -> ProjectPathsView {
    let root = "./"@ + project_name;
    ProjectPathsView {
        root,
        manifest: root + "/Cargo.toml"@,
        source_dir: root + "/src"@,
        source: root + "/src"@ + "/main.rs"@,
    }
}

/// The paths of the project `project_name`.
pub fn project_paths(project_name: &str) -> (r: ProjectPaths)
    ensures
        r@ == paths_for(project_name@),
{
    let mut root = String::from_str("./");
    root.append(project_name);
    let mut manifest = root.clone();
    manifest.append("/Cargo.toml");
    let mut source_dir = root.clone();
    source_dir.append("/src");
    let mut source = source_dir.clone();
    source.append("/main.rs");
    ProjectPaths { root, manifest, source_dir, source }
}

} // verus!
