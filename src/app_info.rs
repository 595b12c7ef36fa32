//! The application's identity.
use vstd::prelude::*;
use vstd::string::*;

verus! {

/// The inventory application.
pub struct App;

/// The label of a build: `version`, then in parentheses the build's commit
/// if known, else the CI commit if known, else "dev".
pub open spec fn version_label(
    version: Seq<char>,
    build_sha: Option<Seq<char>>,
    github_sha: Option<Seq<char>>,
) -> Seq<char> {
    let commit = match build_sha {
        Some(s) => s,
        None => match github_sha {
            Some(g) => g,
            None => "dev"@,
        },
    };
    version + " ("@ + commit + ")"@
}

pub open spec fn opt_str(o: Option<&str>) -> Option<Seq<char>> {
    match o {
        Some(s) => Some(s@),
        None => None,
    }
}

impl App {
    pub fn app_version(version: &str, build_sha: Option<&str>, github_sha: Option<&str>) -> (r: String)
        ensures
            r@ == version_label(version@, opt_str(build_sha), opt_str(github_sha)),
    {
        let commit = match build_sha {
            Some(s) => s,
            None => match github_sha {
                Some(g) => g,
                None => "dev",
            },
        };
        let mut label = String::from_str(version);
        label.append(" (");
        label.append(commit);
        label.append(")");
        label
    }
}

} // verus!
