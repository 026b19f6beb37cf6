//! Releases, their tags and assets, and the repositories they come from.

use vstd::prelude::*;

use crate::paths::{split, split_on};

verus! {

/// A GitHub repository, `owner/repo`.
#[derive(Debug, Clone)]
pub struct Repository {
    pub owner: String,
    pub repo: String,
}

/// The error for text that does not name a repository.
pub open spec fn invalid_repository_error() -> Seq<char> {
    "Invalid repository. Use the following format: <owner>/<repo>"@
}

impl Repository {
    /// Reads `owner/repo`: exactly one `/`, with text on both sides.
    pub fn try_parse(text: &str) -> (r: Result<Repository, String>)
        ensures
            match r {
                Ok(repo) => split_on(text@, '/').len() == 2 && repo.owner@ == split_on(text@, '/')[0]
                    && repo.repo@ == split_on(text@, '/')[1] && repo.owner@.len() > 0
                    && repo.repo@.len() > 0,
                Err(e) => e@ == invalid_repository_error() && !(split_on(text@, '/').len() == 2
                    && split_on(text@, '/')[0].len() > 0 && split_on(text@, '/')[1].len() > 0),
            },
    {
        let mut parts = split(text, '/');
        assert(crate::paths::views(parts@) == split_on(text@, '/'));
        if parts.len() == 2 {
            assert(split_on(text@, '/')[1] == parts@[1]@);
            assert(split_on(text@, '/')[0] == parts@[0]@);
            let repo = parts.pop().unwrap();
            let owner = parts.pop().unwrap();
            if owner.unicode_len() > 0 && repo.unicode_len() > 0 {
                return Ok(Repository { owner, repo });
            }
        }
        Err(String::from_str("Invalid repository. Use the following format: <owner>/<repo>"))
    }
}

/// A release tag, such as `v1.2.0`.
#[derive(Debug, Clone)]
pub struct Tag(pub String);

/// A downloadable file of a release.
#[derive(Debug, Clone)]
pub struct Asset {
    pub name: String,
    pub download_url: String,
}

/// A release: its tag and its assets.
#[derive(Debug, Clone)]
pub struct Release {
    pub tag: Tag,
    pub assets: Vec<Asset>,
}

} // verus!
