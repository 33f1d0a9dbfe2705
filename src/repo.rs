//! The version-control commands run on a journal's working tree.

use vstd::prelude::*;
use vstd::string::StringExecFns;

verus! {

/// A journal's working tree.
#[derive(Debug)]
pub struct Repo {
    path: String,
}

pub open spec fn strs(s: Seq<String>) -> Seq<Seq<char>> {
    s.map_values(|x: String| x@)
}

pub open spec fn git_prefix(path: Seq<char>) -> Seq<Seq<char>> {
    seq!["git"@, "-C"@, path]
}

impl Repo {
    /// The working tree's directory.
    pub closed spec fn dir(&self) -> Seq<char> {
        self.path@
    }

    pub fn new(path: &str) -> (r: Repo)
        ensures
            r.dir() == path@,
    {
        Repo { path: String::from_str(path) }
    }

    /// The program and arguments of a git command run in the working tree.
    fn cmd_builder(&self, git_cmd: &str) -> (r: Vec<String>)
        ensures
            strs(r@) == git_prefix(self.dir()) + seq![git_cmd@],
    {
        let mut r: Vec<String> = Vec::new();
        r.push(String::from_str("git"));
        r.push(String::from_str("-C"));
        r.push(self.path.clone());
        r.push(String::from_str(git_cmd));
        assert(strs(r@) =~= git_prefix(self.dir()) + seq![git_cmd@]);
        r
    }

    /// `git -C <dir> pull`
    pub fn pull(&self) -> (r: Vec<String>)
        ensures
            strs(r@) == git_prefix(self.dir()) + seq!["pull"@],
    {
        self.cmd_builder("pull")
    }

    /// `git -C <dir> add <file>`
    pub fn add(&self, file_path: &str) -> (r: Vec<String>)
        ensures
            strs(r@) == git_prefix(self.dir()) + seq!["add"@, file_path@],
    {
        let mut r = self.cmd_builder("add");
        let ghost b = strs(r@);
        r.push(String::from_str(file_path));
        assert(strs(r@) =~= b.push(file_path@));
        assert(git_prefix(self.dir()) + seq!["add"@, file_path@] =~= b.push(file_path@));
        r
    }

    /// `git -C <dir> commit --message <msg>`
    pub fn commit(&self, msg: &str) -> (r: Vec<String>)
        ensures
            strs(r@) == git_prefix(self.dir()) + seq!["commit"@, "--message"@, msg@],
    {
        let mut r = self.cmd_builder("commit");
        let ghost b = strs(r@);
        r.push(String::from_str("--message"));
        r.push(String::from_str(msg));
        assert(strs(r@) =~= b.push("--message"@).push(msg@));
        assert(git_prefix(self.dir()) + seq!["commit"@, "--message"@, msg@] =~= b.push(
            "--message"@,
        ).push(msg@));
        r
    }

    /// `git -C <dir> push`
    pub fn push(&self) -> (r: Vec<String>)
        ensures
            strs(r@) == git_prefix(self.dir()) + seq!["push"@],
    {
        self.cmd_builder("push")
    }
}

} // verus!
