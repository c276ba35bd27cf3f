//! The coordinator's side of a search: the options of a run, the author
//! line, the check for a clean working tree, the team of workers, and the
//! texts that the commit is stored with.

use crate::candidate::SearchSpec;
use crate::timestamp::Timestamp;
use crate::worker::Worker;
use vstd::prelude::*;
use vstd::string::StringExecFns;
use vstd::utf8::encode_utf8;

verus! {

/// A file that is new in the working tree.
pub const WT_NEW: u32 = 0x80;

/// A file that is modified in the working tree.
pub const WT_MODIFIED: u32 = 0x100;

/// A file that is deleted from the working tree.
pub const WT_DELETED: u32 = 0x200;

/// A file whose type changed in the working tree.
pub const WT_TYPECHANGE: u32 = 0x400;

/// A file that is renamed in the working tree.
pub const WT_RENAMED: u32 = 0x800;

/// The status flags that mark a change of the working tree against the index.
pub const WT_CHANGES: u32 = WT_NEW | WT_MODIFIED | WT_DELETED | WT_TYPECHANGE | WT_RENAMED;

/// What a run is started with.
pub struct Options {
    /// Number of workers.
    pub threads: u32,
    /// The hexadecimal prefix that the commit's identifier shall begin with.
    pub target: String,
    /// The commit message.
    pub message: String,
    /// Path of the repository.
    pub repo: String,
    /// The time that the commit carries.
    pub timestamp: Timestamp,
}

/// The coordinator of a search: the options of the run and the author line
/// that the repository's configuration gave.
pub struct Gitminer {
    opts: Options,
    author: String,
}

/// Whether status flags show a change of the working tree that is not in the
/// index: a file that is new, modified, deleted, renamed or of another type.
pub open spec fn spec_unstaged(status: u32) -> bool {
    ||| status & WT_NEW != 0
    ||| status & WT_MODIFIED != 0
    ||| status & WT_DELETED != 0
    ||| status & WT_RENAMED != 0
    ||| status & WT_TYPECHANGE != 0
}

/// Testing the flags one by one is testing them all at once against their
/// union.
pub proof fn lemma_unstaged_by_mask(status: u32)
    ensures
        spec_unstaged(status) <==> status & WT_CHANGES != 0,
{
    assert(WT_CHANGES == 0xf80) by (bit_vector);
    assert((status & 0x80 != 0 || status & 0x100 != 0 || status & 0x200 != 0 || status & 0x800 != 0
        || status & 0x400 != 0) <==> status & 0xf80 != 0) by (bit_vector);
}

/// The author line of a name and an e-mail address.
pub open spec fn spec_author_line(name: Seq<char>, email: Seq<char>) -> Seq<char> {
    name + " <"@ + email + ">"@
}

/// The path of the file that holds the object content of commit `hash` until
/// it is stored.
pub open spec fn spec_temp_path(hash: Seq<char>) -> Seq<char> {
    "/tmp/"@ + hash + ".tmp"@
}

/// The shell command that stores the content in `tmpfile` as a commit object
/// of the repository at `repo` and moves the branch to `hash`.
pub open spec fn spec_commit_script(repo: Seq<char>, tmpfile: Seq<char>, hash: Seq<char>) -> Seq<
    char,
> {
    "cd "@ + repo + " && git hash-object -t commit -w --stdin < "@ + tmpfile
        + " && git reset --hard "@ + hash
}

impl Gitminer {
    /// The options of the run.
    pub closed spec fn options(&self) -> Options {
        self.opts
    }

    /// The author line.
    pub closed spec fn author(&self) -> Seq<char> {
        self.author@
    }

    /// The fixed data that every worker of this run searches with, for the
    /// staged tree and the parent commit that the repository gave.
    pub open spec fn search_spec(&self, tree: Seq<char>, parent: Seq<char>) -> SearchSpec {
        SearchSpec {
            tree_id: encode_utf8(tree),
            parent_id: encode_utf8(parent),
            author_line: encode_utf8(self.author()),
            message: encode_utf8(self.options().message@),
            timestamp: self.options().timestamp.spec_render(),
            target_prefix: encode_utf8(self.options().target@),
        }
    }

    /// A coordinator for `opts`, with the author line of the configured user
    /// name and e-mail address.
    pub fn new(opts: Options, name: &str, email: &str) -> (miner: Gitminer)
        ensures
            miner.options() == opts,
            miner.author() == spec_author_line(name@, email@),
    {
        Gitminer { opts, author: Gitminer::author_line(name, email) }
    }

    /// The author line: the name, then the e-mail address in angle brackets.
    pub fn author_line(name: &str, email: &str) -> (line: String)
        ensures
            line@ == spec_author_line(name@, email@),
    {
        let mut line = String::from_str(name);
        line.append(" <");
        line.append(email);
        line.append(">");
        line
    }

    /// Refuses a working tree in which a file is new, modified, deleted,
    /// renamed or of another type than in the index. `statuses` holds the
    /// status flags of the repository's files.
    pub fn ensure_no_unstaged_changes(statuses: &[u32]) -> (outcome: Result<(), &'static str>)
        ensures
            outcome is Err <==> exists|i: int|
                0 <= i < statuses@.len() && spec_unstaged(#[trigger] statuses@[i]),
            outcome matches Err(reason) ==> reason@
                == "Please stash all unstaged changes before running."@,
    {
        let mut i: usize = 0;
        while i < statuses.len()
            invariant
                i <= statuses@.len(),
                forall|j: int| 0 <= j < i ==> !spec_unstaged(#[trigger] statuses@[j]),
            decreases statuses.len() - i,
        {
            proof {
                lemma_unstaged_by_mask(statuses@[i as int]);
            }
            if statuses[i] & WT_CHANGES != 0 {
                return Err("Please stash all unstaged changes before running.");
            }
            i += 1;
        }
        Ok(())
    }

    /// The workers of the run: as many as the options ask for, the worker at
    /// position `i` with index `i`, all with the same fixed data.
    pub fn workers(&self, tree: &str, parent: &str) -> (team: Vec<Worker>)
        ensures
            team@.len() == self.options().threads,
            forall|i: int|
                0 <= i < team@.len() ==> {
                    &&& (#[trigger] team@[i]).id() == i
                    &&& team@[i].search_spec() == self.search_spec(tree@, parent@)
                },
    {
        let mut team: Vec<Worker> = Vec::new();
        let mut i: u32 = 0;
        while i < self.opts.threads
            invariant
                i <= self.opts.threads,
                team@.len() == i,
                forall|k: int|
                    0 <= k < team@.len() ==> {
                        &&& (#[trigger] team@[k]).id() == k
                        &&& team@[k].search_spec() == self.search_spec(tree@, parent@)
                    },
            decreases self.opts.threads - i,
        {
            let worker = Worker::new(
                i,
                self.opts.target.clone(),
                String::from_str(tree),
                String::from_str(parent),
                self.author.clone(),
                self.opts.message.clone(),
                self.opts.timestamp,
            );
            team.push(worker);
            i += 1;
        }
        team
    }

    /// The path of the file that holds the winning content until it is
    /// stored.
    pub fn temp_path(hash: &str) -> (path: String)
        ensures
            path@ == spec_temp_path(hash@),
    {
        let mut path = String::from_str("/tmp/");
        path.append(hash);
        path.append(".tmp");
        path
    }

    /// The shell command that stores the content in `tmpfile` as a commit
    /// object and moves the current branch to `hash`.
    pub fn commit_script(&self, tmpfile: &str, hash: &str) -> (script: String)
        ensures
            script@ == spec_commit_script(self.options().repo@, tmpfile@, hash@),
    {
        let mut script = String::from_str("cd ");
        script.append(self.opts.repo.as_str());
        script.append(" && git hash-object -t commit -w --stdin < ");
        script.append(tmpfile);
        script.append(" && git reset --hard ");
        script.append(hash);
        script
    }
}

} // verus!
