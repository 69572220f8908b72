use vstd::prelude::*;

use crate::config::DatabaseConfig;
use crate::error::Error;
use crate::manifest::{has_two_tokens, manifest_date, manifest_digest, parse_md5_file};

verus! {

/// Name of the data file, in the dated directory and as a pointer.
pub const DATA_FILE: &'static str = "clinvar.vcf.gz";

/// Name of the index file.
pub const INDEX_FILE: &'static str = "clinvar.vcf.gz.tbi";

/// Name of the checksum manifest.
pub const MANIFEST_FILE: &'static str = "clinvar.vcf.gz.md5";

/// The logical file names, in processing order: data, index, manifest.
pub open spec fn file_label(k: int) -> Seq<char> {
    if k == 0 {
        DATA_FILE@
    } else if k == 1 {
        INDEX_FILE@
    } else {
        MANIFEST_FILE@
    }
}

/// `a/b`.
pub open spec fn path_join(a: Seq<char>, b: Seq<char>) -> Seq<char> {
    a + seq!['/'] + b
}

/// Joins two path pieces with a `/`.
pub fn join_path(a: &str, b: &str) -> (r: String)
    ensures
        r@ == path_join(a@, b@),
{
    let mut r = String::from_str(a);
    proof {
        reveal_strlit("/");
    }
    r.append("/");
    r.append(b);
    r
}

fn label_of(k: usize) -> (r: &'static str)
    requires
        k < 3,
    ensures
        r@ == file_label(k as int),
{
    if k == 0 {
        DATA_FILE
    } else if k == 1 {
        INDEX_FILE
    } else {
        MANIFEST_FILE
    }
}

/// Where a realization stands. The index names the logical file being settled
/// (0 data, 1 index, 2 manifest).
#[derive(Clone, Copy, Debug, PartialEq, Eq, Structural)]
pub enum Stage {
    /// The manifest's text is being fetched.
    FetchManifest,
    /// The dated directory is being created.
    MakeDir,
    /// Whether the target file exists is being asked.
    Probe(usize),
    /// An existing data file is being checked against the expected digest.
    Recheck(usize),
    /// A stale data file is being removed before it is fetched again.
    Repair(usize),
    /// The file is being downloaded.
    Fetch(usize),
    /// A downloaded data file is being checked against the expected digest.
    PostCheck(usize),
    /// A downloaded data file with the wrong digest is being removed.
    Discard(usize),
    /// The pointer to the file is being inspected.
    PointerCheck(usize),
    /// The pointer is being (re)created.
    Linking(usize),
    /// Every file is settled and linked.
    Finished,
    /// The realization failed.
    Aborted,
}

/// What the caller observed after performing the last action.
#[derive(Debug)]
pub enum Event {
    /// The manifest's text.
    Text(String),
    /// The action completed.
    Done,
    /// Whether the probed file exists.
    Exists(bool),
    /// Whether the file's digest equals the expected one.
    Checked(bool),
    /// The file could not be read to compute its digest.
    CheckFailed(String),
    /// What the pointer path holds: whether anything resolves there, and whether it is a redirect.
    Pointer { present: bool, is_link: bool },
    /// The action failed.
    Failed(Error),
}

/// What the caller is asked to do next.
#[derive(Debug, PartialEq, Eq)]
pub enum Action {
    /// Fetch the text at `url` and report `Event::Text`.
    FetchText { url: String },
    /// Create the directory `path` with its parents; an existing one is fine.
    CreateDir { path: String },
    /// Report whether `path` exists.
    CheckFile { path: String },
    /// Report whether the content at `path` hashes to `expected`.
    Verify { path: String, expected: String },
    /// Delete the file at `path`.
    RemoveFile { path: String },
    /// Download `url` into `path`.
    Download { url: String, path: String },
    /// Report what the pointer at `path` holds.
    CheckPointer { path: String },
    /// Replace whatever is at `pointer` by a redirect to `target`.
    Link { target: String, pointer: String },
    /// The realization succeeded: `root` holds the pointers, `date` names the dated directory.
    Finish { root: String, date: String },
    /// The realization failed with this error.
    Abort(Error),
}

/// The stage after logical file `k` is settled and linked.
pub open spec fn after(k: usize) -> Stage {
    if k < 2 {
        Stage::Probe((k + 1) as usize)
    } else {
        Stage::Finished
    }
}

/// The stage that an event leads to, for every event but the manifest's text
/// and a failure; an event that does not answer the stage's action changes nothing.
pub open spec fn next_stage(st: Stage, e: Event) -> Stage {
    match st {
        Stage::MakeDir => match e {
            Event::Done => Stage::Probe(0),
            _ => st,
        },
        Stage::Probe(k) => match e {
            Event::Exists(present) => if !present {
                Stage::Fetch(k)
            } else if k == 0 {
                Stage::Recheck(k)
            } else {
                Stage::PointerCheck(k)
            },
            _ => st,
        },
        Stage::Recheck(k) => match e {
            Event::Checked(ok) => if ok {
                Stage::PointerCheck(k)
            } else {
                Stage::Repair(k)
            },
            Event::CheckFailed(_) => Stage::PointerCheck(k),
            _ => st,
        },
        Stage::Repair(k) => match e {
            Event::Done => Stage::Fetch(k),
            _ => st,
        },
        Stage::Fetch(k) => match e {
            Event::Done => if k == 0 {
                Stage::PostCheck(k)
            } else {
                Stage::PointerCheck(k)
            },
            _ => st,
        },
        Stage::PostCheck(k) => match e {
            Event::Checked(ok) => if ok {
                Stage::PointerCheck(k)
            } else {
                Stage::Discard(k)
            },
            Event::CheckFailed(_) => Stage::PointerCheck(k),
            _ => st,
        },
        Stage::Discard(_) => match e {
            Event::Done => Stage::Aborted,
            _ => st,
        },
        Stage::PointerCheck(k) => match e {
            Event::Pointer { present, is_link } => if !present || is_link {
                Stage::Linking(k)
            } else {
                after(k)
            },
            _ => st,
        },
        Stage::Linking(k) => match e {
            Event::Done => after(k),
            _ => st,
        },
        _ => st,
    }
}

fn next_of(k: usize) -> (n: Stage)
    requires
        k < 3,
    ensures
        n == after(k),
{
    if k < 2 {
        Stage::Probe(k + 1)
    } else {
        Stage::Finished
    }
}

fn advance(st: Stage, e: &Event) -> (r: Stage)
    requires
        match st {
            Stage::Probe(k) | Stage::Recheck(k) | Stage::Repair(k) | Stage::Fetch(k)
            | Stage::PostCheck(k) | Stage::Discard(k) | Stage::PointerCheck(k)
            | Stage::Linking(k) => k < 3,
            _ => true,
        },
    ensures
        r == next_stage(st, *e),
{
    match st {
        Stage::MakeDir => match e {
            Event::Done => Stage::Probe(0),
            _ => st,
        },
        Stage::Probe(k) => match e {
            Event::Exists(present) => if !*present {
                Stage::Fetch(k)
            } else if k == 0 {
                Stage::Recheck(k)
            } else {
                Stage::PointerCheck(k)
            },
            _ => st,
        },
        Stage::Recheck(k) => match e {
            Event::Checked(ok) => if *ok {
                Stage::PointerCheck(k)
            } else {
                Stage::Repair(k)
            },
            Event::CheckFailed(_) => Stage::PointerCheck(k),
            _ => st,
        },
        Stage::Repair(k) => match e {
            Event::Done => Stage::Fetch(k),
            _ => st,
        },
        Stage::Fetch(k) => match e {
            Event::Done => if k == 0 {
                Stage::PostCheck(k)
            } else {
                Stage::PointerCheck(k)
            },
            _ => st,
        },
        Stage::PostCheck(k) => match e {
            Event::Checked(ok) => if *ok {
                Stage::PointerCheck(k)
            } else {
                Stage::Discard(k)
            },
            Event::CheckFailed(_) => Stage::PointerCheck(k),
            _ => st,
        },
        Stage::Discard(_) => match e {
            Event::Done => Stage::Aborted,
            _ => st,
        },
        Stage::PointerCheck(k) => match e {
            Event::Pointer { present, is_link } => {
                let missing: bool = !*present;
                let redirect: bool = *is_link;
                if missing || redirect {
                    Stage::Linking(k)
                } else {
                    next_of(k)
                }
            },
            _ => st,
        },
        Stage::Linking(k) => match e {
            Event::Done => next_of(k),
            _ => st,
        },
        _ => st,
    }
}

/// A file already in place is not fetched again: a present index or manifest
/// goes straight to its pointer, and a present data file is only checked
/// again; when its digest matches, or cannot be computed, it goes to its
/// pointer as well. A pointer that is a real file is left alone.
pub proof fn lemma_present_file_kept(k: usize, m: String)
    requires
        k < 3,
    ensures
        next_stage(Stage::Probe(k), Event::Exists(true)) == if k == 0 {
            Stage::Recheck(k)
        } else {
            Stage::PointerCheck(k)
        },
        next_stage(Stage::Recheck(k), Event::Checked(true)) == Stage::PointerCheck(k),
        next_stage(Stage::Recheck(k), Event::CheckFailed(m)) == Stage::PointerCheck(k),
        next_stage(Stage::PointerCheck(k), Event::Pointer { present: true, is_link: false }) == after(k),
{
}

/// What a store in which every file is already in place answers to the action
/// of `st`: each file exists, the data file's digest matches, each pointer is a
/// redirect, and every other action succeeds.
pub open spec fn settled_answer(st: Stage) -> Event {
    match st {
        Stage::Probe(_) => Event::Exists(true),
        Stage::Recheck(_) | Stage::PostCheck(_) => Event::Checked(true),
        Stage::PointerCheck(_) => Event::Pointer { present: true, is_link: true },
        _ => Event::Done,
    }
}

/// The stage reached from `st` after `n` answers of a store where every file is in place.
pub open spec fn settled_walk(st: Stage, n: nat) -> Stage
    decreases n,
{
    if n == 0 {
        st
    } else {
        settled_walk(next_stage(st, settled_answer(st)), (n - 1) as nat)
    }
}

/// The stages that such a walk may pass: none of them downloads or removes a file.
pub open spec fn on_settled_path(st: Stage) -> bool {
    match st {
        Stage::MakeDir | Stage::Finished => true,
        Stage::Probe(k) | Stage::PointerCheck(k) | Stage::Linking(k) => k < 3,
        Stage::Recheck(k) => k == 0,
        _ => false,
    }
}

proof fn lemma_settled_walk_stays(st: Stage, n: nat)
    requires
        on_settled_path(st),
    ensures
        on_settled_path(settled_walk(st, n)),
    decreases n,
{
    if n > 0 {
        lemma_settled_walk_stays(next_stage(st, settled_answer(st)), (n - 1) as nat);
    }
}

/// Realizing again over a store where every file is already in place (what a
/// second run sees when nothing changed remotely) downloads nothing, removes
/// nothing and does not fail: from the dated directory on, every stage it
/// passes is a probe, a digest check of the data file or a pointer step, and
/// it finishes.
pub proof fn lemma_settled_store_not_fetched(n: nat)
    ensures
        !(settled_walk(Stage::MakeDir, n) is Fetch),
        !(settled_walk(Stage::MakeDir, n) is Repair),
        !(settled_walk(Stage::MakeDir, n) is Discard),
        !(settled_walk(Stage::MakeDir, n) is PostCheck),
        settled_walk(Stage::MakeDir, n) != Stage::Aborted,
        settled_walk(Stage::MakeDir, 11) == Stage::Finished,
{
    lemma_settled_walk_stays(Stage::MakeDir, n);
    reveal_with_fuel(settled_walk, 12);
}

/// A present data file whose digest differs is removed, downloaded again and
/// checked again.
pub proof fn lemma_stale_data_repaired()
    ensures
        next_stage(Stage::Recheck(0), Event::Checked(false)) == Stage::Repair(0),
        next_stage(Stage::Repair(0), Event::Done) == Stage::Fetch(0),
        next_stage(Stage::Fetch(0), Event::Done) == Stage::PostCheck(0),
{
}

/// A downloaded data file whose digest differs is removed and ends the
/// realization; nothing moves on from there.
pub proof fn lemma_bad_download_aborts(e: Event)
    ensures
        next_stage(Stage::PostCheck(0), Event::Checked(false)) == Stage::Discard(0),
        next_stage(Stage::Discard(0), Event::Done) == Stage::Aborted,
        next_stage(Stage::Aborted, e) == Stage::Aborted,
{
}

/// The stage has ended, in success or failure.
pub open spec fn is_terminal(st: Stage) -> bool {
    st == Stage::Finished || st == Stage::Aborted
}

/// The realization of one (database, version) pair into a dated directory
/// with stable pointers. The caller performs each action it hands out and
/// reports what happened with `step`.
pub struct Pipeline {
    pub stage: Stage,
    /// Source locations: data, index, manifest.
    pub urls: Vec<String>,
    /// `<base>/<database>/<version>`, where the pointers live.
    pub db_dir: String,
    /// `<db_dir>/<date>`, once the manifest is read.
    pub dated_dir: String,
    /// The three files inside the dated directory, once the manifest is read.
    pub targets: Vec<String>,
    /// The three pointers inside `db_dir`.
    pub pointers: Vec<String>,
    /// The digest that the data file must have.
    pub expected: String,
    /// The dating token.
    pub date: String,
    /// Why the realization failed, once it has.
    pub failure: Error,
}

impl Pipeline {
    /// Stage indices name one of the three logical files.
    pub open spec fn wf(&self) -> bool {
        &&& self.urls@.len() == 3
        &&& self.targets@.len() == 3
        &&& self.pointers@.len() == 3
        &&& match self.stage {
            Stage::Probe(k) | Stage::Recheck(k) | Stage::Repair(k) | Stage::Fetch(k)
            | Stage::PostCheck(k) | Stage::Discard(k) | Stage::PointerCheck(k)
            | Stage::Linking(k) => k < 3,
            _ => true,
        }
    }

    /// The action that the current stage asks for.
    pub open spec fn emits(&self) -> Action
        recommends
            self.wf(),
    {
        match self.stage {
            Stage::FetchManifest => Action::FetchText { url: self.urls@[2] },
            Stage::MakeDir => Action::CreateDir { path: self.dated_dir },
            Stage::Probe(k) => Action::CheckFile { path: self.targets@[k as int] },
            Stage::Recheck(k) | Stage::PostCheck(k) => Action::Verify {
                path: self.targets@[k as int],
                expected: self.expected,
            },
            Stage::Repair(k) | Stage::Discard(k) => Action::RemoveFile { path: self.targets@[k as int] },
            Stage::Fetch(k) => Action::Download { url: self.urls@[k as int], path: self.targets@[k as int] },
            Stage::PointerCheck(k) => Action::CheckPointer { path: self.pointers@[k as int] },
            Stage::Linking(k) => Action::Link {
                target: self.targets@[k as int],
                pointer: self.pointers@[k as int],
            },
            Stage::Finished => Action::Finish { root: self.db_dir, date: self.date },
            Stage::Aborted => Action::Abort(self.failure),
        }
    }

    /// Everything but the stage and the failure is unchanged.
    pub open spec fn same_layout(&self, other: &Pipeline) -> bool {
        &&& self.urls == other.urls
        &&& self.db_dir == other.db_dir
        &&& self.dated_dir == other.dated_dir
        &&& self.targets == other.targets
        &&& self.pointers == other.pointers
        &&& self.expected == other.expected
        &&& self.date == other.date
    }

    /// Starts realizing `database` at `version` under `base_dir`: asks for the
    /// manifest's text, or fails with `NotFound` when the catalog lacks the pair.
    pub fn new(config: &DatabaseConfig, base_dir: &str, database: &str, version: &str) -> (r: (
        Pipeline,
        Action,
    ))
        ensures
            r.0.wf(),
            r.1 == r.0.emits(),
            r.0.db_dir@ == path_join(path_join(base_dir@, database@), version@),
            forall|k: int|
                0 <= k < 3 ==> #[trigger] r.0.pointers@[k]@ == path_join(r.0.db_dir@, file_label(k)),
            config.contains(database@, version@) ==> r.0.stage == Stage::FetchManifest && exists|f|
                config.has_entry(database@, version@, f) && r.0.urls@ == seq![f.vcf, f.tbi, f.md5],
            !config.contains(database@, version@) ==> r.0.stage == Stage::Aborted && r.0.failure
                == Error::NotFound,
    {
        let base = join_path(base_dir, database);
        let db_dir = join_path(base.as_str(), version);
        let mut pointers: Vec<String> = Vec::new();
        let mut targets: Vec<String> = Vec::new();
        let mut k: usize = 0;
        while k < 3
            invariant
                k <= 3,
                pointers@.len() == k,
                targets@.len() == k,
                forall|j: int| 0 <= j < k ==> #[trigger] pointers@[j]@ == path_join(db_dir@, file_label(j)),
            decreases 3 - k,
        {
            pointers.push(join_path(db_dir.as_str(), label_of(k)));
            targets.push(String::new());
            k = k + 1;
        }
        let (stage, urls, failure) = match config.lookup(database, version) {
            Ok(f) => (Stage::FetchManifest, vec![f.vcf, f.tbi, f.md5], Error::NotFound),
            Err(e) => (Stage::Aborted, vec![String::new(), String::new(), String::new()], e),
        };
        let p = Pipeline {
            stage,
            urls,
            db_dir,
            dated_dir: String::new(),
            targets,
            pointers,
            expected: String::new(),
            date: String::new(),
            failure,
        };
        let a = p.emit();
        (p, a)
    }

    /// Takes in what the caller observed after the last action and hands out
    /// the next one.
    pub fn step(&mut self, event: Event) -> (r: Action)
        requires
            old(self).wf(),
        ensures
            final(self).wf(),
            r == final(self).emits(),
            is_terminal(old(self).stage) ==> *final(self) == *old(self),
            !is_terminal(old(self).stage) && event is Failed ==> final(self).stage == Stage::Aborted
                && final(self).same_layout(old(self)) && event == Event::Failed(final(self).failure),
            old(self).stage == Stage::FetchManifest && !(event is Failed) && !(event is Text)
                ==> *final(self) == *old(self),
            event matches Event::Text(t) ==> (old(self).stage == Stage::FetchManifest ==> if has_two_tokens(t@) {
                &&& final(self).stage == Stage::MakeDir
                &&& final(self).expected@ == manifest_digest(t@)
                &&& (manifest_date(t@) matches Some(d) ==> final(self).date@ == d)
                &&& final(self).dated_dir@ == path_join(old(self).db_dir@, final(self).date@)
                &&& forall|k: int| 0 <= k < 3
                    ==> #[trigger] final(self).targets@[k]@ == path_join(final(self).dated_dir@, file_label(k))
                &&& final(self).urls == old(self).urls
                &&& final(self).db_dir == old(self).db_dir
                &&& final(self).pointers == old(self).pointers
            } else {
                &&& final(self).stage == Stage::Aborted
                &&& final(self).failure == Error::ManifestFormat
                &&& final(self).same_layout(old(self))
            }),
            !is_terminal(old(self).stage) && old(self).stage != Stage::FetchManifest && !(event is Failed) ==> {
                &&& final(self).stage == next_stage(old(self).stage, event)
                &&& final(self).same_layout(old(self))
                &&& final(self).stage == Stage::Aborted ==> final(self).failure == Error::Integrity
                &&& final(self).stage != Stage::Aborted ==> final(self).failure == old(self).failure
            },
    {
        if self.stage == Stage::Finished || self.stage == Stage::Aborted {
            return self.emit();
        }
        match event {
            Event::Failed(e) => {
                self.stage = Stage::Aborted;
                self.failure = e;
            },
            Event::Text(t) => {
                if self.stage == Stage::FetchManifest {
                    match parse_md5_file(t.as_str()) {
                        Ok((h, d)) => {
                            let dated = join_path(self.db_dir.as_str(), d.as_str());
                            let mut targets: Vec<String> = Vec::new();
                            let mut k: usize = 0;
                            while k < 3
                                invariant
                                    k <= 3,
                                    targets@.len() == k,
                                    forall|j: int| 0 <= j < k
                                        ==> #[trigger] targets@[j]@ == path_join(dated@, file_label(j)),
                                decreases 3 - k,
                            {
                                targets.push(join_path(dated.as_str(), label_of(k)));
                                k = k + 1;
                            }
                            self.expected = h;
                            self.date = d;
                            self.dated_dir = dated;
                            self.targets = targets;
                            self.stage = Stage::MakeDir;
                        },
                        Err(e) => {
                            self.stage = Stage::Aborted;
                            self.failure = e;
                        },
                    }
                }
            },
            other => {
                if self.stage != Stage::FetchManifest {
                    let next = advance(self.stage, &other);
                    if next == Stage::Aborted {
                        self.failure = Error::Integrity;
                    }
                    self.stage = next;
                }
            },
        }
        self.emit()
    }

    /// The action of the current stage.
    pub fn emit(&self) -> (r: Action)
        requires
            self.wf(),
        ensures
            r == self.emits(),
    {
        match self.stage {
            Stage::FetchManifest => Action::FetchText { url: self.urls[2].clone() },
            Stage::MakeDir => Action::CreateDir { path: self.dated_dir.clone() },
            Stage::Probe(k) => Action::CheckFile { path: self.targets[k].clone() },
            Stage::Recheck(k) | Stage::PostCheck(k) => Action::Verify {
                path: self.targets[k].clone(),
                expected: self.expected.clone(),
            },
            Stage::Repair(k) | Stage::Discard(k) => Action::RemoveFile { path: self.targets[k].clone() },
            Stage::Fetch(k) => Action::Download { url: self.urls[k].clone(), path: self.targets[k].clone() },
            Stage::PointerCheck(k) => Action::CheckPointer { path: self.pointers[k].clone() },
            Stage::Linking(k) => Action::Link { target: self.targets[k].clone(), pointer: self.pointers[k].clone() },
            Stage::Finished => Action::Finish { root: self.db_dir.clone(), date: self.date.clone() },
            Stage::Aborted => Action::Abort(self.failure.duplicate()),
        }
    }
}

} // verus!
