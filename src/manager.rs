use vstd::prelude::*;

use crate::config::{pair_views, DatabaseConfig};
use crate::error::Error;
use crate::pipeline::{join_path, path_join, Action, Pipeline};

verus! {

/// What a whole-catalog run asks of the caller next.
#[derive(Debug, PartialEq, Eq)]
pub enum BatchAction {
    /// Realize this (database, version) pair and report the outcome.
    Realize { database: String, version: String },
    /// Every pair was realized.
    Done,
    /// A pair failed; the rest of the catalog is skipped.
    Abort(Error),
}

/// Realizes catalog pairs one at a time, in order, stopping at the first failure.
pub struct BatchRun {
    pub pairs: Vec<(String, String)>,
    /// The pair being realized; `pairs.len()` once all are done.
    pub pos: usize,
    /// The error that stopped the run, if one did.
    pub failure: Option<Error>,
}

impl BatchRun {
    pub open spec fn wf(&self) -> bool {
        self.pos <= self.pairs@.len()
    }

    /// The run has ended, in success or failure.
    pub open spec fn is_over(&self) -> bool {
        self.failure is Some || self.pos == self.pairs@.len()
    }

    /// The action that the current state asks for.
    pub open spec fn emits(&self) -> BatchAction {
        match self.failure {
            Some(e) => BatchAction::Abort(e),
            None => if self.pos < self.pairs@.len() {
                BatchAction::Realize {
                    database: self.pairs@[self.pos as int].0,
                    version: self.pairs@[self.pos as int].1,
                }
            } else {
                BatchAction::Done
            },
        }
    }

    /// Starts a run over `pairs`.
    pub fn new(pairs: Vec<(String, String)>) -> (r: (BatchRun, BatchAction))
        ensures
            r.0.wf(),
            r.0.pairs == pairs,
            r.0.pos == 0,
            r.0.failure is None,
            r.1 == r.0.emits(),
    {
        let run = BatchRun { pairs, pos: 0, failure: None };
        let a = run.emit();
        (run, a)
    }

    /// The action of the current state.
    pub fn emit(&self) -> (r: BatchAction)
        requires
            self.wf(),
        ensures
            r == self.emits(),
    {
        match &self.failure {
            Some(e) => BatchAction::Abort(e.duplicate()),
            None => if self.pos < self.pairs.len() {
                BatchAction::Realize {
                    database: self.pairs[self.pos].0.clone(),
                    version: self.pairs[self.pos].1.clone(),
                }
            } else {
                BatchAction::Done
            },
        }
    }

    /// Takes in how the requested pair's realization ended and hands out the
    /// next action: the next pair after a success, an abort after a failure.
    pub fn report(&mut self, outcome: Result<(), Error>) -> (r: BatchAction)
        requires
            old(self).wf(),
        ensures
            final(self).wf(),
            final(self).pairs == old(self).pairs,
            r == final(self).emits(),
            old(self).is_over() ==> *final(self) == *old(self),
            !old(self).is_over() ==> match outcome {
                Ok(()) => final(self).pos == old(self).pos + 1 && final(self).failure is None,
                Err(e) => final(self).pos == old(self).pos && final(self).failure == Some(e),
            },
    {
        if self.failure.is_some() || self.pos == self.pairs.len() {
            return self.emit();
        }
        match outcome {
            Ok(()) => {
                self.pos = self.pos + 1;
            },
            Err(e) => {
                self.failure = Some(e);
            },
        }
        self.emit()
    }
}

/// How one realization ended, read from the pipeline's last action: `Some`
/// once it finished or aborted.
pub fn outcome_of(action: &Action) -> (r: Option<Result<(), Error>>)
    ensures
        match action {
            Action::Finish { .. } => r == Some(Ok::<(), Error>(())),
            Action::Abort(e) => r == Some(Err::<(), Error>(*e)),
            _ => r is None,
        },
{
    match action {
        Action::Finish { .. } => Some(Ok(())),
        Action::Abort(e) => Some(Err(e.duplicate())),
        _ => None,
    }
}

/// The catalog together with the storage root it realizes into.
pub struct DatabaseManager {
    pub base_dir: String,
    pub config: DatabaseConfig,
}

impl DatabaseManager {
    /// A manager that stores under `base_dir`.
    pub fn new(base_dir: String, config: DatabaseConfig) -> (r: Self)
        ensures
            r.base_dir == base_dir,
            r.config == config,
    {
        DatabaseManager { base_dir, config }
    }

    /// Starts realizing one (database, version) pair.
    pub fn download_database(&self, db_name: &str, genome_version: &str) -> (r: (Pipeline, Action))
        ensures
            r.0.wf(),
            r.1 == r.0.emits(),
            r.0.db_dir@ == path_join(path_join(self.base_dir@, db_name@), genome_version@),
            self.config.contains(db_name@, genome_version@) ==> r.0.stage
                == crate::pipeline::Stage::FetchManifest && exists|f|
                self.config.has_entry(db_name@, genome_version@, f) && r.0.urls@ == seq![
                    f.vcf,
                    f.tbi,
                    f.md5,
                ],
            !self.config.contains(db_name@, genome_version@) ==> r.0.stage
                == crate::pipeline::Stage::Aborted && r.0.failure == Error::NotFound,
    {
        Pipeline::new(&self.config, self.base_dir.as_str(), db_name, genome_version)
    }

    /// Starts realizing every pair of the catalog, in catalog order.
    pub fn download_all_databases(&self) -> (r: (BatchRun, BatchAction))
        ensures
            r.0.wf(),
            pair_views(r.0.pairs@) == self.config.pair_seq(),
            r.0.pos == 0,
            r.0.failure is None,
            r.1 == r.0.emits(),
    {
        BatchRun::new(self.config.pairs())
    }

    /// Each pair of the catalog with the directory that holds its copy.
    pub fn list_databases(&self) -> (r: Vec<(String, String, String)>)
        ensures
            r@.len() == self.config.pair_seq().len(),
            forall|k: int| 0 <= k < r@.len() ==> {
                &&& (#[trigger] r@[k]).0@ == self.config.pair_seq()[k].0
                &&& r@[k].1@ == self.config.pair_seq()[k].1
                &&& r@[k].2@ == path_join(path_join(self.base_dir@, r@[k].0@), r@[k].1@)
            },
    {
        let pairs = self.config.pairs();
        let mut out: Vec<(String, String, String)> = Vec::new();
        let mut i: usize = 0;
        while i < pairs.len()
            invariant
                i <= pairs@.len(),
                pair_views(pairs@) == self.config.pair_seq(),
                out@.len() == i,
                forall|k: int| 0 <= k < i ==> {
                    &&& (#[trigger] out@[k]).0@ == pairs@[k].0@
                    &&& out@[k].1@ == pairs@[k].1@
                    &&& out@[k].2@ == path_join(path_join(self.base_dir@, out@[k].0@), out@[k].1@)
                },
            decreases pairs@.len() - i,
        {
            let base = join_path(self.base_dir.as_str(), pairs[i].0.as_str());
            let dir = join_path(base.as_str(), pairs[i].1.as_str());
            out.push((pairs[i].0.clone(), pairs[i].1.clone(), dir));
            i = i + 1;
        }
        proof {
            assert forall|k: int| 0 <= k < out@.len() implies out@[k].0@ == self.config.pair_seq()[k].0
                && out@[k].1@ == self.config.pair_seq()[k].1 by {
                assert(pair_views(pairs@)[k] == (pairs@[k].0@, pairs@[k].1@));
            }
        }
        out
    }
}

} // verus!
