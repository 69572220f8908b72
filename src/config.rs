use vstd::prelude::*;

use crate::error::Error;

verus! {

/// The three source locations of one database version.
#[derive(Debug, Clone)]
pub struct DatabaseFiles {
    /// The primary data file.
    pub vcf: String,
    /// Its index.
    pub tbi: String,
    /// The checksum manifest.
    pub md5: String,
}

impl DatabaseFiles {
    /// A copy equal to `self`.
    pub fn duplicate(&self) -> (r: Self)
        ensures
            r == *self,
    {
        DatabaseFiles { vcf: self.vcf.clone(), tbi: self.tbi.clone(), md5: self.md5.clone() }
    }
}

/// The versions of one database, in catalog order.
#[derive(Debug, Clone)]
pub struct DatabaseVersions {
    pub versions: Vec<(String, DatabaseFiles)>,
}

/// The whole catalog: database name to its versions, in catalog order.
#[derive(Debug, Clone)]
pub struct DatabaseConfig {
    pub databases: Vec<(String, DatabaseVersions)>,
}

/// Character-wise equality of two strings.
pub fn str_eq(a: &str, b: &str) -> (r: bool)
    ensures
        r == (a@ == b@),
{
    let n = a.unicode_len();
    if n != b.unicode_len() {
        return false;
    }
    let mut i: usize = 0;
    while i < n
        invariant
            n == a@.len(),
            n == b@.len(),
            i <= n,
            forall|k: int| 0 <= k < i ==> a@[k] == b@[k],
        decreases n - i,
    {
        if a.get_char(i) != b.get_char(i) {
            return false;
        }
        i = i + 1;
    }
    assert(a@ =~= b@);
    true
}

impl DatabaseConfig {
    /// `files` is listed for `database` and `version`.
    pub open spec fn has_entry(&self, database: Seq<char>, version: Seq<char>, files: DatabaseFiles) -> bool {
        exists|i: int, j: int|
            0 <= i < self.databases@.len()
            && self.databases@[i].0@ == database
            && 0 <= j < self.databases@[i].1.versions@.len()
            && self.databases@[i].1.versions@[j].0@ == version
            && self.databases@[i].1.versions@[j].1 == files
    }

    /// Some entry is listed for `database` and `version`.
    pub open spec fn contains(&self, database: Seq<char>, version: Seq<char>) -> bool {
        exists|i: int, j: int|
            0 <= i < self.databases@.len()
            && self.databases@[i].0@ == database
            && 0 <= j < self.databases@[i].1.versions@.len()
            && self.databases@[i].1.versions@[j].0@ == version
    }

    /// Every (database, version) pair of the catalog, in catalog order.
    pub open spec fn pair_seq(&self) -> Seq<(Seq<char>, Seq<char>)> {
        pairs_upto(self.databases@, self.databases@.len() as int)
    }

    /// Every (database, version) pair of the catalog, in catalog order.
    pub fn pairs(&self) -> (r: Vec<(String, String)>)
        ensures
            pair_views(r@) == self.pair_seq(),
    {
        let mut out: Vec<(String, String)> = Vec::new();
        let mut i: usize = 0;
        while i < self.databases.len()
            invariant
                i <= self.databases@.len(),
                pair_views(out@) == pairs_upto(self.databases@, i as int),
            decreases self.databases@.len() - i,
        {
            let name = &self.databases[i].0;
            let versions = &self.databases[i].1.versions;
            let ghost before = out@;
            let mut j: usize = 0;
            while j < versions.len()
                invariant
                    i < self.databases@.len(),
                    name == self.databases@[i as int].0,
                    versions == self.databases@[i as int].1.versions,
                    j <= versions@.len(),
                    pair_views(before) == pairs_upto(self.databases@, i as int),
                    pair_views(out@) == pair_views(before) + versions_of(self.databases@[i as int]).take(j as int),
                decreases versions@.len() - j,
            {
                let ghost prev = out@;
                let entry = (name.clone(), versions[j].0.clone());
                out.push(entry);
                proof {
                    assert(out@ == prev.push(entry));
                    assert(pair_views(out@) =~= pair_views(prev).push((name@, versions@[j as int].0@)));
                    assert(versions_of(self.databases@[i as int]).take(j + 1) =~= versions_of(
                        self.databases@[i as int],
                    ).take(j as int).push((name@, versions@[j as int].0@)));
                    assert(pair_views(out@) =~= pair_views(before) + versions_of(
                        self.databases@[i as int],
                    ).take(j + 1));
                }
                j = j + 1;
            }
            proof {
                assert(versions_of(self.databases@[i as int]).take(j as int) =~= versions_of(
                    self.databases@[i as int],
                ));
            }
            i = i + 1;
        }
        out
    }

    /// Looks up the source locations of `database` at `version`.
    pub fn lookup(&self, database: &str, version: &str) -> (r: Result<DatabaseFiles, Error>)
        ensures
            r is Ok <==> self.contains(database@, version@),
            r matches Ok(f) ==> self.has_entry(database@, version@, f),
            r matches Err(e) ==> e == Error::NotFound,
    {
        let mut i: usize = 0;
        while i < self.databases.len()
            invariant
                i <= self.databases@.len(),
                forall|a: int, b: int|
                    0 <= a < i && 0 <= b < self.databases@[a].1.versions@.len()
                        ==> !(self.databases@[a].0@ == database@
                            && self.databases@[a].1.versions@[b].0@ == version@),
            decreases self.databases@.len() - i,
        {
            if str_eq(self.databases[i].0.as_str(), database) {
                let versions = &self.databases[i].1.versions;
                let mut j: usize = 0;
                while j < versions.len()
                    invariant
                        i < self.databases@.len(),
                        versions == self.databases@[i as int].1.versions,
                        self.databases@[i as int].0@ == database@,
                        j <= versions@.len(),
                        forall|b: int| 0 <= b < j ==> versions@[b].0@ != version@,
                    decreases versions@.len() - j,
                {
                    if str_eq(versions[j].0.as_str(), version) {
                        return Ok(versions[j].1.duplicate());
                    }
                    j = j + 1;
                }
            }
            i = i + 1;
        }
        Err(Error::NotFound)
    }
}

/// The views of a list of pairs of strings.
pub open spec fn pair_views(v: Seq<(String, String)>) -> Seq<(Seq<char>, Seq<char>)> {
    v.map_values(|p: (String, String)| (p.0@, p.1@))
}

/// The (database, version) pairs of one catalog entry.
pub open spec fn versions_of(db: (String, DatabaseVersions)) -> Seq<(Seq<char>, Seq<char>)> {
    db.1.versions@.map_values(|v: (String, DatabaseFiles)| (db.0@, v.0@))
}

/// The (database, version) pairs of the first `n` entries of `dbs`.
pub open spec fn pairs_upto(dbs: Seq<(String, DatabaseVersions)>, n: int) -> Seq<(Seq<char>, Seq<char>)>
    decreases n,
{
    if n <= 0 || n > dbs.len() {
        Seq::empty()
    } else {
        pairs_upto(dbs, n - 1) + versions_of(dbs[n - 1])
    }
}

} // verus!
