use std::collections::HashMap;

use glade::config::{DatabaseConfig, DatabaseFiles, DatabaseVersions};
use glade::digest::{calculate_md5, verify_md5};
use glade::error::Error;
use glade::manager::{outcome_of, BatchAction, DatabaseManager};
use glade::pipeline::{Action, Event, Stage};

struct World {
    remote: HashMap<String, Vec<u8>>,
    failing: Vec<String>,
    files: HashMap<String, Vec<u8>>,
    links: HashMap<String, String>,
    downloads: Vec<String>,
    removals: Vec<String>,
    manifest_fetches: Vec<String>,
}

impl World {
    fn new() -> World {
        World {
            remote: HashMap::new(),
            failing: Vec::new(),
            files: HashMap::new(),
            links: HashMap::new(),
            downloads: Vec::new(),
            removals: Vec::new(),
            manifest_fetches: Vec::new(),
        }
    }

    fn answer(&mut self, action: &Action) -> Event {
        match action {
            Action::FetchText { url } => {
                self.manifest_fetches.push(url.clone());
                if self.failing.contains(url) {
                    return Event::Failed(Error::Transport("status 500".to_string()));
                }
                match self.remote.get(url) {
                    Some(b) => Event::Text(String::from_utf8(b.clone()).unwrap()),
                    None => Event::Failed(Error::Transport("status 404".to_string())),
                }
            }
            Action::CreateDir { .. } => Event::Done,
            Action::CheckFile { path } => Event::Exists(self.files.contains_key(path)),
            Action::Verify { path, expected } => match self.files.get(path) {
                Some(b) => Event::Checked(verify_md5(b, expected)),
                None => Event::CheckFailed("unreadable".to_string()),
            },
            Action::RemoveFile { path } => {
                self.files.remove(path);
                self.removals.push(path.clone());
                Event::Done
            }
            Action::Download { url, path } => match self.remote.get(url) {
                Some(b) => {
                    self.files.insert(path.clone(), b.clone());
                    self.downloads.push(path.clone());
                    Event::Done
                }
                None => Event::Failed(Error::Transport("status 404".to_string())),
            },
            Action::CheckPointer { path } => Event::Pointer {
                present: self.links.contains_key(path) || self.files.contains_key(path),
                is_link: self.links.contains_key(path),
            },
            Action::Link { target, pointer } => {
                self.links.insert(pointer.clone(), target.clone());
                Event::Done
            }
            Action::Finish { .. } | Action::Abort(_) => panic!("no answer to a final action"),
        }
    }
}

fn entry(prefix: &str) -> DatabaseFiles {
    DatabaseFiles {
        vcf: format!("{}/clinvar.vcf.gz", prefix),
        tbi: format!("{}/clinvar.vcf.gz.tbi", prefix),
        md5: format!("{}/clinvar.vcf.gz.md5", prefix),
    }
}

fn publish(world: &mut World, prefix: &str, data: &[u8]) {
    let files = entry(prefix);
    let manifest = format!("{}  clinvar_20240115.vcf.gz\n", calculate_md5(data));
    world.remote.insert(files.vcf, data.to_vec());
    world.remote.insert(files.tbi, b"index".to_vec());
    world.remote.insert(files.md5, manifest.into_bytes());
}

fn catalog(names: &[&str]) -> DatabaseConfig {
    DatabaseConfig {
        databases: names
            .iter()
            .map(|n| {
                (
                    n.to_string(),
                    DatabaseVersions { versions: vec![("GRCh38".to_string(), entry(&format!("https://h/{}", n)))] },
                )
            })
            .collect(),
    }
}

fn realize(mgr: &DatabaseManager, db: &str, world: &mut World) -> Action {
    let (mut pipeline, mut action) = mgr.download_database(db, "GRCh38");
    while outcome_of(&action).is_none() {
        let event = world.answer(&action);
        action = pipeline.step(event);
    }
    action
}

const DATED: &str = "/base/clinvar/GRCh38/20240115";

#[test]
fn fresh_realization_fetches_and_links_all() {
    let mut world = World::new();
    publish(&mut world, "https://h/clinvar", b"variants v1");
    let mgr = DatabaseManager::new("/base".to_string(), catalog(&["clinvar"]));
    let done = realize(&mgr, "clinvar", &mut world);
    assert_eq!(done, Action::Finish { root: "/base/clinvar/GRCh38".to_string(), date: "20240115".to_string() });
    assert_eq!(
        world.downloads,
        vec![
            format!("{}/clinvar.vcf.gz", DATED),
            format!("{}/clinvar.vcf.gz.tbi", DATED),
            format!("{}/clinvar.vcf.gz.md5", DATED),
        ]
    );
    assert_eq!(
        world.links.get("/base/clinvar/GRCh38/clinvar.vcf.gz"),
        Some(&format!("{}/clinvar.vcf.gz", DATED))
    );
    assert_eq!(world.links.len(), 3);
}

#[test]
fn second_realization_downloads_nothing() {
    let mut world = World::new();
    publish(&mut world, "https://h/clinvar", b"variants v1");
    let mgr = DatabaseManager::new("/base".to_string(), catalog(&["clinvar"]));
    realize(&mgr, "clinvar", &mut world);
    let files_before = world.files.clone();
    let links_before = world.links.clone();
    world.downloads.clear();
    let done = realize(&mgr, "clinvar", &mut world);
    assert!(matches!(done, Action::Finish { .. }));
    assert!(world.downloads.is_empty());
    assert!(world.removals.is_empty());
    assert_eq!(world.files, files_before);
    assert_eq!(world.links, links_before);
}

#[test]
fn corrupted_data_is_repaired_alone() {
    let mut world = World::new();
    publish(&mut world, "https://h/clinvar", b"variants v1");
    let mgr = DatabaseManager::new("/base".to_string(), catalog(&["clinvar"]));
    realize(&mgr, "clinvar", &mut world);
    let data = format!("{}/clinvar.vcf.gz", DATED);
    world.files.insert(data.clone(), b"garbage".to_vec());
    world.downloads.clear();
    let done = realize(&mgr, "clinvar", &mut world);
    assert!(matches!(done, Action::Finish { .. }));
    assert_eq!(world.removals, vec![data.clone()]);
    assert_eq!(world.downloads, vec![data.clone()]);
    assert_eq!(world.files.get(&data), Some(&b"variants v1".to_vec()));
}

#[test]
fn bad_fresh_download_aborts() {
    let mut world = World::new();
    publish(&mut world, "https://h/clinvar", b"variants v1");
    world.remote.insert("https://h/clinvar/clinvar.vcf.gz".to_string(), b"tampered".to_vec());
    let mgr = DatabaseManager::new("/base".to_string(), catalog(&["clinvar"]));
    let done = realize(&mgr, "clinvar", &mut world);
    assert_eq!(done, Action::Abort(Error::Integrity));
    let data = format!("{}/clinvar.vcf.gz", DATED);
    assert_eq!(world.downloads, vec![data.clone()]);
    assert_eq!(world.removals, vec![data.clone()]);
    assert!(world.files.is_empty());
    assert!(world.links.is_empty());
}

#[test]
fn unknown_pair_is_not_found() {
    let mgr = DatabaseManager::new("/base".to_string(), catalog(&["clinvar"]));
    let (_, action) = mgr.download_database("dbsnp", "GRCh38");
    assert_eq!(action, Action::Abort(Error::NotFound));
    let (_, action) = mgr.download_database("clinvar", "GRCh37");
    assert_eq!(action, Action::Abort(Error::NotFound));
}

#[test]
fn first_action_fetches_the_manifest() {
    let mgr = DatabaseManager::new("/base".to_string(), catalog(&["clinvar"]));
    let (pipeline, action) = mgr.download_database("clinvar", "GRCh38");
    assert_eq!(action, Action::FetchText { url: "https://h/clinvar/clinvar.vcf.gz.md5".to_string() });
    assert_eq!(pipeline.stage, Stage::FetchManifest);
}

#[test]
fn malformed_manifest_aborts() {
    let mgr = DatabaseManager::new("/base".to_string(), catalog(&["clinvar"]));
    let (mut pipeline, _) = mgr.download_database("clinvar", "GRCh38");
    let action = pipeline.step(Event::Text("onlyonetoken".to_string()));
    assert_eq!(action, Action::Abort(Error::ManifestFormat));
}

#[test]
fn unreadable_data_is_kept() {
    let mgr = DatabaseManager::new("/base".to_string(), catalog(&["clinvar"]));
    let (mut p, _) = mgr.download_database("clinvar", "GRCh38");
    p.step(Event::Text("abc clinvar_20240115.vcf.gz".to_string()));
    p.step(Event::Done);
    let a = p.step(Event::Exists(true));
    assert!(matches!(a, Action::Verify { .. }));
    let a = p.step(Event::CheckFailed("permission denied".to_string()));
    assert_eq!(a, Action::CheckPointer { path: "/base/clinvar/GRCh38/clinvar.vcf.gz".to_string() });
}

#[test]
fn real_file_at_pointer_is_left_alone() {
    let mgr = DatabaseManager::new("/base".to_string(), catalog(&["clinvar"]));
    let (mut p, _) = mgr.download_database("clinvar", "GRCh38");
    p.step(Event::Text("abc clinvar_20240115.vcf.gz".to_string()));
    p.step(Event::Done);
    p.step(Event::Exists(true));
    p.step(Event::Checked(true));
    let a = p.step(Event::Pointer { present: true, is_link: false });
    assert_eq!(a, Action::CheckFile { path: format!("{}/clinvar.vcf.gz.tbi", DATED) });
}

#[test]
fn transport_failure_aborts_with_it() {
    let mgr = DatabaseManager::new("/base".to_string(), catalog(&["clinvar"]));
    let (mut p, _) = mgr.download_database("clinvar", "GRCh38");
    let a = p.step(Event::Failed(Error::Transport("timeout".to_string())));
    assert_eq!(a, Action::Abort(Error::Transport("timeout".to_string())));
    let again = p.step(Event::Done);
    assert_eq!(again, Action::Abort(Error::Transport("timeout".to_string())));
}

#[test]
fn catalog_run_stops_at_first_failure() {
    let mut world = World::new();
    publish(&mut world, "https://h/a", b"aaa");
    publish(&mut world, "https://h/b", b"bbb");
    publish(&mut world, "https://h/c", b"ccc");
    world.failing.push("https://h/b/clinvar.vcf.gz.md5".to_string());
    let mgr = DatabaseManager::new("/base".to_string(), catalog(&["a", "b", "c"]));
    let (mut run, mut next) = mgr.download_all_databases();
    let mut realized = Vec::new();
    loop {
        match next {
            BatchAction::Realize { database, version } => {
                assert_eq!(version, "GRCh38");
                let done = realize(&mgr, &database, &mut world);
                realized.push(database);
                next = run.report(outcome_of(&done).unwrap());
            }
            _ => break,
        }
    }
    assert_eq!(next, BatchAction::Abort(Error::Transport("status 500".to_string())));
    assert_eq!(realized, vec!["a".to_string(), "b".to_string()]);
    assert_eq!(world.downloads.len(), 3);
    assert!(world.links.contains_key("/base/a/GRCh38/clinvar.vcf.gz.md5"));
    assert!(!world.manifest_fetches.contains(&"https://h/c/clinvar.vcf.gz.md5".to_string()));
}

#[test]
fn catalog_run_visits_every_pair() {
    let cfg = DatabaseConfig {
        databases: vec![
            (
                "clinvar".to_string(),
                DatabaseVersions {
                    versions: vec![("GRCh37".to_string(), entry("u1")), ("GRCh38".to_string(), entry("u2"))],
                },
            ),
            ("dbsnp".to_string(), DatabaseVersions { versions: vec![("GRCh38".to_string(), entry("u3"))] }),
        ],
    };
    let mgr = DatabaseManager::new("/base".to_string(), cfg);
    let listed = mgr.list_databases();
    assert_eq!(listed.len(), 3);
    assert_eq!(
        listed[1],
        ("clinvar".to_string(), "GRCh38".to_string(), "/base/clinvar/GRCh38".to_string())
    );
    let (mut run, mut next) = mgr.download_all_databases();
    let mut seen = Vec::new();
    while let BatchAction::Realize { database, version } = next {
        seen.push(format!("{}/{}", database, version));
        next = run.report(Ok(()));
    }
    assert_eq!(next, BatchAction::Done);
    assert_eq!(seen, vec!["clinvar/GRCh37", "clinvar/GRCh38", "dbsnp/GRCh38"]);
}

#[test]
fn lookup_finds_the_entry() {
    let cfg = catalog(&["clinvar", "dbsnp"]);
    let f = cfg.lookup("dbsnp", "GRCh38").unwrap();
    assert_eq!(f.md5, "https://h/dbsnp/clinvar.vcf.gz.md5");
    assert_eq!(cfg.lookup("dbsnp", "hg19").unwrap_err(), Error::NotFound);
}
