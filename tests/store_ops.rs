use fskv::store::{FsReply, FsRequest, Outcome, Step, Store, StoreError, Task};
use std::collections::{HashMap, HashSet};

/// An in-memory filesystem in which paths under `/` cannot be created, as
/// for a process without privileges.
struct MemDisk {
    dirs: HashSet<String>,
    files: HashMap<String, String>,
    stamp: u128,
}

impl MemDisk {
    fn new() -> MemDisk {
        MemDisk { dirs: HashSet::new(), files: HashMap::new(), stamp: 1 }
    }

    fn perform(&mut self, r: FsRequest) -> FsReply {
        match r {
            FsRequest::Probe(p) => {
                if self.dirs.contains(&p) || self.files.contains_key(&p) {
                    FsReply::Done
                } else {
                    FsReply::Failed(StoreError::NotFound)
                }
            }
            FsRequest::MakeDirs(p) => {
                if p.starts_with('/') {
                    return FsReply::Failed(StoreError::Other);
                }
                let mut prefix = String::new();
                for part in p.split('/') {
                    if !prefix.is_empty() {
                        prefix.push('/');
                    }
                    prefix.push_str(part);
                    self.dirs.insert(prefix.clone());
                }
                FsReply::Done
            }
            FsRequest::CreateNew(p, v) => {
                if self.files.contains_key(&p) {
                    FsReply::Failed(StoreError::AlreadyExists)
                } else {
                    self.files.insert(p, v);
                    FsReply::Done
                }
            }
            FsRequest::ReadAll(p) => match self.files.get(&p) {
                Some(v) => FsReply::Contents(v.clone()),
                None => FsReply::Failed(StoreError::NotFound),
            },
            FsRequest::Rename(a, b) => match self.files.remove(&a) {
                Some(v) => {
                    self.files.insert(b, v);
                    FsReply::Done
                }
                None => FsReply::Failed(StoreError::NotFound),
            },
            FsRequest::Remove(p) => match self.files.remove(&p) {
                Some(_) => FsReply::Done,
                None => FsReply::Failed(StoreError::NotFound),
            },
        }
    }

    fn run(&mut self, mut t: Task) -> Outcome {
        let mut reply = FsReply::Done;
        loop {
            match t.next(reply) {
                Step::Perform(r) => reply = self.perform(r),
                Step::Finish(o) => return o,
            }
        }
    }

    fn open(&mut self, root: &str) -> Result<Store, StoreError> {
        match self.run(Store::new(root)) {
            Outcome::Opened(s) => Ok(s),
            Outcome::Failed(e) => Err(e),
            _ => panic!("open gave no store"),
        }
    }

    fn put(&mut self, s: &Store, k: &str, v: &str) -> Result<(), StoreError> {
        unit(self.run(s.put(k, v)))
    }

    fn update(&mut self, s: &Store, k: &str, v: &str) -> Result<(), StoreError> {
        self.stamp += 1;
        let t = s.update(k, v, self.stamp);
        unit(self.run(t))
    }

    fn delete(&mut self, s: &Store, k: &str) -> Result<(), StoreError> {
        unit(self.run(s.delete(k)))
    }

    fn get(&mut self, s: &Store, k: &str) -> Result<String, StoreError> {
        match self.run(s.get(k)) {
            Outcome::Value(v) => Ok(v),
            Outcome::Failed(e) => Err(e),
            _ => panic!("get gave no value"),
        }
    }
}

fn unit(o: Outcome) -> Result<(), StoreError> {
    match o {
        Outcome::Done => Ok(()),
        Outcome::Failed(e) => Err(e),
        _ => panic!("unexpected outcome"),
    }
}

#[test]
fn test_new() {
    let mut fs = MemDisk::new();
    // fail to create (no privileges under the filesystem root)
    assert_eq!(fs.open("/foo").is_ok(), false);
    // succeed creating a directory
    assert_eq!(fs.open("fskv_test").is_ok(), true);
    // succeed trying to create it a second time
    assert_eq!(fs.open("fskv_test").is_ok(), true);
    // also succeed when using an existing directory
    assert_eq!(fs.open("fskv_test").is_ok(), true);
}

#[test]
fn test_put() {
    let mut fs = MemDisk::new();
    let ds = fs.open("fskv_test");
    assert_eq!(ds.is_ok(), true);
    let ds = ds.unwrap();
    assert_eq!(fs.put(&ds, "foo", "bar").is_ok(), true);
    // put is atomic and requires the key not to already exist
    assert_eq!(fs.put(&ds, "foo", "bar").is_ok(), false);
}

fn check_get() {
    let mut fs = MemDisk::new();
    let ds = fs.open("fskv_test");
    assert_eq!(ds.is_ok(), true);
    let ds = ds.unwrap();
    assert_eq!(fs.get(&ds, "getkey_doesnt_exist").is_ok(), false);
    assert_eq!(fs.put(&ds, "getkey", "foo").is_ok(), true);
    assert_eq!(fs.get(&ds, "getkey").is_ok(), true);
}

fn check_update() {
    let mut fs = MemDisk::new();
    let ds = fs.open("fskv_test");
    assert_eq!(ds.is_ok(), true);
    let ds = ds.unwrap();
    assert_eq!(fs.put(&ds, "update", "yes").is_ok(), true);
    assert_eq!(fs.update(&ds, "update", "yes").is_ok(), true);
    // insert new via update
    assert_eq!(fs.update(&ds, "upsert", "yes").is_ok(), true);
}

fn check_delete() {
    let mut fs = MemDisk::new();
    let ds = fs.open("fskv_test");
    assert_eq!(ds.is_ok(), true);
    let ds = ds.unwrap();
    assert_eq!(fs.put(&ds, "delkey", "foo").is_ok(), true);
    assert_eq!(fs.get(&ds, "delkey").is_ok(), true);
    assert_eq!(fs.delete(&ds, "delkey").is_ok(), true);
    assert_eq!(fs.get(&ds, "delkey").is_ok(), false);
    // does not exist, should fail
    assert_eq!(fs.delete(&ds, "delkey_does_not_exist").is_ok(), false);
}

#[test]
fn lib_test_get() {
    check_get();
}

#[test]
fn lib_test_update() {
    check_update();
}

#[test]
fn lib_test_delete() {
    check_delete();
}

#[test]
fn integration_tests_test_get() {
    check_get();
}

#[test]
fn integration_tests_test_update() {
    check_update();
}

#[test]
fn integration_tests_test_delete() {
    check_delete();
}

#[test]
fn end_to_end_kvtest() {
    let mut fs = MemDisk::new();
    let store = fs.open("kvtest").unwrap();
    assert_eq!(fs.put(&store, "foo", "bar"), Ok(()));
    assert_eq!(fs.get(&store, "foo"), Ok("bar".to_string()));
    assert_eq!(fs.put(&store, "foo", "baz"), Err(StoreError::AlreadyExists));
    assert_eq!(fs.update(&store, "foo", "baz"), Ok(()));
    assert_eq!(fs.get(&store, "foo"), Ok("baz".to_string()));
    assert_eq!(fs.delete(&store, "foo"), Ok(()));
    assert_eq!(fs.get(&store, "foo"), Err(StoreError::NotFound));
}

#[test]
fn put_then_get_returns_value() {
    let mut fs = MemDisk::new();
    let store = fs.open("kv").unwrap();
    assert_eq!(fs.put(&store, "k", "v1"), Ok(()));
    assert_eq!(fs.get(&store, "k"), Ok("v1".to_string()));
}

#[test]
fn second_put_keeps_first_value() {
    let mut fs = MemDisk::new();
    let store = fs.open("kv").unwrap();
    assert_eq!(fs.put(&store, "k", "v1"), Ok(()));
    assert_eq!(fs.put(&store, "k", "v2"), Err(StoreError::AlreadyExists));
    assert_eq!(fs.get(&store, "k"), Ok("v1".to_string()));
}

#[test]
fn update_absent_creates_and_present_replaces() {
    let mut fs = MemDisk::new();
    let store = fs.open("kv").unwrap();
    assert_eq!(fs.update(&store, "k", "one"), Ok(()));
    assert_eq!(fs.get(&store, "k"), Ok("one".to_string()));
    assert_eq!(fs.update(&store, "k", "two"), Ok(()));
    assert_eq!(fs.get(&store, "k"), Ok("two".to_string()));
    // the temporary file is gone after the rename
    assert_eq!(fs.files.len(), 1);
}

#[test]
fn update_requests_in_order() {
    let mut fs = MemDisk::new();
    let store = fs.open("kv").unwrap();
    assert_eq!(fs.put(&store, "k", "old"), Ok(()));
    let dir = store.get_key_path("k");
    let mut t = store.update("k", "new", 42);
    match t.next(FsReply::Done) {
        Step::Perform(FsRequest::Probe(p)) => assert_eq!(p, dir),
        _ => panic!("expected a probe"),
    }
    match t.next(FsReply::Done) {
        Step::Perform(FsRequest::CreateNew(p, v)) => {
            assert_eq!(p, format!("{}/42", dir));
            assert_eq!(v, "new");
        }
        _ => panic!("expected a write of the temporary file"),
    }
    match t.next(FsReply::Done) {
        Step::Perform(FsRequest::Rename(a, b)) => {
            assert_eq!(a, format!("{}/42", dir));
            assert_eq!(b, format!("{}/k", dir));
        }
        _ => panic!("expected a rename"),
    }
    assert!(matches!(t.next(FsReply::Done), Step::Finish(Outcome::Done)));
    assert!(t.is_finished());
    assert!(matches!(t.next(FsReply::Done), Step::Finish(Outcome::Failed(StoreError::Other))));
}

#[test]
fn update_with_large_stamp_names_tmp_in_decimal() {
    let store = MemDisk::new().open("kv").unwrap();
    let dir = store.get_key_path("k");
    let mut t = store.update("k", "v", 1234567890123456789);
    let _ = t.next(FsReply::Done);
    match t.next(FsReply::Done) {
        Step::Perform(FsRequest::CreateNew(p, _)) => {
            assert_eq!(p, format!("{}/1234567890123456789", dir))
        }
        _ => panic!("expected a write of the temporary file"),
    }
}

#[test]
fn update_without_shard_dir_falls_back_to_put() {
    let store = MemDisk::new().open("kv").unwrap();
    let dir = store.get_key_path("k");
    let mut t = store.update("k", "v", 7);
    let _ = t.next(FsReply::Done);
    match t.next(FsReply::Failed(StoreError::NotFound)) {
        Step::Perform(FsRequest::MakeDirs(p)) => assert_eq!(p, dir),
        _ => panic!("expected the directories to be made"),
    }
    match t.next(FsReply::Done) {
        Step::Perform(FsRequest::CreateNew(p, v)) => {
            assert_eq!(p, format!("{}/k", dir));
            assert_eq!(v, "v");
        }
        _ => panic!("expected an exclusive create"),
    }
    assert!(matches!(t.next(FsReply::Failed(StoreError::AlreadyExists)),
        Step::Finish(Outcome::Failed(StoreError::AlreadyExists))));
}

#[test]
fn delete_absent_changes_nothing() {
    let mut fs = MemDisk::new();
    let store = fs.open("kv").unwrap();
    assert_eq!(fs.put(&store, "a", "1"), Ok(()));
    assert_eq!(fs.delete(&store, "b"), Err(StoreError::NotFound));
    assert_eq!(fs.get(&store, "a"), Ok("1".to_string()));
    assert_eq!(fs.files.len(), 1);
}

#[test]
fn open_without_marker_is_not_a_store() {
    let mut fs = MemDisk::new();
    fs.dirs.insert("plain".to_string());
    assert_eq!(fs.open("plain").err(), Some(StoreError::NotAStore));
}

#[test]
fn open_existing_store_changes_nothing() {
    let mut fs = MemDisk::new();
    assert!(fs.open("kv").is_ok());
    let dirs = fs.dirs.len();
    let s = fs.open("kv").unwrap();
    assert_eq!(s.root(), "kv");
    assert_eq!(fs.dirs.len(), dirs);
    assert!(fs.dirs.contains("kv/.fskv"));
}

#[test]
fn get_failure_reply_is_passed_on() {
    let store = MemDisk::new().open("kv").unwrap();
    let mut t = store.get("k");
    let _ = t.next(FsReply::Done);
    assert!(matches!(t.next(FsReply::Failed(StoreError::Other)),
        Step::Finish(Outcome::Failed(StoreError::Other))));
}

#[test]
fn put_dir_failure_is_passed_on() {
    let store = MemDisk::new().open("kv").unwrap();
    let mut t = store.put("k", "v");
    let _ = t.next(FsReply::Done);
    assert!(matches!(t.next(FsReply::Failed(StoreError::Other)),
        Step::Finish(Outcome::Failed(StoreError::Other))));
}
