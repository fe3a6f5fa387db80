use vstd::prelude::*;
use crate::shard::{join, join_path, key_dir, key_file, key_path, push_char};

verus! {

/// How an operation or a filesystem request failed.
#[derive(Clone, Copy, Debug, PartialEq, Eq, Structural)]
pub enum StoreError {
    /// The record (or path) is absent.
    NotFound,
    /// An exclusive create met a file that is already there.
    AlreadyExists,
    /// The root exists but holds no store marker.
    NotAStore,
    /// Any other filesystem failure (permissions, disk full, ...).
    Other,
}

/// What the filesystem answered to the last request.
pub enum FsReply {
    /// The request succeeded.
    Done,
    /// A read succeeded with these contents.
    Contents(String),
    /// The request failed.
    Failed(StoreError),
}

/// The mathematical value of an [`FsReply`].
pub enum ReplyModel {
    Done,
    Contents(Seq<char>),
    Failed(StoreError),
}

impl View for FsReply {
    type V = ReplyModel;

    open spec fn view(&self) -> ReplyModel {
        match self {
            FsReply::Done => ReplyModel::Done,
            FsReply::Contents(s) => ReplyModel::Contents(s@),
            FsReply::Failed(e) => ReplyModel::Failed(*e),
        }
    }
}

/// One filesystem request that the caller performs on the store's behalf.
pub enum FsRequest {
    /// Succeeds if the path exists (as a file or a directory).
    Probe(String),
    /// Creates the directory and all missing ancestors; succeeds if it exists.
    MakeDirs(String),
    /// Creates the file, failing if it already exists, then writes the text.
    CreateNew(String, String),
    /// Reads the whole file as text.
    ReadAll(String),
    /// Renames the first path onto the second, replacing what is there.
    Rename(String, String),
    /// Removes the file.
    Remove(String),
}

/// The mathematical value of an [`FsRequest`].
pub enum RequestModel {
    Probe(Seq<char>),
    MakeDirs(Seq<char>),
    CreateNew(Seq<char>, Seq<char>),
    ReadAll(Seq<char>),
    Rename(Seq<char>, Seq<char>),
    Remove(Seq<char>),
}

impl View for FsRequest {
    type V = RequestModel;

    open spec fn view(&self) -> RequestModel {
        match self {
            FsRequest::Probe(p) => RequestModel::Probe(p@),
            FsRequest::MakeDirs(p) => RequestModel::MakeDirs(p@),
            FsRequest::CreateNew(p, v) => RequestModel::CreateNew(p@, v@),
            FsRequest::ReadAll(p) => RequestModel::ReadAll(p@),
            FsRequest::Rename(a, b) => RequestModel::Rename(a@, b@),
            FsRequest::Remove(p) => RequestModel::Remove(p@),
        }
    }
}

/// A handle on the store rooted at a directory. It holds the root path only.
#[derive(Debug)]
pub struct Store {
    root_directory: String,
}

impl View for Store {
    type V = Seq<char>;

    closed spec fn view(&self) -> Seq<char> {
        self.root_directory@
    }
}

/// How a finished operation ended.
pub enum Outcome {
    /// The store was opened or created.
    Opened(Store),
    /// The write or delete took effect.
    Done,
    /// The value that was read.
    Value(String),
    /// The operation failed.
    Failed(StoreError),
}

/// The mathematical value of an [`Outcome`].
pub enum OutcomeModel {
    Opened(Seq<char>),
    Done,
    Value(Seq<char>),
    Failed(StoreError),
}

impl View for Outcome {
    type V = OutcomeModel;

    open spec fn view(&self) -> OutcomeModel {
        match self {
            Outcome::Opened(s) => OutcomeModel::Opened(s@),
            Outcome::Done => OutcomeModel::Done,
            Outcome::Value(v) => OutcomeModel::Value(v@),
            Outcome::Failed(e) => OutcomeModel::Failed(*e),
        }
    }
}

/// What a task asks for next.
pub enum Step {
    /// Perform this request and hand the reply to [`Task::next`].
    Perform(FsRequest),
    /// The operation is over.
    Finish(Outcome),
}

/// The mathematical value of a [`Step`].
pub enum StepModel {
    Perform(RequestModel),
    Finish(OutcomeModel),
}

impl View for Step {
    type V = StepModel;

    open spec fn view(&self) -> StepModel {
        match self {
            Step::Perform(r) => StepModel::Perform(r@),
            Step::Finish(o) => StepModel::Finish(o@),
        }
    }
}

#[derive(Clone, Copy, Debug, PartialEq, Eq, Structural)]
/// Which operation a task carries out.
pub enum Kind {
    Open,
    Put,
    Get,
    Update,
    Delete,
}

#[derive(Clone, Copy, Debug, PartialEq, Eq, Structural)]
/// Where a task stands: the request it waits on the reply to.
pub enum Stage {
    Start,
    OpenCheckRoot,
    OpenCheckMarker,
    OpenCreate,
    PutDirs,
    PutCreate,
    GetRead,
    UpdateProbe,
    UpdateWrite,
    UpdateRename,
    DeleteRemove,
    Finished,
}

/// One operation on the store, in progress.
pub struct Task {
    kind: Kind,
    stage: Stage,
    root: String,
    dir: String,
    file: String,
    tmp: String,
    value: String,
}

/// The mathematical value of a [`Task`]: the paths it works on, the value
/// it writes, and its stage.
pub struct TaskModel {
    pub kind: Kind,
    pub stage: Stage,
    pub root: Seq<char>,
    pub dir: Seq<char>,
    pub file: Seq<char>,
    pub tmp: Seq<char>,
    pub value: Seq<char>,
}

impl View for Task {
    type V = TaskModel;

    closed spec fn view(&self) -> TaskModel {
        TaskModel {
            kind: self.kind,
            stage: self.stage,
            root: self.root@,
            dir: self.dir@,
            file: self.file@,
            tmp: self.tmp@,
            value: self.value@,
        }
    }
}

/// The name of the marker directory that tells a store root apart.
pub open spec fn marker_name() -> Seq<char> {
    seq!['.', 'f', 's', 'k', 'v']
}

/// The decimal digit of `n`, for `n < 10`.
pub open spec fn decimal_digit(n: nat) -> char {
    ((48 + n) as u8) as char
}

/// The decimal text of `n`, without leading zeros.
pub open spec fn decimal(n: nat) -> Seq<char>
    decreases n,
{
    if n < 10 {
        seq![decimal_digit(n)]
    } else {
        decimal(n / 10).push(decimal_digit(n % 10))
    }
}

/// A task in its first stage.
pub open spec fn fresh(
    kind: Kind,
    root: Seq<char>,
    dir: Seq<char>,
    file: Seq<char>,
    tmp: Seq<char>,
    value: Seq<char>,
) -> TaskModel {
    TaskModel { kind, stage: Stage::Start, root, dir, file, tmp, value }
}

/// Opening the store at `root`.
pub open spec fn open_task(root: Seq<char>) -> TaskModel {
    fresh(Kind::Open, root, root, join(root, marker_name()), Seq::empty(), Seq::empty())
}

/// Creating the record of `key` with `value`.
pub open spec fn put_task(root: Seq<char>, key: Seq<char>, value: Seq<char>) -> TaskModel {
    fresh(Kind::Put, root, key_dir(root, key), key_file(root, key), Seq::empty(), value)
}

/// Reading the record of `key`.
pub open spec fn get_task(root: Seq<char>, key: Seq<char>) -> TaskModel {
    fresh(Kind::Get, root, key_dir(root, key), key_file(root, key), Seq::empty(), Seq::empty())
}

/// The temporary file an update with this stamp writes first.
pub open spec fn tmp_file(root: Seq<char>, key: Seq<char>, stamp: nat) -> Seq<char> {
    join(key_dir(root, key), decimal(stamp))
}

/// Setting the record of `key` to `value`, through a temporary file named by `stamp`.
pub open spec fn update_task(root: Seq<char>, key: Seq<char>, value: Seq<char>, stamp: nat) -> TaskModel {
    fresh(Kind::Update, root, key_dir(root, key), key_file(root, key), tmp_file(root, key, stamp), value)
}

/// Removing the record of `key`.
pub open spec fn delete_task(root: Seq<char>, key: Seq<char>) -> TaskModel {
    fresh(Kind::Delete, root, key_dir(root, key), key_file(root, key), Seq::empty(), Seq::empty())
}

/// Task `t` moved to `stage`.
pub open spec fn at(t: TaskModel, stage: Stage) -> TaskModel {
    TaskModel { stage, ..t }
}

/// Task `t` moves to `stage` and asks for `r`.
pub open spec fn perform(t: TaskModel, stage: Stage, r: RequestModel) -> (TaskModel, StepModel) {
    (at(t, stage), StepModel::Perform(r))
}

/// Task `t` ends with outcome `o`.
pub open spec fn finish(t: TaskModel, o: OutcomeModel) -> (TaskModel, StepModel) {
    (at(t, Stage::Finished), StepModel::Finish(o))
}

/// The outcome that a failed request carries over, or the given success.
pub open spec fn finish_with(t: TaskModel, reply: ReplyModel, success: OutcomeModel) -> (TaskModel, StepModel) {
    match reply {
        ReplyModel::Failed(e) => finish(t, OutcomeModel::Failed(e)),
        _ => finish(t, success),
    }
}

/// The next stage and step of task `t` once `reply` has come back for the
/// previous request (in the first stage `reply` is not read).
pub open spec fn advance(t: TaskModel, reply: ReplyModel) -> (TaskModel, StepModel) {
    let ok = !(reply is Failed);
    match t.stage {
        Stage::Start => match t.kind {
            Kind::Open => perform(t, Stage::OpenCheckRoot, RequestModel::Probe(t.root)),
            Kind::Put => perform(t, Stage::PutDirs, RequestModel::MakeDirs(t.dir)),
            Kind::Get => perform(t, Stage::GetRead, RequestModel::ReadAll(t.file)),
            Kind::Update => perform(t, Stage::UpdateProbe, RequestModel::Probe(t.dir)),
            Kind::Delete => perform(t, Stage::DeleteRemove, RequestModel::Remove(t.file)),
        },
        Stage::OpenCheckRoot => if ok {
            perform(t, Stage::OpenCheckMarker, RequestModel::Probe(t.file))
        } else {
            perform(t, Stage::OpenCreate, RequestModel::MakeDirs(t.file))
        },
        Stage::OpenCheckMarker => if ok {
            finish(t, OutcomeModel::Opened(t.root))
        } else {
            finish(t, OutcomeModel::Failed(StoreError::NotAStore))
        },
        Stage::OpenCreate => finish_with(t, reply, OutcomeModel::Opened(t.root)),
        Stage::PutDirs => if ok {
            perform(t, Stage::PutCreate, RequestModel::CreateNew(t.file, t.value))
        } else {
            finish_with(t, reply, OutcomeModel::Done)
        },
        Stage::PutCreate => finish_with(t, reply, OutcomeModel::Done),
        Stage::GetRead => match reply {
            ReplyModel::Contents(v) => finish(t, OutcomeModel::Value(v)),
            ReplyModel::Failed(e) => finish(t, OutcomeModel::Failed(e)),
            ReplyModel::Done => finish(t, OutcomeModel::Failed(StoreError::Other)),
        },
        Stage::UpdateProbe => if ok {
            perform(t, Stage::UpdateWrite, RequestModel::CreateNew(t.tmp, t.value))
        } else {
            perform(t, Stage::PutDirs, RequestModel::MakeDirs(t.dir))
        },
        Stage::UpdateWrite => if ok {
            perform(t, Stage::UpdateRename, RequestModel::Rename(t.tmp, t.file))
        } else {
            finish_with(t, reply, OutcomeModel::Done)
        },
        Stage::UpdateRename => finish_with(t, reply, OutcomeModel::Done),
        Stage::DeleteRemove => finish_with(t, reply, OutcomeModel::Done),
        Stage::Finished => finish(t, OutcomeModel::Failed(StoreError::Other)),
    }
}

/// Appends the decimal text of `n` to `s`.
fn push_decimal(s: &mut String, n: u128)
    ensures
        final(s)@ == old(s)@ + decimal(n as nat),
    decreases n,
{
    if n >= 10 {
        push_decimal(s, n / 10);
    }
    let d = (n % 10) as u8;
    push_char(s, (48u8 + d) as char);
    assert(final(s)@ =~= old(s)@ + decimal(n as nat));
}

impl Store {
    /// The root directory of the store.
    pub fn root(&self) -> (r: &str)
        ensures
            r@ == self@,
    {
        self.root_directory.as_str()
    }

    /// The directory that holds the record of `key`: the root followed by
    /// three directories named by successive four-digit slices of the key's
    /// MD5 digest in lower-case hexadecimal.
    pub fn get_key_path(&self, key: &str) -> (r: String)
        ensures
            r@ == key_dir(self@, key@),
    {
        key_path(self.root_directory.as_str(), key)
    }

    /// Opens the store at `root_dir`: an existing root must hold the marker
    /// directory, a missing one is created together with it.
    pub fn new(root_dir: &str) -> (t: Task)
        ensures
            t@ == open_task(root_dir@),
    {
        proof {
            reveal_strlit(".fskv");
        }
        let marker = join_path(root_dir, ".fskv");
        assert(".fskv"@ =~= marker_name());
        Task {
            kind: Kind::Open,
            stage: Stage::Start,
            root: root_dir.to_owned(),
            dir: root_dir.to_owned(),
            file: marker,
            tmp: String::new(),
            value: String::new(),
        }
    }

    /// Creates the record of `key` with `value`; fails if it already exists.
    pub fn put(&self, key: &str, value: &str) -> (t: Task)
        ensures
            t@ == put_task(self@, key@, value@),
    {
        let dir = self.get_key_path(key);
        let file = join_path(dir.as_str(), key);
        Task {
            kind: Kind::Put,
            stage: Stage::Start,
            root: self.root_directory.clone(),
            dir,
            file,
            tmp: String::new(),
            value: value.to_owned(),
        }
    }

    /// Reads the record of `key`.
    pub fn get(&self, key: &str) -> (t: Task)
        ensures
            t@ == get_task(self@, key@),
    {
        let dir = self.get_key_path(key);
        let file = join_path(dir.as_str(), key);
        Task {
            kind: Kind::Get,
            stage: Stage::Start,
            root: self.root_directory.clone(),
            dir,
            file,
            tmp: String::new(),
            value: String::new(),
        }
    }

    /// Sets the record of `key` to `value`. Where the key's shard directory
    /// exists the value is written to a temporary file named by `stamp` and
    /// renamed onto the record; otherwise the record is created as by `put`.
    pub fn update(&self, key: &str, value: &str, stamp: u128) -> (t: Task)
        ensures
            t@ == update_task(self@, key@, value@, stamp as nat),
    {
        let dir = self.get_key_path(key);
        let file = join_path(dir.as_str(), key);
        let mut name = String::new();
        push_decimal(&mut name, stamp);
        assert(name@ =~= decimal(stamp as nat));
        let tmp = join_path(dir.as_str(), name.as_str());
        Task {
            kind: Kind::Update,
            stage: Stage::Start,
            root: self.root_directory.clone(),
            dir,
            file,
            tmp,
            value: value.to_owned(),
        }
    }

    /// Removes the record of `key`.
    pub fn delete(&self, key: &str) -> (t: Task)
        ensures
            t@ == delete_task(self@, key@),
    {
        let dir = self.get_key_path(key);
        let file = join_path(dir.as_str(), key);
        Task {
            kind: Kind::Delete,
            stage: Stage::Start,
            root: self.root_directory.clone(),
            dir,
            file,
            tmp: String::new(),
            value: String::new(),
        }
    }
}

fn failed(reply: &FsReply) -> (r: bool)
    ensures
        r == (reply@ is Failed),
{
    match reply {
        FsReply::Failed(_) => true,
        _ => false,
    }
}

impl Task {
    /// Whether the task has handed out its outcome.
    pub fn is_finished(&self) -> (r: bool)
        ensures
            r == (self@.stage == Stage::Finished),
    {
        self.stage == Stage::Finished
    }

    fn go(&mut self, stage: Stage, r: FsRequest) -> (s: Step)
        ensures
            (final(self)@, s@) == perform(old(self)@, stage, r@),
    {
        self.stage = stage;
        Step::Perform(r)
    }

    fn end(&mut self, o: Outcome) -> (s: Step)
        ensures
            (final(self)@, s@) == finish(old(self)@, o@),
    {
        self.stage = Stage::Finished;
        Step::Finish(o)
    }

    fn end_with(&mut self, reply: FsReply, success: Outcome) -> (s: Step)
        ensures
            (final(self)@, s@) == finish_with(old(self)@, reply@, success@),
    {
        match reply {
            FsReply::Failed(e) => self.end(Outcome::Failed(e)),
            _ => self.end(success),
        }
    }

    fn opened(&self) -> (o: Outcome)
        ensures
            o@ == OutcomeModel::Opened(self@.root),
    {
        Outcome::Opened(Store { root_directory: self.root.clone() })
    }

    /// Hands the reply to the previous request to the task, and returns the
    /// next request or the outcome. In the first stage `reply` is not read;
    /// once finished, the task answers with a failure.
    pub fn next(&mut self, reply: FsReply) -> (s: Step)
        ensures
            (final(self)@, s@) == advance(old(self)@, reply@),
    {
        let ok = !failed(&reply);
        match self.stage {
            Stage::Start => match self.kind {
                Kind::Open => {
                    let p = self.root.clone();
                    self.go(Stage::OpenCheckRoot, FsRequest::Probe(p))
                },
                Kind::Put => {
                    let p = self.dir.clone();
                    self.go(Stage::PutDirs, FsRequest::MakeDirs(p))
                },
                Kind::Get => {
                    let p = self.file.clone();
                    self.go(Stage::GetRead, FsRequest::ReadAll(p))
                },
                Kind::Update => {
                    let p = self.dir.clone();
                    self.go(Stage::UpdateProbe, FsRequest::Probe(p))
                },
                Kind::Delete => {
                    let p = self.file.clone();
                    self.go(Stage::DeleteRemove, FsRequest::Remove(p))
                },
            },
            Stage::OpenCheckRoot => {
                let p = self.file.clone();
                if ok {
                    self.go(Stage::OpenCheckMarker, FsRequest::Probe(p))
                } else {
                    self.go(Stage::OpenCreate, FsRequest::MakeDirs(p))
                }
            },
            Stage::OpenCheckMarker => {
                if ok {
                    let o = self.opened();
                    self.end(o)
                } else {
                    self.end(Outcome::Failed(StoreError::NotAStore))
                }
            },
            Stage::OpenCreate => {
                let o = self.opened();
                self.end_with(reply, o)
            },
            Stage::PutDirs => {
                if ok {
                    let p = self.file.clone();
                    let v = self.value.clone();
                    self.go(Stage::PutCreate, FsRequest::CreateNew(p, v))
                } else {
                    self.end_with(reply, Outcome::Done)
                }
            },
            Stage::PutCreate => self.end_with(reply, Outcome::Done),
            Stage::GetRead => match reply {
                FsReply::Contents(v) => self.end(Outcome::Value(v)),
                FsReply::Failed(e) => self.end(Outcome::Failed(e)),
                FsReply::Done => self.end(Outcome::Failed(StoreError::Other)),
            },
            Stage::UpdateProbe => {
                if ok {
                    let p = self.tmp.clone();
                    let v = self.value.clone();
                    self.go(Stage::UpdateWrite, FsRequest::CreateNew(p, v))
                } else {
                    let p = self.dir.clone();
                    self.go(Stage::PutDirs, FsRequest::MakeDirs(p))
                }
            },
            Stage::UpdateWrite => {
                if ok {
                    let a = self.tmp.clone();
                    let b = self.file.clone();
                    self.go(Stage::UpdateRename, FsRequest::Rename(a, b))
                } else {
                    self.end_with(reply, Outcome::Done)
                }
            },
            Stage::UpdateRename => self.end_with(reply, Outcome::Done),
            Stage::DeleteRemove => self.end_with(reply, Outcome::Done),
            Stage::Finished => self.end(Outcome::Failed(StoreError::Other)),
        }
    }
}

} // verus!
