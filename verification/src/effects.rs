//! Requests, replies and the replay of a transcript.
//!
//! The library performs no input or output. An operation that needs the
//! outside world is a function of the replies received so far: it either
//! names the next request or gives its result. The caller performs the
//! request, appends the reply to the transcript and calls again.

use vstd::prelude::*;
use crate::model::{lemma_models_push, models, Model};

verus! {

/// What a request asks for. Each kind names the reply that answers it;
/// any request may be answered with `Failed` instead, and a reply of another
/// kind counts as a failure.
#[derive(Clone, Copy, PartialEq, Eq, Structural, Debug)]
pub enum RequestKind {
    /// Resolve the git executable and run it with `--version`. Answer: `Flag`.
    ProbeGit,
    /// Resolve the git executable, see that it runs, and run it with `args`,
    /// in directory `target` where that is not empty. Answer: `Exited`;
    /// `Unavailable` where it is not found or does not run; `Failed` where it
    /// could not be started.
    Git,
    /// Resolve the git executable and run it with `args`, without seeing
    /// first that it runs. Answers as for `Git`.
    GitResolved,
    /// Run `git`, as the system finds it, with `args`, in directory `target`
    /// where that is not empty. Answer: `Exited`, or `Failed` where it could
    /// not be started.
    GitDirect,
    /// Take the exclusive lock kept for the path `target`, waiting for it. Answer: `Done`.
    Lock,
    /// Give back the lock kept for the path `target`. Answer: `Done`.
    Unlock,
    /// Does the path `target` exist? Answer: `Flag`.
    PathExists,
    /// Remove the directory `target` and all below it. Answer: `Done`.
    RemoveDirAll,
    /// Create the directory `target` and its parents. Answer: `Done`.
    CreateDirAll,
    /// The names of the entries of directory `target`. Answer: `Names`.
    ListDir,
    /// The content of the file `target` as text. Answer: `Text`.
    ReadText,
    /// The canonical form of the path `target`. Answer: `Text`.
    Canonical,
    /// Can the repository at `target` be opened? Answer: `Done`.
    OpenRepo,
    /// The common directory of the repository at `target`. Answer: `Text`.
    CommonDir,
    /// The working directory of the repository at `target`. Answer: `Text` or `Absent`.
    Workdir,
    /// Is a worktree named `args[0]` registered? Answer: `Flag`.
    FindWorktree,
    /// Create local branch `args[0]` at the tip of local branch `args[1]`. Answer: `Done`.
    CreateBranch,
    /// The configuration string `args[0]`. Answer: `Text`.
    ConfigGet,
    /// Set configuration `args[0]` to `args[1]`. Answer: `Done`.
    ConfigSet,
    /// The short name of `HEAD`. Answer: `Text` or `Absent`.
    HeadName,
    /// The object id `HEAD` points at. Answer: `Text` or `Absent`.
    HeadTarget,
    /// The id of the commit `HEAD` leads to. Answer: `Text`.
    HeadCommit,
    /// The paths of tracked files that differ from `HEAD`. Answer: `Names`.
    DirtyPaths,
    /// Is there a local branch `args[0]`? Answer: `Flag`.
    LocalBranchExists,
    /// Is there a remote-tracking branch `args[0]`? Answer: `Flag`.
    RemoteBranchExists,
    /// The full reference name of branch `args[0]`, local before remote. Answer: `Text` or `Absent`.
    BranchRefName,
    /// The object id branch `args[0]` points at. Answer: `Text` or `Absent`.
    BranchTarget,
    /// The id of the commit branch `args[0]` leads to. Answer: `Text`.
    BranchCommit,
    /// Is branch `args[0]` a remote-tracking branch? Answer: `Flag`.
    BranchIsRemote,
    /// The full reference name of the upstream of local branch `args[0]`. Answer: `Text` or `Absent`.
    UpstreamRefName,
    /// The object id the upstream of local branch `args[0]` points at. Answer: `Text` or `Absent`.
    UpstreamTarget,
    /// The name of the remote that reference `args[0]` belongs to. Answer: `Text`.
    BranchRemoteName,
    /// The URL of remote `args[0]`. Answer: `Text` or `Absent`.
    RemoteUrl,
    /// Commits reachable from `args[0]` only, and from `args[1]` only. Answer: `Counts`.
    AheadBehind,
    /// The merge base of commits `args[0]` and `args[1]`. Answer: `Text`.
    MergeBase,
    /// Point reference `args[0]` at `args[1]`, with log message `args[2]`. Answer: `Done`.
    SetReference,
    /// Make `args[1]` the upstream of branch `args[0]`. Answer: `Done`.
    SetUpstream,
    /// Rename local branch `args[0]` to `args[1]`. Answer: `Done`.
    RenameBranch,
    /// Point `HEAD` at reference `args[0]`. Answer: `Done`.
    SetHead,
    /// Create the repository at `target` with first branch `args[0]`. Answer: `Done`.
    InitRepo,
    /// How many branches the repository has. Answer: `Counts`, the first number.
    CountBranches,
    /// Write a first commit with an empty tree to reference `args[0]`, by the
    /// author with name `args[1]` and email `args[2]`, with message
    /// `args[3]`. Answer: `Done`.
    InitialCommit,
    /// The parent of commit `args[0]`. Answer: `Text`.
    CommitParent,
    /// Does commit `args[0]` exist? Answer: `Done`.
    FindCommit,
    /// The first line of the message of commit `args[0]`. Answer: `Text` or `Absent`.
    CommitSummary,
    /// The file changes from the tree of commit `args[0]` to the tree of
    /// commit `args[1]`, restricted to the path patterns `args[2..]`, with
    /// changes of type included and renames and copies detected, each with
    /// the lines it adds and deletes. Answer: `Deltas`.
    TreeDiff,
    /// The local branches. Answer: `Branches`.
    LocalBranches,
    /// The remote-tracking branches. Answer: `Branches`.
    RemoteBranches,
    /// The files touched by each of the newest `args[0]` commits. Answer: `Touched`.
    RecentChanges,
    /// The present time in seconds since the epoch. Answer: `Instant`.
    Now,
    /// The name and the email of the author that the repository is
    /// configured with. Answer: `Names`, two of them.
    DefaultSignature,
    /// Can the tree of commit `args[0]` be read? Answer: `Done`.
    CommitTree,
    /// The name of remote `args[0]` as the repository holds it. Answer: `Text` or `Absent`.
    RemoteName,
}

/// A request to the outside world.
#[derive(Clone, Debug, PartialEq, Eq)]
pub struct Request {
    pub kind: RequestKind,
    /// The directory, file or repository the request is about.
    pub target: String,
    pub args: Vec<String>,
    /// Whether interactive prompts are switched off for the command.
    pub no_prompt: bool,
}

pub struct RequestModel {
    pub kind: RequestKind,
    pub target: Seq<char>,
    pub args: Seq<Seq<char>>,
    pub no_prompt: bool,
}

impl Model for Request {
    type M = RequestModel;

    open spec fn model(&self) -> RequestModel {
        RequestModel {
            kind: self.kind,
            target: self.target@,
            args: self.args.model(),
            no_prompt: self.no_prompt,
        }
    }
}

/// Why a request failed.
#[derive(Clone, Debug, PartialEq, Eq)]
pub struct Failure {
    /// Whether the failure was that a file or directory does not exist.
    pub not_found: bool,
    pub message: String,
}

pub struct FailureModel {
    pub not_found: bool,
    pub message: Seq<char>,
}

impl Model for Failure {
    type M = FailureModel;

    open spec fn model(&self) -> FailureModel {
        FailureModel { not_found: self.not_found, message: self.message@ }
    }
}

/// How a file-level change is classed by the object graph.
#[derive(Clone, Copy, PartialEq, Eq, Structural, Debug)]
pub enum DeltaStatus {
    Unmodified,
    Added,
    Deleted,
    Modified,
    Renamed,
    Copied,
    Ignored,
    Untracked,
    Typechange,
    Unreadable,
    Conflicted,
}

/// What is known of the blob on one side of a change.
#[derive(Clone, Debug, PartialEq, Eq)]
pub struct BlobFacts {
    pub binary: bool,
    pub size: usize,
    /// The content, where it is valid UTF-8.
    pub text: Option<String>,
}

pub struct BlobFactsModel {
    pub binary: bool,
    pub size: usize,
    pub text: Option<Seq<char>>,
}

impl Model for BlobFacts {
    type M = BlobFactsModel;

    open spec fn model(&self) -> BlobFactsModel {
        BlobFactsModel { binary: self.binary, size: self.size, text: self.text.model() }
    }
}

/// One side of a file-level change.
#[derive(Clone, Debug, PartialEq, Eq)]
pub struct DeltaSide {
    /// Whether the object id of this side is all zeros.
    pub id_zero: bool,
    pub path: Option<String>,
    /// The blob of this side, where the repository holds it.
    pub blob: Option<BlobFacts>,
}

pub struct DeltaSideModel {
    pub id_zero: bool,
    pub path: Option<Seq<char>>,
    pub blob: Option<BlobFactsModel>,
}

impl Model for DeltaSide {
    type M = DeltaSideModel;

    open spec fn model(&self) -> DeltaSideModel {
        DeltaSideModel { id_zero: self.id_zero, path: self.path.model(), blob: self.blob.model() }
    }
}

/// A file-level change between two trees, as read from the object graph.
#[derive(Clone, Debug, PartialEq, Eq)]
pub struct DeltaRecord {
    pub status: DeltaStatus,
    pub old_file: DeltaSide,
    pub new_file: DeltaSide,
    /// Lines added and deleted, where a patch could be computed.
    pub line_stats: Option<(usize, usize)>,
}

pub struct DeltaRecordModel {
    pub status: DeltaStatus,
    pub old_file: DeltaSideModel,
    pub new_file: DeltaSideModel,
    pub line_stats: Option<(usize, usize)>,
}

impl Model for DeltaRecord {
    type M = DeltaRecordModel;

    open spec fn model(&self) -> DeltaRecordModel {
        DeltaRecordModel {
            status: self.status,
            old_file: self.old_file.model(),
            new_file: self.new_file.model(),
            line_stats: self.line_stats,
        }
    }
}

/// A branch as read from the object graph.
#[derive(Clone, Debug, PartialEq, Eq)]
pub struct BranchRecord {
    /// The branch name, where it is valid UTF-8.
    pub name: Option<String>,
    /// The time of the commit at its tip, in seconds since the epoch.
    pub seconds: Option<i64>,
}

pub struct BranchRecordModel {
    pub name: Option<Seq<char>>,
    pub seconds: Option<i64>,
}

impl Model for BranchRecord {
    type M = BranchRecordModel;

    open spec fn model(&self) -> BranchRecordModel {
        BranchRecordModel { name: self.name.model(), seconds: self.seconds }
    }
}

/// The files one commit touched.
#[derive(Clone, Debug, PartialEq, Eq)]
pub struct TouchRecord {
    /// The commit time in seconds since the epoch.
    pub seconds: i64,
    pub paths: Vec<String>,
}

pub struct TouchRecordModel {
    pub seconds: i64,
    pub paths: Seq<Seq<char>>,
}

impl Model for TouchRecord {
    type M = TouchRecordModel;

    open spec fn model(&self) -> TouchRecordModel {
        TouchRecordModel { seconds: self.seconds, paths: self.paths.model() }
    }
}

/// The answer to a request.
#[derive(Clone, Debug, PartialEq, Eq)]
pub enum Reply {
    /// The git executable was not found or does not run.
    Unavailable,
    /// The command ran to its end.
    Exited { code: Option<i32>, stdout: Vec<u8>, stderr: Vec<u8> },
    /// The request failed.
    Failed(Failure),
    /// The request succeeded and returns nothing.
    Done,
    Flag(bool),
    Text(String),
    /// Nothing is there to return.
    Absent,
    Names(Vec<String>),
    Counts(usize, usize),
    Instant(i64),
    Deltas(Vec<DeltaRecord>),
    Branches(Vec<BranchRecord>),
    Touched(Vec<TouchRecord>),
}

pub enum ReplyModel {
    Unavailable,
    Exited { code: Option<i32>, stdout: Seq<u8>, stderr: Seq<u8> },
    Failed(FailureModel),
    Done,
    Flag(bool),
    Text(Seq<char>),
    Absent,
    Names(Seq<Seq<char>>),
    Counts(usize, usize),
    Instant(i64),
    Deltas(Seq<DeltaRecordModel>),
    Branches(Seq<BranchRecordModel>),
    Touched(Seq<TouchRecordModel>),
}

impl Model for Reply {
    type M = ReplyModel;

    open spec fn model(&self) -> ReplyModel {
        match self {
            Reply::Unavailable => ReplyModel::Unavailable,
            Reply::Exited { code, stdout, stderr } => ReplyModel::Exited {
                code: *code,
                stdout: stdout@,
                stderr: stderr@,
            },
            Reply::Failed(f) => ReplyModel::Failed(f.model()),
            Reply::Done => ReplyModel::Done,
            Reply::Flag(b) => ReplyModel::Flag(*b),
            Reply::Text(t) => ReplyModel::Text(t@),
            Reply::Absent => ReplyModel::Absent,
            Reply::Names(n) => ReplyModel::Names(n.model()),
            Reply::Counts(a, b) => ReplyModel::Counts(*a, *b),
            Reply::Instant(t) => ReplyModel::Instant(*t),
            Reply::Deltas(d) => ReplyModel::Deltas(d.model()),
            Reply::Branches(b) => ReplyModel::Branches(b.model()),
            Reply::Touched(t) => ReplyModel::Touched(t.model()),
        }
    }
}

/// Where an operation stands after reading the replies it was given: it
/// waits for the answer to a request, or it is done, with its result and the
/// replies it left unread.
pub enum Run<T> {
    Pending(RequestModel),
    Ready(T, Seq<ReplyModel>),
}

/// The first unread reply, or the request where all were read.
pub open spec fn ask(request: RequestModel, rest: Seq<ReplyModel>) -> Run<ReplyModel> {
    if rest.len() == 0 {
        Run::Pending(request)
    } else {
        Run::Ready(rest[0], rest.drop_first())
    }
}

/// Whether what an operation returned, and the replies it left unread, are
/// what its run says.
pub open spec fn settled<T: Model>(
    returned: Result<T, Request>,
    unread: Seq<ReplyModel>,
    run: Run<T::M>,
) -> bool {
    match run {
        Run::Pending(request) => returned is Err && returned->Err_0.model() == request,
        Run::Ready(value, rest) => returned is Ok && returned->Ok_0.model() == value && unread
            == rest,
    }
}

/// A transcript being read from its start.
pub struct Replay<'a> {
    pub rest: &'a [Reply],
}

impl<'a> Replay<'a> {
    /// The replies not read yet.
    pub open spec fn unread(&self) -> Seq<ReplyModel> {
        models(self.rest@)
    }

    /// Begins to read `log`.
    pub fn new(log: &'a Vec<Reply>) -> (r: Self)
        ensures
            r.unread() == log.model(),
    {
        Replay { rest: log.as_slice() }
    }

    /// Reads the next reply as the answer to `request`. Where none is left,
    /// the request is handed back: it is what the caller must perform.
    pub fn ask(&mut self, request: Request) -> (r: Result<&'a Reply, Request>)
        ensures
            settled(r, final(self).unread(), ask(request.model(), old(self).unread())),
            r is Err ==> r->Err_0 == request,
    {
        let n: usize = self.rest.len();
        if n == 0 {
            Err(request)
        } else {
            let reply = &self.rest[0];
            let ghost before = self.rest@;
            self.rest = vstd::slice::slice_subrange(self.rest, 1, n);
            proof {
                assert(before.subrange(1, n as int) =~= before.drop_first());
                assert(models(before.drop_first()) =~= models(before).drop_first());
            }
            Ok(reply)
        }
    }
}

impl<'b, T: Model> Model for &'b T {
    type M = T::M;

    open spec fn model(&self) -> T::M {
        (**self).model()
    }
}

/// A copy of a list of strings.
pub fn copy_names(names: &Vec<String>) -> (r: Vec<String>)
    ensures
        r.model() == names.model(),
{
    let mut out: Vec<String> = Vec::new();
    let mut i: usize = 0;
    while i < names.len()
        invariant
            i <= names.len(),
            out.model() == names.model().take(i as int),
        decreases names.len() - i,
    {
        let ghost before = out@;
        out.push(names[i].clone());
        proof {
            lemma_models_push(before, names@[i as int]);
            assert(names.model().take(i + 1) =~= names.model().take(i as int).push(
                names@[i as int]@,
            ));
        }
        i += 1;
    }
    assert(names.model().take(names@.len() as int) =~= names.model());
    out
}

/// A list of strings from string slices.
pub fn words(parts: &[&str]) -> (r: Vec<String>)
    ensures
        r.model() == Seq::new(parts@.len(), |i: int| parts@[i]@),
{
    let mut out: Vec<String> = Vec::new();
    let mut i: usize = 0;
    while i < parts.len()
        invariant
            i <= parts.len(),
            out.model() == Seq::new(i as nat, |k: int| parts@[k]@),
        decreases parts.len() - i,
    {
        let ghost before = out@;
        let word = parts[i].to_owned();
        proof {
            lemma_models_push(before, word);
            assert(Seq::new((i + 1) as nat, |k: int| parts@[k]@) =~= Seq::new(
                i as nat,
                |k: int| parts@[k]@,
            ).push(parts@[i as int]@));
        }
        out.push(word);
        i += 1;
    }
    out
}

impl Request {
    /// A request of kind `kind` about `target` with the operands `args`.
    pub fn new(kind: RequestKind, target: &str, args: Vec<String>) -> (r: Request)
        ensures
            r.model() == (RequestModel {
                kind,
                target: target@,
                args: args.model(),
                no_prompt: false,
            }),
    {
        Request { kind, target: target.to_owned(), args, no_prompt: false }
    }

    /// What `Request::new` makes, as a model.
    pub open spec fn plain(kind: RequestKind, target: Seq<char>, args: Seq<Seq<char>>) -> RequestModel {
        RequestModel { kind, target, args, no_prompt: false }
    }
}

impl Failure {
    /// The failure that stands for a reply of a kind the request cannot have.
    pub open spec fn unexpected() -> FailureModel {
        FailureModel { not_found: false, message: "unexpected reply"@ }
    }

    fn make_unexpected() -> (r: Failure)
        ensures
            r.model() == Failure::unexpected(),
    {
        Failure { not_found: false, message: "unexpected reply".to_owned() }
    }

    /// A copy of this failure.
    pub fn copy(&self) -> (r: Failure)
        ensures
            r.model() == self.model(),
    {
        Failure { not_found: self.not_found, message: self.message.clone() }
    }
}

/// A reply read as the answer to a request that returns nothing.
pub open spec fn done_of(reply: ReplyModel) -> Result<(), FailureModel> {
    match reply {
        ReplyModel::Done => Ok(()),
        ReplyModel::Failed(f) => Err(f),
        _ => Err(Failure::unexpected()),
    }
}

/// A reply read as a yes or no.
pub open spec fn flag_of(reply: ReplyModel) -> Result<bool, FailureModel> {
    match reply {
        ReplyModel::Flag(b) => Ok(b),
        ReplyModel::Failed(f) => Err(f),
        _ => Err(Failure::unexpected()),
    }
}

/// A reply read as a text that may be absent.
pub open spec fn text_of(reply: ReplyModel) -> Result<Option<Seq<char>>, FailureModel> {
    match reply {
        ReplyModel::Text(t) => Ok(Some(t)),
        ReplyModel::Absent => Ok(None),
        ReplyModel::Failed(f) => Err(f),
        _ => Err(Failure::unexpected()),
    }
}

/// A reply read as a list of names.
pub open spec fn names_of(reply: ReplyModel) -> Result<Seq<Seq<char>>, FailureModel> {
    match reply {
        ReplyModel::Names(n) => Ok(n),
        ReplyModel::Failed(f) => Err(f),
        _ => Err(Failure::unexpected()),
    }
}

/// A reply read as a pair of counts.
pub open spec fn counts_of(reply: ReplyModel) -> Result<(usize, usize), FailureModel> {
    match reply {
        ReplyModel::Counts(a, b) => Ok((a, b)),
        ReplyModel::Failed(f) => Err(f),
        _ => Err(Failure::unexpected()),
    }
}

impl Reply {
    /// This reply as the answer to a request that returns nothing.
    pub fn done(&self) -> (r: Result<(), Failure>)
        ensures
            r.model() == done_of(self.model()),
    {
        match self {
            Reply::Done => Ok(()),
            Reply::Failed(f) => Err(f.copy()),
            _ => Err(Failure::make_unexpected()),
        }
    }

    /// This reply as a yes or no.
    pub fn flag(&self) -> (r: Result<bool, Failure>)
        ensures
            r.model() == flag_of(self.model()),
    {
        match self {
            Reply::Flag(b) => Ok(*b),
            Reply::Failed(f) => Err(f.copy()),
            _ => Err(Failure::make_unexpected()),
        }
    }

    /// This reply as a text that may be absent.
    pub fn text(&self) -> (r: Result<Option<String>, Failure>)
        ensures
            r.model() == text_of(self.model()),
    {
        match self {
            Reply::Text(t) => Ok(Some(t.clone())),
            Reply::Absent => Ok(None),
            Reply::Failed(f) => Err(f.copy()),
            _ => Err(Failure::make_unexpected()),
        }
    }

    /// This reply as a list of names.
    pub fn names(&self) -> (r: Result<Vec<String>, Failure>)
        ensures
            r.model() == names_of(self.model()),
    {
        match self {
            Reply::Names(n) => Ok(copy_names(n)),
            Reply::Failed(f) => Err(f.copy()),
            _ => Err(Failure::make_unexpected()),
        }
    }

    /// This reply as a pair of counts.
    pub fn counts(&self) -> (r: Result<(usize, usize), Failure>)
        ensures
            r.model() == counts_of(self.model()),
    {
        match self {
            Reply::Counts(a, b) => Ok((*a, *b)),
            Reply::Failed(f) => Err(f.copy()),
            _ => Err(Failure::make_unexpected()),
        }
    }
}

/// A list of one string.
pub fn argv1(a: &str) -> (r: Vec<String>)
    ensures
        r.model() == seq![a@],
{
    let r = words(&[a]);
    assert(r.model() =~= seq![a@]);
    r
}

/// A list of two strings.
pub fn argv2(a: &str, b: &str) -> (r: Vec<String>)
    ensures
        r.model() == seq![a@, b@],
{
    let r = words(&[a, b]);
    assert(r.model() =~= seq![a@, b@]);
    r
}

/// A list of three strings.
pub fn argv3(a: &str, b: &str, c: &str) -> (r: Vec<String>)
    ensures
        r.model() == seq![a@, b@, c@],
{
    let r = words(&[a, b, c]);
    assert(r.model() =~= seq![a@, b@, c@]);
    r
}

/// A list of four strings.
pub fn argv4(a: &str, b: &str, c: &str, d: &str) -> (r: Vec<String>)
    ensures
        r.model() == seq![a@, b@, c@, d@],
{
    let r = words(&[a, b, c, d]);
    assert(r.model() =~= seq![a@, b@, c@, d@]);
    r
}

/// A list of five strings.
pub fn argv5(a: &str, b: &str, c: &str, d: &str, e: &str) -> (r: Vec<String>)
    ensures
        r.model() == seq![a@, b@, c@, d@, e@],
{
    let r = words(&[a, b, c, d, e]);
    assert(r.model() =~= seq![a@, b@, c@, d@, e@]);
    r
}

/// Whether a path exists, as the reply says: a failed probe counts as no.
pub open spec fn exists_run(path: Seq<char>, rest: Seq<ReplyModel>) -> Run<bool> {
    match ask(Request::plain(RequestKind::PathExists, path, Seq::empty()), rest) {
        Run::Pending(q) => Run::Pending(q),
        Run::Ready(reply, rest1) => Run::Ready(flag_of(reply) == Ok::<bool, FailureModel>(true), rest1),
    }
}

/// Asks whether `path` exists.
pub fn path_exists(io: &mut Replay, path: &str) -> (r: Result<bool, Request>)
    ensures
        settled(r, final(io).unread(), exists_run(path@, old(io).unread())),
{
    let args: Vec<String> = Vec::new();
    assert(args.model() =~= Seq::<Seq<char>>::empty());
    let reply = io.ask(Request::new(RequestKind::PathExists, path, args))?;
    Ok(
        match reply.flag() {
            Ok(b) => b,
            Err(_) => false,
        },
    )
}

/// The run of a request that returns nothing.
pub open spec fn done_run(request: RequestModel, rest: Seq<ReplyModel>) -> Run<
    Result<(), FailureModel>,
> {
    match ask(request, rest) {
        Run::Pending(q) => Run::Pending(q),
        Run::Ready(reply, rest1) => Run::Ready(done_of(reply), rest1),
    }
}

/// The run of a request that returns a yes or no.
pub open spec fn flag_run(request: RequestModel, rest: Seq<ReplyModel>) -> Run<
    Result<bool, FailureModel>,
> {
    match ask(request, rest) {
        Run::Pending(q) => Run::Pending(q),
        Run::Ready(reply, rest1) => Run::Ready(flag_of(reply), rest1),
    }
}

/// The run of a request that returns a text or nothing.
pub open spec fn text_run(request: RequestModel, rest: Seq<ReplyModel>) -> Run<
    Result<Option<Seq<char>>, FailureModel>,
> {
    match ask(request, rest) {
        Run::Pending(q) => Run::Pending(q),
        Run::Ready(reply, rest1) => Run::Ready(text_of(reply), rest1),
    }
}

/// The run of a request that returns names.
pub open spec fn names_run(request: RequestModel, rest: Seq<ReplyModel>) -> Run<
    Result<Seq<Seq<char>>, FailureModel>,
> {
    match ask(request, rest) {
        Run::Pending(q) => Run::Pending(q),
        Run::Ready(reply, rest1) => Run::Ready(names_of(reply), rest1),
    }
}

/// The run of a request that returns two counts.
pub open spec fn counts_run(request: RequestModel, rest: Seq<ReplyModel>) -> Run<
    Result<(usize, usize), FailureModel>,
> {
    match ask(request, rest) {
        Run::Pending(q) => Run::Pending(q),
        Run::Ready(reply, rest1) => Run::Ready(counts_of(reply), rest1),
    }
}

impl<'a> Replay<'a> {
    /// Performs a request that returns nothing.
    pub fn done(&mut self, request: Request) -> (r: Result<Result<(), Failure>, Request>)
        ensures
            settled(r, final(self).unread(), done_run(request.model(), old(self).unread())),
    {
        let reply = self.ask(request)?;
        Ok(reply.done())
    }

    /// Performs a request that returns a yes or no.
    pub fn flag(&mut self, request: Request) -> (r: Result<Result<bool, Failure>, Request>)
        ensures
            settled(r, final(self).unread(), flag_run(request.model(), old(self).unread())),
    {
        let reply = self.ask(request)?;
        Ok(reply.flag())
    }

    /// Performs a request that returns a text or nothing.
    pub fn text(&mut self, request: Request) -> (r: Result<Result<Option<String>, Failure>, Request>)
        ensures
            settled(r, final(self).unread(), text_run(request.model(), old(self).unread())),
    {
        let reply = self.ask(request)?;
        Ok(reply.text())
    }

    /// Performs a request that returns names.
    pub fn names(&mut self, request: Request) -> (r: Result<Result<Vec<String>, Failure>, Request>)
        ensures
            settled(r, final(self).unread(), names_run(request.model(), old(self).unread())),
    {
        let reply = self.ask(request)?;
        Ok(reply.names())
    }

    /// Performs a request that returns two counts.
    pub fn counts(&mut self, request: Request) -> (r: Result<
        Result<(usize, usize), Failure>,
        Request,
    >)
        ensures
            settled(r, final(self).unread(), counts_run(request.model(), old(self).unread())),
    {
        let reply = self.ask(request)?;
        Ok(reply.counts())
    }
}

/// A reply read as a text that must be there.
pub open spec fn must_text_of(reply: ReplyModel) -> Result<Seq<char>, FailureModel> {
    match reply {
        ReplyModel::Text(t) => Ok(t),
        ReplyModel::Failed(f) => Err(f),
        _ => Err(Failure::unexpected()),
    }
}

/// The run of a request that returns a text.
pub open spec fn must_text_run(request: RequestModel, rest: Seq<ReplyModel>) -> Run<
    Result<Seq<char>, FailureModel>,
> {
    match ask(request, rest) {
        Run::Pending(q) => Run::Pending(q),
        Run::Ready(reply, rest1) => Run::Ready(must_text_of(reply), rest1),
    }
}

impl Reply {
    /// This reply as a text that must be there.
    pub fn must_text(&self) -> (r: Result<String, Failure>)
        ensures
            r.model() == must_text_of(self.model()),
    {
        match self {
            Reply::Text(t) => Ok(t.clone()),
            Reply::Failed(f) => Err(f.copy()),
            _ => Err(Failure::make_unexpected()),
        }
    }
}

impl<'a> Replay<'a> {
    /// Performs a request that returns a text.
    pub fn must_text(&mut self, request: Request) -> (r: Result<Result<String, Failure>, Request>)
        ensures
            settled(r, final(self).unread(), must_text_run(request.model(), old(self).unread())),
    {
        let reply = self.ask(request)?;
        Ok(reply.must_text())
    }
}

} // verus!
