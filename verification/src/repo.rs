//! The identity of one mergeable source: its name, where it comes from, the
//! branch taken from it and whether a checkout of it is redone on every run.

use crate::command_queue::{ActionView, CommandQueue};
use crate::config::{ArgValue, ArgValueView, Field, ToolArg, ToolArgView};
use crate::error::{ErrorKind, MergeError, MergeErrorView};
use crate::identifier::{
    is_remote_identifier, remote_identifier, remote_name_injective, remote_name_text,
};
use crate::text::{is_absolute, join, join_path, join_path_is_absolute};
use vstd::prelude::*;

verus! {

/// Where a repository comes from.
#[derive(Debug)]
pub enum RepoRoot {
    /// A remote repository, by URL.
    Git { url: String, branch: String },
    /// A directory on this machine.
    Local { path: String, branch: String },
}

/// A `RepoRoot` as plain text.
pub enum RepoRootView {
    Git { url: Seq<char>, branch: Seq<char> },
    Local { path: Seq<char>, branch: Seq<char> },
}

impl RepoRootView {
    /// The branch, whichever the origin.
    pub open spec fn branch(self) -> Seq<char> {
        match self {
            RepoRootView::Git { branch, .. } => branch,
            RepoRootView::Local { branch, .. } => branch,
        }
    }

    /// The URL of a remote origin, the path of a local one.
    pub open spec fn location(self) -> Seq<char> {
        match self {
            RepoRootView::Git { url, .. } => url,
            RepoRootView::Local { path, .. } => path,
        }
    }

    /// Where the origin is found, as a remote's URL: the URL of a remote
    /// origin as it stands, and the path of a local one as seen from the
    /// directory `cwd`, which is the path itself where it is absolute.
    pub open spec fn resolved(self, cwd: Seq<char>) -> Seq<char> {
        match self {
            RepoRootView::Git { url, .. } => url,
            RepoRootView::Local { path, .. } => join_path(cwd, path),
        }
    }

    /// The same origin with another branch.
    pub open spec fn with_branch(self, branch: Seq<char>) -> RepoRootView {
        match self {
            RepoRootView::Git { url, .. } => RepoRootView::Git { url, branch },
            RepoRootView::Local { path, .. } => RepoRootView::Local { path, branch },
        }
    }
}

impl View for RepoRoot {
    type V = RepoRootView;

    open spec fn view(&self) -> RepoRootView {
        match self {
            RepoRoot::Git { url, branch } => RepoRootView::Git { url: url@, branch: branch@ },
            RepoRoot::Local { path, branch } => RepoRootView::Local {
                path: path@,
                branch: branch@,
            },
        }
    }
}

impl RepoRoot {
    /// The branch, whichever the origin.
    pub fn branch(&self) -> (branch: &String)
        ensures
            branch@ == self@.branch(),
    {
        match self {
            RepoRoot::Git { branch, .. } => branch,
            RepoRoot::Local { branch, .. } => branch,
        }
    }

    /// The branch, to be changed in place: the origin keeps its kind and its
    /// location and gets whatever branch is written.
    pub fn branch_mut(&mut self) -> (branch: &mut String)
        ensures
            branch@ == old(self)@.branch(),
            final(self)@ == old(self)@.with_branch(final(branch)@),
    {
        match self {
            RepoRoot::Git { branch, .. } => branch,
            RepoRoot::Local { branch, .. } => branch,
        }
    }

    /// The URL of a remote origin, the path of a local one.
    pub fn location(&self) -> (location: &String)
        ensures
            location@ == self@.location(),
    {
        match self {
            RepoRoot::Git { url, .. } => url,
            RepoRoot::Local { path, .. } => path,
        }
    }

    /// Where the origin is found, as a remote's URL: the URL of a remote
    /// origin as it stands, and the path of a local one as seen from the
    /// directory `cwd`.
    pub fn resolved(&self, cwd: &str) -> (url: String)
        ensures
            url@ == self@.resolved(cwd@),
    {
        match self {
            RepoRoot::Git { url, .. } => url.clone(),
            RepoRoot::Local { path, .. } => join(cwd, path.as_str()),
        }
    }
}

impl Clone for RepoRoot {
    fn clone(&self) -> (copy: Self)
        ensures
            copy@ == self@,
    {
        match self {
            RepoRoot::Git { url, branch } => RepoRoot::Git {
                url: url.clone(),
                branch: branch.clone(),
            },
            RepoRoot::Local { path, branch } => RepoRoot::Local {
                path: path.clone(),
                branch: branch.clone(),
            },
        }
    }
}

/// One mergeable source.
#[derive(Debug)]
pub struct Repo {
    /// Identifies the repository within a session.
    pub name: String,
    pub root: RepoRoot,
    /// Whether an existing checkout is replaced.
    pub clobber: bool,
}

/// A `Repo` as plain text.
pub struct RepoView {
    pub name: Seq<char>,
    pub root: RepoRootView,
    pub clobber: bool,
}

impl View for Repo {
    type V = RepoView;

    open spec fn view(&self) -> RepoView {
        RepoView { name: self.name@, root: self.root@, clobber: self.clobber }
    }
}

impl DeepView for Repo {
    type V = RepoView;

    open spec fn deep_view(&self) -> RepoView {
        self@
    }
}

impl Clone for Repo {
    fn clone(&self) -> (copy: Self)
        ensures
            copy@ == self@,
    {
        Repo { name: self.name.clone(), root: self.root.clone(), clobber: self.clobber }
    }
}

/// What a checkout takes: the repository's name, the directory to fill, the
/// local directory that stands in for the origin where there is one, else the
/// URL, the branch, and whether a checkout without history will do.
#[derive(Debug)]
pub struct CheckoutPlan {
    pub name: String,
    pub dest: String,
    pub over: Option<String>,
    pub url: String,
    pub branch: String,
    pub thin: bool,
}

/// A `CheckoutPlan` as plain text.
pub struct CheckoutPlanView {
    pub name: Seq<char>,
    pub dest: Seq<char>,
    pub over: Option<Seq<char>>,
    pub url: Seq<char>,
    pub branch: Seq<char>,
    pub thin: bool,
}

impl View for CheckoutPlan {
    type V = CheckoutPlanView;

    open spec fn view(&self) -> CheckoutPlanView {
        CheckoutPlanView {
            name: self.name@,
            dest: self.dest@,
            over: match self.over {
                Some(path) => Some(path@),
                None => None,
            },
            url: self.url@,
            branch: self.branch@,
            thin: self.thin,
        }
    }
}

/// A remote that exists in the checkout and gets a new URL, at once and not
/// through the queue. A failure to set it is reported under `label`.
#[derive(Debug)]
pub struct RemoteUrlUpdate {
    pub remote: String,
    pub url: String,
    pub label: String,
}

/// A `RemoteUrlUpdate` as plain text.
pub struct RemoteUrlUpdateView {
    pub remote: Seq<char>,
    pub url: Seq<char>,
    pub label: Seq<char>,
}

impl View for RemoteUrlUpdate {
    type V = RemoteUrlUpdateView;

    open spec fn view(&self) -> RemoteUrlUpdateView {
        RemoteUrlUpdateView { remote: self.remote@, url: self.url@, label: self.label@ }
    }
}

impl RemoteUrlUpdateView {
    /// What is reported where the new URL cannot be set: a failure of the
    /// registry, under the label of the registration.
    pub open spec fn failure(self, detail: Seq<char>) -> MergeErrorView {
        MergeErrorView { kind: ErrorKind::RegistryFailure, label: self.label, detail }
    }
}

impl RemoteUrlUpdate {
    /// The failure to report where the new URL cannot be set, for the
    /// reason `detail`.
    pub fn failure(&self, detail: &str) -> (error: MergeError)
        ensures
            error@ == self@.failure(detail@),
    {
        MergeError {
            kind: ErrorKind::RegistryFailure,
            label: self.label.clone(),
            detail: detail.to_owned(),
        }
    }
}

impl DeepView for RemoteUrlUpdate {
    type V = RemoteUrlUpdateView;

    open spec fn deep_view(&self) -> RemoteUrlUpdateView {
        self@
    }
}

/// A run of `git` with `args` in the directory `checkout`.
pub open spec fn git_action<F>(
    label: Seq<char>,
    args: Seq<Seq<char>>,
    checkout: Seq<char>,
) -> ActionView<F> {
    ActionView::External { program: "git"@, args, working_dir: checkout, label }
}

impl RepoView {
    /// The name under which the repository is registered as a remote.
    pub open spec fn remote_name(self) -> Seq<char> {
        remote_name_text(self.name, self.root.branch())
    }

    /// The repository's branch as seen through its remote.
    pub open spec fn remote_ref(self) -> Seq<char> {
        self.remote_name() + "/"@ + self.root.branch()
    }

    /// The repository and its branch, as they stand in a label.
    pub open spec fn branch_label(self) -> Seq<char> {
        self.name + "/"@ + self.root.branch()
    }

    /// A checkout is made where none exists, and remade where the
    /// repository is marked so.
    pub open spec fn needs_checkout(self, dest_exists: bool) -> bool {
        self.clobber || !dest_exists
    }

    /// The checkout of the repository into `dest`.
    pub open spec fn checkout_plan(self, dest: Seq<char>, thin: bool) -> CheckoutPlanView {
        CheckoutPlanView {
            name: self.name,
            dest,
            over: match self.root {
                RepoRootView::Local { path, .. } => Some(path),
                RepoRootView::Git { .. } => None,
            },
            url: match self.root {
                RepoRootView::Local { .. } => Seq::empty(),
                RepoRootView::Git { url, .. } => url,
            },
            branch: self.root.branch(),
            thin,
        }
    }

    /// The label of this repository's registration.
    pub open spec fn add_remote_label(self) -> Seq<char> {
        "add-remote("@ + self.name + ")"@
    }

    /// The new URL of this repository's remote, where the remote exists: the
    /// origin as resolved from the directory `cwd`.
    pub open spec fn url_update(self, cwd: Seq<char>) -> RemoteUrlUpdateView {
        RemoteUrlUpdateView {
            remote: self.remote_name(),
            url: self.root.resolved(cwd),
            label: self.add_remote_label(),
        }
    }

    /// The action that creates this repository's remote, to track its branch
    /// only, at the origin as resolved from the directory `cwd`.
    pub open spec fn add_remote_action<F>(
        self,
        checkout: Seq<char>,
        cwd: Seq<char>,
    ) -> ActionView<F> {
        git_action(
            self.add_remote_label(),
            seq![
                "remote"@,
                "add"@,
                "-t"@,
                self.root.branch(),
                self.remote_name(),
                self.root.resolved(cwd),
            ],
            checkout,
        )
    }

    /// The action that merges this repository's branch into the branch
    /// checked out.
    pub open spec fn merge_action<F>(self, checkout: Seq<char>) -> ActionView<F> {
        git_action(
            "merge("@ + self.branch_label() + ")"@,
            seq!["merge"@, "--no-edit"@, self.remote_ref()],
            checkout,
        )
    }

    /// The action that makes `branch_name` anew, at this repository's branch.
    pub open spec fn reset_action<F>(
        self,
        checkout: Seq<char>,
        branch_name: Seq<char>,
    ) -> ActionView<F> {
        git_action(
            "reset-integration-branch("@ + self.branch_label() + ")"@,
            seq!["checkout"@, "-B"@, branch_name, self.remote_ref()],
            checkout,
        )
    }
}

/// Whether `value` is of the kind that sets `field` of a repository: a text
/// for the source and the branch, a switch for the replacing of checkouts.
pub open spec fn fits(field: Field, value: ArgValueView) -> bool {
    match (field, value) {
        (Field::Source, ArgValueView::Text(_)) => true,
        (Field::Branch, ArgValueView::Text(_)) => true,
        (Field::Clobber, ArgValueView::Switch(_)) => true,
        _ => false,
    }
}

impl RepoView {
    /// The argument that names a local directory to take the repository
    /// from: `--NAME-src`.
    pub open spec fn source_arg(self) -> ToolArgView {
        ToolArgView {
            name: self.name,
            key: self.name,
            field: Field::Source,
            flag: self.name + "-src"@,
        }
    }

    /// The argument that names the branch to take: `--NAME-branch`.
    pub open spec fn branch_arg(self) -> ToolArgView {
        ToolArgView {
            name: self.name + "-src-branch"@,
            key: self.name,
            field: Field::Branch,
            flag: self.name + "-branch"@,
        }
    }

    /// The switch that says whether a checkout is replaced:
    /// `--clobber-NAME-srcs` and `--no-clobber-NAME-srcs`.
    pub open spec fn clobber_arg(self) -> ToolArgView {
        ToolArgView {
            name: "clobber-"@ + self.name + "-sources"@,
            key: self.name,
            field: Field::Clobber,
            flag: "clobber-"@ + self.name + "-srcs"@,
        }
    }

    /// The arguments by which the repository is configured.
    pub open spec fn args(self) -> Seq<ToolArgView> {
        seq![self.source_arg(), self.branch_arg(), self.clobber_arg()]
    }

    /// The repository after `field` was set to `value`, with relative paths
    /// taken from the directory `cwd`. A source makes the origin a local
    /// directory and keeps the branch; a branch keeps the origin; the
    /// switch sets whether checkouts are replaced. A value that does not
    /// fit the field changes nothing.
    pub open spec fn overridden(
        self,
        field: Field,
        value: ArgValueView,
        cwd: Seq<char>,
    ) -> RepoView {
        match (field, value) {
            (Field::Source, ArgValueView::Text(path)) => RepoView {
                root: RepoRootView::Local {
                    path: join_path(cwd, path),
                    branch: self.root.branch(),
                },
                ..self
            },
            (Field::Branch, ArgValueView::Text(branch)) => RepoView {
                root: self.root.with_branch(branch),
                ..self
            },
            (Field::Clobber, ArgValueView::Switch(on)) => RepoView { clobber: on, ..self },
            _ => self,
        }
    }
}

/// Two repositories have the same remote name exactly if they have the same
/// name and the same branch: the remote name is a function of the two, and
/// no two pairs share one.
pub proof fn remote_names_agree(a: RepoView, b: RepoView)
    ensures
        a.remote_name() == b.remote_name() <==> a.name == b.name && a.root.branch()
            == b.root.branch(),
{
    if a.remote_name() == b.remote_name() {
        remote_name_injective(a.name, a.root.branch(), b.name, b.root.branch());
    }
}

/// Whatever is set, a repository keeps its name.
pub proof fn override_keeps_name(
    repo: RepoView,
    field: Field,
    value: ArgValueView,
    cwd: Seq<char>,
)
    ensures
        repo.overridden(field, value, cwd).name == repo.name,
{
}

/// The URL that a remote gets for a local origin is an absolute path,
/// whenever the directory that paths are taken from is absolute; a path that
/// is absolute already is the URL as it stands. The URL of a remote origin
/// is never changed.
pub proof fn remote_url_is_resolved(repo: RepoView, cwd: Seq<char>)
    ensures
        repo.root is Local && is_absolute(cwd) ==> is_absolute(repo.url_update(cwd).url),
        repo.root is Local && is_absolute(repo.root.location()) ==> repo.url_update(cwd).url
            == repo.root.location(),
        repo.root is Git ==> repo.url_update(cwd).url == repo.root.location(),
{
    if repo.root is Local && is_absolute(cwd) {
        join_path_is_absolute(cwd, repo.root.location());
    }
}

/// A source that is set from an absolute directory is an absolute path, and
/// is what the repository's remote gets as its URL, from whatever directory
/// that is resolved.
pub proof fn source_override_is_absolute(
    repo: RepoView,
    path: Seq<char>,
    cwd: Seq<char>,
    later: Seq<char>,
)
    requires
        is_absolute(cwd),
    ensures
        is_absolute(
            repo.overridden(Field::Source, ArgValueView::Text(path), cwd).root.location(),
        ),
        repo.overridden(Field::Source, ArgValueView::Text(path), cwd).url_update(later).url
            == join_path(cwd, path),
{
    join_path_is_absolute(cwd, path);
}

/// The action that fetches from every remote of the checkout.
pub open spec fn fetch_action<F>(checkout: Seq<char>) -> ActionView<F> {
    git_action("fetch-all"@, seq!["fetch"@, "--all"@], checkout)
}

impl Repo {
    /// A repository of remote origin, whose checkout is redone on every run.
    pub fn new_git(name: &str, url: &str, branch: &str) -> (repo: Repo)
        ensures
            repo@ == (RepoView {
                name: name@,
                root: RepoRootView::Git { url: url@, branch: branch@ },
                clobber: true,
            }),
    {
        Repo {
            name: name.to_owned(),
            root: RepoRoot::Git { url: url.to_owned(), branch: branch.to_owned() },
            clobber: true,
        }
    }

    /// Decides on a checkout of this repository into `dest`: one is made
    /// where `dest` does not exist or the repository is marked `clobber`, and
    /// none otherwise.
    fn plan_checkout(&self, dest: &str, dest_exists: bool, thin: bool) -> (plan: Option<
        CheckoutPlan,
    >)
        ensures
            plan is Some <==> self@.needs_checkout(dest_exists),
            plan is Some ==> plan->0@ == self@.checkout_plan(dest@, thin),
    {
        if self.clobber || !dest_exists {
            let (over, url) = match &self.root {
                RepoRoot::Local { path, .. } => (Some(path.clone()), String::new()),
                RepoRoot::Git { url, .. } => (None, url.clone()),
            };
            Some(
                CheckoutPlan {
                    name: self.name.clone(),
                    dest: dest.to_owned(),
                    over,
                    url,
                    branch: self.root.branch().clone(),
                    thin,
                },
            )
        } else {
            None
        }
    }

    /// The checkout of this repository into `dest`, where history is not
    /// needed: made where `dest` does not exist or the repository is marked
    /// `clobber`, and not otherwise.
    pub fn checkout(&self, dest: &str, dest_exists: bool) -> (plan: Option<CheckoutPlan>)
        ensures
            plan is Some <==> self@.needs_checkout(dest_exists),
            plan is Some ==> plan->0@ == self@.checkout_plan(dest@, true),
    {
        self.plan_checkout(dest, dest_exists, true)
    }

    /// The checkout of this repository into `dest` with its whole history,
    /// as a merge needs it: made where `dest` does not exist or the
    /// repository is marked `clobber`, and not otherwise.
    pub fn checkout_fat(&self, dest: &str, dest_exists: bool) -> (plan: Option<CheckoutPlan>)
        ensures
            plan is Some <==> self@.needs_checkout(dest_exists),
            plan is Some ==> plan->0@ == self@.checkout_plan(dest@, false),
    {
        self.plan_checkout(dest, dest_exists, false)
    }

    /// The name under which this repository is registered as a remote.
    pub fn remote_name(&self) -> (name: String)
        ensures
            name@ == self@.remote_name(),
            is_remote_identifier(name@),
    {
        remote_identifier(self.name.as_str(), self.root.branch().as_str())
    }

    /// This repository's branch as seen through its remote.
    pub fn remote_ref(&self) -> (name: String)
        ensures
            name@ == self@.remote_ref(),
    {
        let mut name = self.remote_name();
        name.append("/");
        name.append(self.root.branch().as_str());
        name
    }

    /// `prefix`, the name, `/`, the branch, and `)`.
    fn branch_label(&self, prefix: &str) -> (label: String)
        ensures
            label@ == prefix@ + self@.branch_label() + ")"@,
    {
        let mut label = prefix.to_owned();
        label.append(self.name.as_str());
        label.append("/");
        label.append(self.root.branch().as_str());
        label.append(")");
        assert(label@ =~= prefix@ + self@.branch_label() + ")"@);
        label
    }

    fn add_remote_label(&self) -> (label: String)
        ensures
            label@ == self@.add_remote_label(),
    {
        let mut label = "add-remote(".to_owned();
        label.append(self.name.as_str());
        label.append(")");
        label
    }

    /// Registers `from` as a remote of the checkout at `checkout`, given
    /// whether a remote of its name is `registered` there. The remote's URL
    /// is the URL of a remote origin, and the path of a local origin as seen
    /// from the directory `cwd`: an absolute path whenever `cwd` is one. A
    /// remote that exists gets that URL and keeps what it tracks: the change
    /// is handed back, and the queue stays as it is. One that does not exist
    /// is created by an action put on the queue, to track the branch of
    /// `from` only.
    pub fn add_remote_from<F>(
        &self,
        checkout: &str,
        from: &Repo,
        cwd: &str,
        registered: bool,
        queue: &mut CommandQueue<F>,
    ) -> (update: Option<RemoteUrlUpdate>)
        ensures
            registered ==> update is Some && update->0@ == from@.url_update(cwd@),
            registered ==> final(queue)@ == old(queue)@,
            !registered ==> update is None && final(queue)@ == old(queue)@.push(
                from@.add_remote_action(checkout@, cwd@),
            ),
    {
        let remote_name = from.remote_name();
        if registered {
            return Some(
                RemoteUrlUpdate {
                    remote: remote_name,
                    url: from.root.resolved(cwd),
                    label: from.add_remote_label(),
                },
            );
        }
        let mut args: Vec<String> = Vec::new();
        args.push("remote".to_owned());
        args.push("add".to_owned());
        args.push("-t".to_owned());
        args.push(from.root.branch().clone());
        args.push(remote_name);
        args.push(from.root.resolved(cwd));
        assert(args.deep_view() =~= seq![
            "remote"@,
            "add"@,
            "-t"@,
            from@.root.branch(),
            from@.remote_name(),
            from@.root.resolved(cwd@),
        ]);
        let label = from.add_remote_label();
        queue.enqueue_simple_external(label.as_str(), "git", args, checkout);
        None
    }

    /// Queues the one fetch from all remotes of the checkout at `checkout`.
    pub fn update_remotes<F>(&self, checkout: &str, queue: &mut CommandQueue<F>)
        ensures
            final(queue)@ == old(queue)@.push(fetch_action(checkout@)),
    {
        let mut args: Vec<String> = Vec::new();
        args.push("fetch".to_owned());
        args.push("--all".to_owned());
        assert(args.deep_view() =~= seq!["fetch"@, "--all"@]);
        queue.enqueue_simple_external("fetch-all", "git", args, checkout);
    }

    /// Queues the action that makes the branch `branch_name` in the checkout
    /// at `checkout`, or sets it back where it exists, to the branch of
    /// `start_at` as its remote has it; what the branch held before is given
    /// up. `start_at` must be registered as a remote by then. Hands back
    /// this repository as found at `checkout` on that branch, never to be
    /// checked out anew.
    pub fn create_or_reset_branch<F>(
        &self,
        checkout: &str,
        branch_name: &str,
        start_at: &Repo,
        queue: &mut CommandQueue<F>,
    ) -> (head: Repo)
        ensures
            final(queue)@ == old(queue)@.push(start_at@.reset_action(checkout@, branch_name@)),
            head@ == (RepoView {
                name: self@.name,
                root: RepoRootView::Local { path: checkout@, branch: branch_name@ },
                clobber: false,
            }),
    {
        let mut args: Vec<String> = Vec::new();
        args.push("checkout".to_owned());
        args.push("-B".to_owned());
        args.push(branch_name.to_owned());
        args.push(start_at.remote_ref());
        assert(args.deep_view() =~= seq![
            "checkout"@,
            "-B"@,
            branch_name@,
            start_at@.remote_ref(),
        ]);
        let label = start_at.branch_label("reset-integration-branch(");
        queue.enqueue_simple_external(label.as_str(), "git", args, checkout);
        Repo {
            name: self.name.clone(),
            root: RepoRoot::Local { path: checkout.to_owned(), branch: branch_name.to_owned() },
            clobber: false,
        }
    }

    /// Queues the merge of the branch of `branch`, as its remote has it,
    /// into what is checked out at `checkout`, with the message that the
    /// merge proposes.
    pub fn merge_branch<F>(&self, checkout: &str, branch: &Repo, queue: &mut CommandQueue<F>)
        ensures
            final(queue)@ == old(queue)@.push(branch@.merge_action(checkout@)),
    {
        let mut args: Vec<String> = Vec::new();
        args.push("merge".to_owned());
        args.push("--no-edit".to_owned());
        args.push(branch.remote_ref());
        assert(args.deep_view() =~= seq!["merge"@, "--no-edit"@, branch@.remote_ref()]);
        let label = branch.branch_label("merge(");
        queue.enqueue_simple_external(label.as_str(), "git", args, checkout);
    }

    /// Appends to `into` the arguments by which this repository is
    /// configured, all keyed by its name: its source, its branch, and
    /// whether its checkout is replaced.
    pub fn args(&self, into: &mut Vec<ToolArg>)
        ensures
            final(into).deep_view() == old(into).deep_view() + self@.args(),
    {
        let mut flag = self.name.clone();
        flag.append("-src");
        into.push(
            ToolArg { name: self.name.clone(), key: self.name.clone(), field: Field::Source, flag },
        );

        let mut name = self.name.clone();
        name.append("-src-branch");
        let mut flag = self.name.clone();
        flag.append("-branch");
        into.push(ToolArg { name, key: self.name.clone(), field: Field::Branch, flag });

        let mut name = "clobber-".to_owned();
        name.append(self.name.as_str());
        name.append("-sources");
        let mut flag = "clobber-".to_owned();
        flag.append(self.name.as_str());
        flag.append("-srcs");
        into.push(ToolArg { name, key: self.name.clone(), field: Field::Clobber, flag });
        assert(into.deep_view() =~= old(into).deep_view() + self@.args());
    }

    /// Sets `field` of this repository to `value`, with a relative source
    /// taken from the directory `cwd`, and tells whether the value fits the
    /// field; one that does not changes nothing.
    pub fn apply_override(&mut self, field: Field, value: &ArgValue, cwd: &str) -> (applied: bool)
        ensures
            applied == fits(field, value@),
            final(self)@ == old(self)@.overridden(field, value@, cwd@),
    {
        match value {
            ArgValue::Text(text) => {
                if field == Field::Source {
                    let branch = self.root.branch().clone();
                    self.root = RepoRoot::Local { path: join(cwd, text.as_str()), branch };
                    true
                } else if field == Field::Branch {
                    let branch = self.root.branch_mut();
                    *branch = text.clone();
                    true
                } else {
                    false
                }
            },
            ArgValue::Switch(on) => {
                if field == Field::Clobber {
                    self.clobber = *on;
                    true
                } else {
                    false
                }
            },
        }
    }
}

} // verus!
