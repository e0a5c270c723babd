//! The actions of a run and their order: the rename limit, the registration
//! of the sources, one fetch, the integration branch made anew, the merges in
//! the order of the patch branches, and the submodules.

use crate::command_queue::{
    carried_out, drain_fails_fast, fresh, run, ActionView, CommandQueue, QueueState,
};
use crate::error::{ActionErrorView, MergeErrorView};
use crate::repo::{
    fetch_action, git_action, RemoteUrlUpdate, RemoteUrlUpdateView, Repo, RepoView,
};
use crate::session::{integration_branch, Session, SessionView};
use vstd::prelude::*;

verus! {

/// The action that lets merges follow renames in a large tree.
pub open spec fn rename_limit_action<F>(checkout: Seq<char>) -> ActionView<F> {
    git_action(
        "set-rename-limit"@,
        seq!["config"@, "--replace-all"@, "merge.renamelimit"@, "3000"@],
        checkout,
    )
}

/// The action that fetches in every submodule.
pub open spec fn submodule_fetch_action<F>(checkout: Seq<char>) -> ActionView<F> {
    git_action("submodule-fetch"@, seq!["submodule"@, "foreach"@, "git fetch"@], checkout)
}

/// The action that checks the submodules out, four at a time.
pub open spec fn submodule_update_action<F>(checkout: Seq<char>) -> ActionView<F> {
    git_action(
        "submodule-update"@,
        seq![
            "submodule"@,
            "update"@,
            "--checkout"@,
            "--init"@,
            "--recursive"@,
            "--jobs"@,
            "4"@,
        ],
        checkout,
    )
}

/// What the registration of `repo` puts on the queue: nothing where its
/// remote is among `registered`, else the action that creates the remote.
pub open spec fn registration<F>(
    checkout: Seq<char>,
    cwd: Seq<char>,
    repo: RepoView,
    registered: Seq<Seq<char>>,
) -> Seq<ActionView<F>> {
    if registered.contains(repo.remote_name()) {
        Seq::empty()
    } else {
        seq![repo.add_remote_action(checkout, cwd)]
    }
}

/// What the registration of `repo` changes at once: the URL of its remote
/// where that is among `registered`, else nothing.
pub open spec fn url_update(
    cwd: Seq<char>,
    repo: RepoView,
    registered: Seq<Seq<char>>,
) -> Seq<RemoteUrlUpdateView> {
    if registered.contains(repo.remote_name()) {
        seq![repo.url_update(cwd)]
    } else {
        Seq::empty()
    }
}

/// The registrations that go on the queue: one for each of `repos` whose
/// remote is not among `registered`, in the order of `repos`.
pub open spec fn queued_registrations<F>(
    checkout: Seq<char>,
    cwd: Seq<char>,
    repos: Seq<RepoView>,
    registered: Seq<Seq<char>>,
) -> Seq<ActionView<F>>
    decreases repos.len(),
{
    if repos.len() == 0 {
        Seq::empty()
    } else {
        queued_registrations(checkout, cwd, repos.drop_last(), registered) + registration(
            checkout,
            cwd,
            repos.last(),
            registered,
        )
    }
}

/// The remotes that get a new URL at once: one for each of `repos` whose
/// remote is among `registered`, in the order of `repos`.
pub open spec fn url_updates(
    cwd: Seq<char>,
    repos: Seq<RepoView>,
    registered: Seq<Seq<char>>,
) -> Seq<RemoteUrlUpdateView>
    decreases repos.len(),
{
    if repos.len() == 0 {
        Seq::empty()
    } else {
        url_updates(cwd, repos.drop_last(), registered) + url_update(
            cwd,
            repos.last(),
            registered,
        )
    }
}

/// The merges of `repos`, in the order of `repos`.
pub open spec fn merges<F>(checkout: Seq<char>, repos: Seq<RepoView>) -> Seq<ActionView<F>> {
    Seq::new(repos.len(), |i: int| repos[i].merge_action(checkout))
}

impl SessionView {
    /// The repositories that are registered as remotes: the base, then the
    /// patch branches in their order.
    pub open spec fn sources(self) -> Seq<RepoView> {
        seq![self.fork_base] + self.merge_branches
    }

    /// The number of registrations that a run queues.
    pub open spec fn queued<F>(self, cwd: Seq<char>, registered: Seq<Seq<char>>) -> int
        recommends
            self.target_dir is Some,
    {
        queued_registrations::<F>(
            self.checkout_path(),
            cwd,
            self.sources(),
            registered,
        ).len() as int
    }

    /// The actions of a run, in their order: the rename limit; the
    /// registration of each source whose remote is not among `registered`,
    /// with local origins resolved from the directory `cwd`; one fetch from
    /// all remotes; the integration branch, made anew at the base; the
    /// merge of each patch branch; the two actions on the submodules.
    pub open spec fn pipeline<F>(
        self,
        cwd: Seq<char>,
        registered: Seq<Seq<char>>,
    ) -> Seq<ActionView<F>>
        recommends
            self.target_dir is Some,
    {
        let dir = self.checkout_path();
        seq![rename_limit_action(dir)] + queued_registrations(
            dir,
            cwd,
            self.sources(),
            registered,
        ) + seq![fetch_action(dir), self.fork_base.reset_action(dir, integration_branch())]
            + merges(dir, self.merge_branches) + seq![
            submodule_fetch_action(dir),
            submodule_update_action(dir),
        ]
    }
}

/// The `git` command that an action runs: the first of its arguments.
pub open spec fn subcommand<F>(action: ActionView<F>) -> Option<Seq<char>> {
    match action {
        ActionView::External { args, .. } => if args.len() > 0 {
            Some(args[0])
        } else {
            None
        },
        ActionView::Callback { .. } => None,
    }
}

/// The action registers a remote.
pub open spec fn is_registration<F>(action: ActionView<F>) -> bool {
    subcommand(action) == Some("remote"@)
}

/// The action fetches.
pub open spec fn is_fetch<F>(action: ActionView<F>) -> bool {
    subcommand(action) == Some("fetch"@)
}

/// The action merges.
pub open spec fn is_merge<F>(action: ActionView<F>) -> bool {
    subcommand(action) == Some("merge"@)
}

/// The action works on the submodules.
pub open spec fn is_submodule_sync<F>(action: ActionView<F>) -> bool {
    subcommand(action) == Some("submodule"@)
}

proof fn lemma_subcommands_differ()
    ensures
        "config"@ != "remote"@,
        "config"@ != "fetch"@,
        "config"@ != "merge"@,
        "config"@ != "submodule"@,
        "remote"@ != "fetch"@,
        "remote"@ != "checkout"@,
        "remote"@ != "merge"@,
        "remote"@ != "submodule"@,
        "fetch"@ != "checkout"@,
        "fetch"@ != "merge"@,
        "fetch"@ != "submodule"@,
        "checkout"@ != "merge"@,
        "checkout"@ != "submodule"@,
        "merge"@ != "submodule"@,
{
    reveal_strlit("config");
    reveal_strlit("remote");
    reveal_strlit("fetch");
    reveal_strlit("checkout");
    reveal_strlit("merge");
    reveal_strlit("submodule");
    assert("config"@[0] != "remote"@[0]);
    assert("config"@.len() != "fetch"@.len());
    assert("config"@.len() != "merge"@.len());
    assert("config"@.len() != "submodule"@.len());
    assert("remote"@.len() != "fetch"@.len());
    assert("remote"@.len() != "checkout"@.len());
    assert("remote"@.len() != "merge"@.len());
    assert("remote"@.len() != "submodule"@.len());
    assert("fetch"@.len() != "checkout"@.len());
    assert("fetch"@[0] != "merge"@[0]);
    assert("fetch"@.len() != "submodule"@.len());
    assert("checkout"@.len() != "merge"@.len());
    assert("checkout"@.len() != "submodule"@.len());
    assert("merge"@.len() != "submodule"@.len());
}

/// The queued registrations are registrations, and no more than there are
/// repositories.
proof fn lemma_queued_registrations<F>(
    checkout: Seq<char>,
    cwd: Seq<char>,
    repos: Seq<RepoView>,
    registered: Seq<Seq<char>>,
)
    ensures
        queued_registrations::<F>(checkout, cwd, repos, registered).len() <= repos.len(),
        forall|p: int|
            0 <= p < queued_registrations::<F>(checkout, cwd, repos, registered).len()
                ==> is_registration(
                #[trigger] queued_registrations::<F>(checkout, cwd, repos, registered)[p],
            ),
    decreases repos.len(),
{
    if repos.len() > 0 {
        lemma_queued_registrations::<F>(checkout, cwd, repos.drop_last(), registered);
    }
}

/// The `git` command at place `p` of a run with `k` queued registrations
/// and `n` patch branches.
pub open spec fn subcommand_at(k: int, n: int, p: int) -> Seq<char> {
    if p == 0 {
        "config"@
    } else if p <= k {
        "remote"@
    } else if p == k + 1 {
        "fetch"@
    } else if p == k + 2 {
        "checkout"@
    } else if p < k + 3 + n {
        "merge"@
    } else {
        "submodule"@
    }
}

/// The shape of a run: how many actions it has, which command stands at
/// each place, and where the merge of each patch branch stands.
proof fn lemma_pipeline_places<F>(
    session: SessionView,
    cwd: Seq<char>,
    registered: Seq<Seq<char>>,
)
    requires
        session.target_dir is Some,
    ensures
        ({
            let cmds = session.pipeline::<F>(cwd, registered);
            let k = session.queued::<F>(cwd, registered);
            let n = session.merge_branches.len() as int;
            &&& 0 <= k <= n + 1
            &&& cmds.len() == k + n + 5
            &&& forall|p: int|
                0 <= p < cmds.len() ==> subcommand(#[trigger] cmds[p]) == Some(
                    subcommand_at(k, n, p),
                )
            &&& forall|i: int|
                0 <= i < n ==> #[trigger] cmds[k + 3 + i]
                    == session.merge_branches[i].merge_action::<F>(session.checkout_path())
        }),
{
    let dir = session.checkout_path();
    let cmds = session.pipeline::<F>(cwd, registered);
    let regs = queued_registrations::<F>(dir, cwd, session.sources(), registered);
    let k = regs.len() as int;
    let n = session.merge_branches.len() as int;
    let merged = merges::<F>(dir, session.merge_branches);
    lemma_queued_registrations::<F>(dir, cwd, session.sources(), registered);
    assert(cmds.len() == k + n + 5);
    assert(cmds[0] == rename_limit_action::<F>(dir));
    assert(cmds[k + 1] == fetch_action::<F>(dir));
    assert(cmds[k + 2] == session.fork_base.reset_action::<F>(dir, integration_branch()));
    assert(cmds[k + 3 + n] == submodule_fetch_action::<F>(dir));
    assert(cmds[k + 4 + n] == submodule_update_action::<F>(dir));
    assert forall|p: int| 0 <= p < cmds.len() implies subcommand(#[trigger] cmds[p]) == Some(
        subcommand_at(k, n, p),
    ) by {
        if 1 <= p <= k {
            assert(cmds[p] == regs[p - 1]);
            assert(is_registration(regs[p - 1]));
        } else if k + 3 <= p < k + 3 + n {
            assert(cmds[p] == merged[p - k - 3]);
        }
    }
    assert forall|i: int| 0 <= i < n implies #[trigger] cmds[k + 3 + i]
        == session.merge_branches[i].merge_action::<F>(dir) by {
        assert(cmds[k + 3 + i] == merged[i]);
    }
}

/// The order of a run. With `k` registrations queued and `n` patch
/// branches: the registrations stand at the places 1 to `k` and nowhere
/// else; the one fetch stands at place `k + 1`, behind every registration;
/// the merge of the `i`-th patch branch stands at place `k + 3 + i`, so the
/// merges follow the fetch in the order of the branches; the actions on the
/// submodules stand behind the last merge.
pub proof fn pipeline_order<F>(session: SessionView, cwd: Seq<char>, registered: Seq<Seq<char>>)
    requires
        session.target_dir is Some,
    ensures
        ({
            let dir = session.checkout_path();
            let cmds = session.pipeline::<F>(cwd, registered);
            let k = session.queued::<F>(cwd, registered);
            let n = session.merge_branches.len() as int;
            &&& 0 <= k <= n + 1
            &&& cmds.len() == k + n + 5
            &&& forall|p: int|
                0 <= p < cmds.len() ==> (is_registration(#[trigger] cmds[p]) <==> 1 <= p <= k)
            &&& forall|p: int|
                0 <= p < cmds.len() ==> (is_fetch(#[trigger] cmds[p]) <==> p == k + 1)
            &&& forall|p: int|
                0 <= p < cmds.len() ==> (is_merge(#[trigger] cmds[p]) <==> k + 3 <= p < k + 3 + n)
            &&& forall|p: int|
                0 <= p < cmds.len() ==> (is_submodule_sync(#[trigger] cmds[p]) <==> k + 3 + n
                    <= p)
            &&& forall|i: int|
                0 <= i < n ==> #[trigger] cmds[k + 3 + i]
                    == session.merge_branches[i].merge_action::<F>(dir)
        }),
{
    lemma_subcommands_differ();
    lemma_pipeline_places::<F>(session, cwd, registered);
}

/// A merge that fails ends the run. Where the actions before the merge of
/// the `i`-th patch branch succeed and that merge fails, the actions
/// carried out are those up to that merge: of the merges the first `i + 1`
/// and no later one, and no action on the submodules.
pub proof fn failed_merge_ends_run<F>(
    session: SessionView,
    cwd: Seq<char>,
    registered: Seq<Seq<char>>,
    outcomes: Seq<Result<(), ActionErrorView>>,
    i: int,
)
    requires
        session.target_dir is Some,
        0 <= i < session.merge_branches.len(),
        ({
            let k = session.queued::<F>(cwd, registered);
            &&& k + 3 + i < outcomes.len()
            &&& forall|j: int| 0 <= j < k + 3 + i ==> (#[trigger] outcomes[j]) is Ok
            &&& outcomes[k + 3 + i] is Err
        }),
    ensures
        ({
            let k = session.queued::<F>(cwd, registered);
            let cmds = session.pipeline::<F>(cwd, registered);
            let done = carried_out(fresh(cmds), outcomes);
            &&& done == cmds.take(k + 3 + i + 1)
            &&& forall|p: int|
                0 <= p < done.len() ==> (is_merge(#[trigger] done[p]) <==> k + 3 <= p <= k + 3 + i)
            &&& forall|p: int| 0 <= p < done.len() ==> !is_submodule_sync(#[trigger] done[p])
            &&& run(fresh(cmds), outcomes).state() == QueueState::Failed
            &&& run(fresh(cmds), outcomes).result() == Some(
                Err::<(), MergeErrorView>(
                    outcomes[k + 3 + i]->Err_0.labelled(
                        session.merge_branches[i].merge_action::<F>(
                            session.checkout_path(),
                        ).label(),
                    ),
                ),
            )
        }),
{
    let dir = session.checkout_path();
    let k = session.queued::<F>(cwd, registered);
    let cmds = session.pipeline::<F>(cwd, registered);
    pipeline_order::<F>(session, cwd, registered);
    drain_fails_fast(cmds, outcomes, k + 3 + i);
    let done = carried_out(fresh(cmds), outcomes);
    assert forall|p: int| 0 <= p < done.len() implies (is_merge(#[trigger] done[p]) <==> k + 3
        <= p <= k + 3 + i) by {
        assert(done[p] == cmds[p]);
    }
    assert forall|p: int| 0 <= p < done.len() implies !is_submodule_sync(#[trigger] done[p]) by {
        assert(done[p] == cmds[p]);
    }
    assert(cmds[k + 3 + i] == session.merge_branches[i].merge_action::<F>(dir));
}

/// Tells whether `name` is among `names`.
fn contains_text(names: &Vec<String>, name: &String) -> (found: bool)
    ensures
        found == names.deep_view().contains(name@),
{
    let mut i: usize = 0;
    while i < names.len()
        invariant
            i <= names@.len(),
            forall|k: int| 0 <= k < i ==> names.deep_view()[k] != name@,
        decreases names@.len() - i,
    {
        if names[i] == *name {
            assert(names.deep_view()[i as int] == name@);
            return true;
        }
        i = i + 1;
    }
    false
}

impl Session {
    /// Registers `repo` on the checkout at `checkout`: queues the creation of
    /// its remote, or notes the new URL of the remote that exists.
    fn register<F>(
        &self,
        checkout: &str,
        cwd: &str,
        repo: &Repo,
        registered: &Vec<String>,
        queue: &mut CommandQueue<F>,
        updates: &mut Vec<RemoteUrlUpdate>,
    )
        ensures
            final(queue)@ == old(queue)@ + registration::<F>(
                checkout@,
                cwd@,
                repo@,
                registered.deep_view(),
            ),
            final(updates).deep_view() == old(updates).deep_view() + url_update(
                cwd@,
                repo@,
                registered.deep_view(),
            ),
    {
        let name = repo.remote_name();
        let known = contains_text(registered, &name);
        match self.rust_repo().add_remote_from(checkout, repo, cwd, known, queue) {
            Some(update) => {
                updates.push(update);
                proof {
                    assert(queue@ =~= old(queue)@ + Seq::<ActionView<F>>::empty());
                    assert(updates.deep_view() =~= old(updates).deep_view() + seq![
                        repo@.url_update(cwd@),
                    ]);
                }
            },
            None => {
                proof {
                    assert(queue@ =~= old(queue)@ + seq![
                        repo@.add_remote_action::<F>(checkout@, cwd@),
                    ]);
                    assert(updates.deep_view() =~= old(updates).deep_view() + Seq::<
                        RemoteUrlUpdateView,
                    >::empty());
                }
            },
        }
    }

    /// Puts the actions of the run on the queue, in their order, given the
    /// directory that relative paths are taken from (`cwd`) and the names
    /// of the remotes that the checkout has (`registered`). A source whose
    /// remote is among them is not queued for registration: its remote gets
    /// the source's URL at once, and those changes are handed back, in the
    /// order of the sources. The URL of a local source is its path as seen
    /// from `cwd`.
    pub fn enqueue_commands<F>(
        &self,
        cwd: &str,
        registered: &Vec<String>,
        queue: &mut CommandQueue<F>,
    ) -> (updates: Vec<RemoteUrlUpdate>)
        requires
            self@.target_dir is Some,
        ensures
            final(queue)@ == old(queue)@ + self@.pipeline::<F>(cwd@, registered.deep_view()),
            updates.deep_view() == url_updates(cwd@, self@.sources(), registered.deep_view()),
    {
        let rust_src = self.rust_src_path();
        let dir = rust_src.as_str();
        let ghost reg = registered.deep_view();
        let ghost sources = self@.sources();
        let ghost branches = self@.merge_branches;
        let mut updates: Vec<RemoteUrlUpdate> = Vec::new();

        let mut args: Vec<String> = Vec::new();
        args.push("config".to_owned());
        args.push("--replace-all".to_owned());
        args.push("merge.renamelimit".to_owned());
        args.push("3000".to_owned());
        assert(args.deep_view() =~= seq![
            "config"@,
            "--replace-all"@,
            "merge.renamelimit"@,
            "3000"@,
        ]);
        queue.enqueue_simple_external("set-rename-limit", "git", args, dir);

        self.register(dir, cwd, self.fork_base(), registered, queue, &mut updates);
        proof {
            let first = sources.take(1);
            assert(first.drop_last() =~= Seq::<RepoView>::empty());
            assert(first.last() == self@.fork_base);
            assert(queued_registrations::<F>(dir@, cwd@, first.drop_last(), reg) =~= Seq::<
                ActionView<F>,
            >::empty());
            assert(url_updates(cwd@, first.drop_last(), reg) =~= Seq::<
                RemoteUrlUpdateView,
            >::empty());
            assert(queued_registrations::<F>(dir@, cwd@, first, reg) =~= registration::<F>(
                dir@,
                cwd@,
                self@.fork_base,
                reg,
            ));
            assert(url_updates(cwd@, first, reg) =~= url_update(cwd@, self@.fork_base, reg));
            assert(updates.deep_view() =~= url_updates(cwd@, first, reg));
        }
        let patches = self.merge_branches();
        let n: usize = patches.len();
        let mut i: usize = 0;
        while i < n
            invariant
                i <= n,
                n == patches@.len(),
                patches.deep_view() == self@.merge_branches,
                n == branches.len(),
                reg == registered.deep_view(),
                sources == self@.sources(),
                branches == self@.merge_branches,
                dir@ == self@.checkout_path(),
                queue@ == old(queue)@ + seq![rename_limit_action::<F>(dir@)]
                    + queued_registrations::<F>(dir@, cwd@, sources.take(i + 1), reg),
                updates.deep_view() == url_updates(cwd@, sources.take(i + 1), reg),
            decreases n - i,
        {
            self.register(dir, cwd, &patches[i], registered, queue, &mut updates);
            proof {
                let next = sources.take(i + 2);
                assert(patches@[i as int]@ == branches[i as int]);
                assert(next.drop_last() =~= sources.take(i + 1));
                assert(next.last() == branches[i as int]);
                assert(queue@ =~= old(queue)@ + seq![rename_limit_action::<F>(dir@)]
                    + queued_registrations::<F>(dir@, cwd@, next, reg));
            }
            i = i + 1;
        }
        assert(sources.take(n + 1) =~= sources);

        self.rust_repo().update_remotes(dir, queue);
        let _head = self.rust_repo().create_or_reset_branch(
            dir,
            "merge-head",
            self.fork_base(),
            queue,
        );
        let ghost merged = queue@;

        let mut j: usize = 0;
        while j < n
            invariant
                j <= n,
                n == patches@.len(),
                patches.deep_view() == self@.merge_branches,
                branches == self@.merge_branches,
                dir@ == self@.checkout_path(),
                queue@ == merged + merges::<F>(dir@, branches.take(j as int)),
            decreases n - j,
        {
            self.rust_repo().merge_branch(dir, &patches[j], queue);
            proof {
                assert(patches@[j as int]@ == branches[j as int]);
                assert(merges::<F>(dir@, branches.take(j + 1)) =~= merges::<F>(
                    dir@,
                    branches.take(j as int),
                ).push(branches[j as int].merge_action(dir@)));
            }
            j = j + 1;
        }
        assert(branches.take(n as int) =~= branches);

        let mut args: Vec<String> = Vec::new();
        args.push("submodule".to_owned());
        args.push("foreach".to_owned());
        args.push("git fetch".to_owned());
        assert(args.deep_view() =~= seq!["submodule"@, "foreach"@, "git fetch"@]);
        queue.enqueue_simple_external("submodule-fetch", "git", args, dir);

        let mut args: Vec<String> = Vec::new();
        args.push("submodule".to_owned());
        args.push("update".to_owned());
        args.push("--checkout".to_owned());
        args.push("--init".to_owned());
        args.push("--recursive".to_owned());
        args.push("--jobs".to_owned());
        args.push("4".to_owned());
        assert(args.deep_view() =~= seq![
            "submodule"@,
            "update"@,
            "--checkout"@,
            "--init"@,
            "--recursive"@,
            "--jobs"@,
            "4"@,
        ]);
        queue.enqueue_simple_external("submodule-update", "git", args, dir);
        assert(queue@ =~= old(queue)@ + self@.pipeline::<F>(cwd@, reg));
        updates
    }
}

} // verus!
