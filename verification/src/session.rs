//! One run: the base that the fork starts from, the checkout that is worked
//! on, and the patch branches to merge, in the order in which they are
//! merged.

use crate::config::{ArgValue, ArgValueView, Field, ToolArg, ToolArgView};
use crate::error::{
    outcome_view, result_view, ActionError, ActionErrorView, MergeError, MergeErrorView,
};
use crate::repo::{fits, CheckoutPlan, CheckoutPlanView, Repo, RepoRootView, RepoView};
use crate::text::{join, join_path, same_text};
use vstd::prelude::*;

verus! {

/// The repositories of a run and the directory it works in.
#[derive(Debug)]
pub struct Session {
    target_dir: Option<String>,
    fork_base: Repo,
    rust_repo: Repo,
    /// These are registered and merged, never checked out.
    merge_branches: Vec<Repo>,
}

/// A `Session` as plain text.
pub struct SessionView {
    pub target_dir: Option<Seq<char>>,
    pub fork_base: RepoView,
    pub rust_repo: RepoView,
    pub merge_branches: Seq<RepoView>,
}

impl View for Session {
    type V = SessionView;

    closed spec fn view(&self) -> SessionView {
        SessionView {
            target_dir: match self.target_dir {
                Some(dir) => Some(dir@),
                None => None,
            },
            fork_base: self.fork_base@,
            rust_repo: self.rust_repo@,
            merge_branches: self.merge_branches.deep_view(),
        }
    }
}

/// What is to be done before the queue is built, at one step of the setup.
/// It is done at once, and not through the queue.
#[derive(Debug)]
pub enum StateCheck {
    Nothing,
    /// Give up a merge that an earlier run may have left unfinished: run
    /// `program` with `args` in `working_dir`, once, and wait for it.
    AbortMerge { program: String, args: Vec<String>, working_dir: String },
    /// Check the base out.
    Checkout(CheckoutPlan),
}

/// A `StateCheck` as plain text.
pub enum StateCheckView {
    Nothing,
    AbortMerge { program: Seq<char>, args: Seq<Seq<char>>, working_dir: Seq<char> },
    Checkout(CheckoutPlanView),
}

impl View for StateCheck {
    type V = StateCheckView;

    open spec fn view(&self) -> StateCheckView {
        match self {
            StateCheck::Nothing => StateCheckView::Nothing,
            StateCheck::AbortMerge { program, args, working_dir } => StateCheckView::AbortMerge {
                program: program@,
                args: args.deep_view(),
                working_dir: working_dir@,
            },
            StateCheck::Checkout(plan) => StateCheckView::Checkout(plan@),
        }
    }
}

/// Where the base, the fork and the patch branches are taken from unless a
/// run is told otherwise.
pub open spec fn default_url() -> Seq<char> {
    "git@github.com:geobacter-rs/rust.git"@
}

/// The branch that the patch branches are merged into.
pub open spec fn integration_branch() -> Seq<char> {
    "merge-head"@
}

/// The patch branches that are merged unless a run is told otherwise, in
/// the order in which they are merged.
pub open spec fn default_branch_names() -> Seq<Seq<char>> {
    seq![
        "rustc-trans-addr-space"@,
        "addr-space-attr"@,
        "amdgcn-dispatch-ptr-intrinsic"@,
        "plugin-intrinsics"@,
        "always-export-metadata"@,
        "make-metadata-schema-pub"@,
        "llvm-patches"@,
        "tcx-driver-data"@,
        "syntax-global-new-pub"@,
        "fix-compiler-docs-parallel-queries"@,
        "spir-kernel-cconv"@,
        "spirv-llvm-metadata"@,
        "session-plugin-no-overwrite"@,
        "no-target-machine-polly"@,
        "spirv-abi-info"@,
        "export-rayon"@,
        "rocm-atomic-fence-scopes"@,
    ]
}

/// A repository of remote origin, whose checkout is replaced on every run.
pub open spec fn git_repo(name: Seq<char>, url: Seq<char>, branch: Seq<char>) -> RepoView {
    RepoView { name, root: RepoRootView::Git { url, branch }, clobber: true }
}

/// The run that is made unless told otherwise: no target directory; the
/// base `rust-upstream` at `fork-base`; the checkout `rust` at the
/// integration branch; and each default patch branch as a repository of its
/// own name.
pub open spec fn default_session() -> SessionView {
    SessionView {
        target_dir: None,
        fork_base: git_repo("rust-upstream"@, default_url(), "fork-base"@),
        rust_repo: git_repo("rust"@, default_url(), integration_branch()),
        merge_branches: default_branch_names().map_values(
            |name: Seq<char>| git_repo(name, default_url(), name),
        ),
    }
}

/// The argument that names the directory that the run works in:
/// `--target-dir`.
pub open spec fn target_dir_arg() -> ToolArgView {
    ToolArgView {
        name: "target-dir"@,
        key: Seq::empty(),
        field: Field::TargetDir,
        flag: "target-dir"@,
    }
}

/// The arguments of `repos`, in the order of `repos`.
pub open spec fn args_of(repos: Seq<RepoView>) -> Seq<ToolArgView>
    decreases repos.len(),
{
    if repos.len() == 0 {
        Seq::empty()
    } else {
        args_of(repos.drop_last()) + repos.last().args()
    }
}

/// `repo` after `field` was set to `value` under the key `key`: changed
/// where `key` is its name, and as it was otherwise.
pub open spec fn overridden_by_key(
    repo: RepoView,
    key: Seq<char>,
    field: Field,
    value: ArgValueView,
    cwd: Seq<char>,
) -> RepoView {
    if repo.name == key {
        repo.overridden(field, value, cwd)
    } else {
        repo
    }
}

impl SessionView {
    /// The arguments that are understood at step `iteration` of the setup:
    /// first the target directory, then the arguments of the checkout, then
    /// those of the base and of every patch branch; none from then on.
    pub open spec fn args(self, iteration: usize) -> Option<Seq<ToolArgView>> {
        if iteration == 0 {
            Some(seq![target_dir_arg()])
        } else if iteration == 1 {
            Some(self.rust_repo.args())
        } else if iteration == 2 {
            Some(self.fork_base.args() + args_of(self.merge_branches))
        } else {
            None
        }
    }

    /// Some repository of the run is called `key`.
    pub open spec fn has_repo(self, key: Seq<char>) -> bool {
        self.rust_repo.name == key || self.fork_base.name == key || exists|i: int|
            0 <= i < self.merge_branches.len() && (#[trigger] self.merge_branches[i]).name
                == key
    }

    /// Whether setting `field` to `value` under the key `key` changes
    /// anything: the target directory takes any text; a field of a
    /// repository takes a value that fits it, where a repository is called
    /// `key`.
    pub open spec fn accepts(self, key: Seq<char>, field: Field, value: ArgValueView) -> bool {
        if field == Field::TargetDir {
            value is Text
        } else {
            fits(field, value) && self.has_repo(key)
        }
    }

    /// The run after `field` was set to `value` under the key `key`, with
    /// relative paths taken from the directory `cwd`. The target directory
    /// is set whatever the key is. A field of a repository is set in every
    /// repository called `key`: repositories of one name are not told
    /// apart.
    pub open spec fn overridden(
        self,
        key: Seq<char>,
        field: Field,
        value: ArgValueView,
        cwd: Seq<char>,
    ) -> SessionView {
        if field == Field::TargetDir {
            match value {
                ArgValueView::Text(path) => SessionView {
                    target_dir: Some(join_path(cwd, path)),
                    ..self
                },
                _ => self,
            }
        } else {
            SessionView {
                target_dir: self.target_dir,
                fork_base: overridden_by_key(self.fork_base, key, field, value, cwd),
                rust_repo: overridden_by_key(self.rust_repo, key, field, value, cwd),
                merge_branches: self.merge_branches.map_values(
                    |repo: RepoView| overridden_by_key(repo, key, field, value, cwd),
                ),
            }
        }
    }

    /// The checkout that the run works on: `src` under the target directory.
    pub open spec fn checkout_path(self) -> Seq<char>
        recommends
            self.target_dir is Some,
    {
        join_path(self.target_dir->0, "src"@)
    }

    /// What is done at step `iteration` of the setup, given whether the
    /// checkout exists: at the first step an unfinished merge in it is given
    /// up, by `git merge --abort` in the checkout; at the second the base is
    /// checked out with its history where the checkout is missing or to be
    /// replaced.
    pub open spec fn state_check(self, iteration: usize, dest_exists: bool) -> StateCheckView {
        if iteration == 0 && dest_exists {
            abort_merge(self.checkout_path())
        } else if iteration == 1 && self.fork_base.needs_checkout(dest_exists) {
            StateCheckView::Checkout(self.fork_base.checkout_plan(self.checkout_path(), false))
        } else {
            StateCheckView::Nothing
        }
    }
}

/// The step that gives up an unfinished merge in the checkout at
/// `checkout`: `git merge --abort`, run there.
pub open spec fn abort_merge(checkout: Seq<char>) -> StateCheckView {
    StateCheckView::AbortMerge {
        program: "git"@,
        args: seq!["merge"@, "--abort"@],
        working_dir: checkout,
    }
}

/// How the attempt to give up an unfinished merge counts for the run: it
/// never fails the run. Where no merge was unfinished the attempt is
/// expected to fail, and whatever went wrong with it, the run goes on to the
/// checkout.
pub open spec fn abort_result(outcome: Result<(), ActionErrorView>) -> Result<
    (),
    MergeErrorView,
> {
    Ok(())
}

impl StateCheckView {
    /// The label that a failure of the step is reported under.
    pub open spec fn label(self) -> Seq<char> {
        match self {
            StateCheckView::Nothing => Seq::empty(),
            StateCheckView::AbortMerge { .. } => "merge-abort"@,
            StateCheckView::Checkout(plan) => "checkout("@ + plan.name + ")"@,
        }
    }

    /// How the outcome of the step counts for the run. A checkout that
    /// fails ends the run, under the step's label. The attempt to give up
    /// an unfinished merge never does, however it ended. Where nothing was
    /// to be done, nothing has failed.
    pub open spec fn result(self, outcome: Result<(), ActionErrorView>) -> Result<
        (),
        MergeErrorView,
    > {
        match self {
            StateCheckView::Nothing => Ok(()),
            StateCheckView::AbortMerge { .. } => abort_result(outcome),
            StateCheckView::Checkout(_) => match outcome {
                Ok(()) => Ok(()),
                Err(error) => Err(error.labelled(self.label())),
            },
        }
    }
}

/// The first step of the setup never fails the run: whether there was a
/// merge to give up or not, and however the attempt ended, the run goes on
/// to the second step, where the base is checked out exactly if the
/// checkout is missing or to be replaced.
pub proof fn first_step_never_fails(
    session: SessionView,
    dest_exists: bool,
    outcome: Result<(), ActionErrorView>,
)
    ensures
        session.state_check(0, dest_exists).result(outcome) == Ok::<(), MergeErrorView>(()),
        session.state_check(0, dest_exists) is AbortMerge <==> dest_exists,
        session.state_check(1, dest_exists) is Checkout <==> session.fork_base.needs_checkout(
            dest_exists,
        ),
{
}

impl StateCheck {
    /// How the outcome of the step counts for the run: the failure that
    /// ends the run, or none. A checkout that fails ends the run, under the
    /// label `checkout(NAME)`. The attempt to give up an unfinished merge
    /// never does: whether its process ended without success or could not
    /// be started at all, the run goes on.
    pub fn result_of(&self, outcome: Result<(), ActionError>) -> (result: Result<(), MergeError>)
        ensures
            result_view(result) == self@.result(outcome_view(outcome)),
    {
        match self {
            StateCheck::Nothing => Ok(()),
            StateCheck::AbortMerge { .. } => Ok(()),
            StateCheck::Checkout(plan) => match outcome {
                Ok(()) => Ok(()),
                Err(error) => {
                    let mut label = "checkout(".to_owned();
                    label.append(plan.name.as_str());
                    label.append(")");
                    Err(error.labelled(label.as_str()))
                },
            },
        }
    }
}

impl Clone for Session {
    fn clone(&self) -> (copy: Self)
        ensures
            copy@ == self@,
    {
        let mut branches: Vec<Repo> = Vec::new();
        let mut i: usize = 0;
        while i < self.merge_branches.len()
            invariant
                i <= self.merge_branches@.len(),
                branches.deep_view() == self.merge_branches.deep_view().take(i as int),
            decreases self.merge_branches@.len() - i,
        {
            let ghost before = branches.deep_view();
            let copy = self.merge_branches[i].clone();
            assert(copy@ == self.merge_branches.deep_view()[i as int]);
            branches.push(copy);
            assert(branches.deep_view() =~= before.push(copy@));
            assert(branches.deep_view() =~= self.merge_branches.deep_view().take(i + 1));
            i = i + 1;
        }
        assert(branches.deep_view() =~= self.merge_branches.deep_view());
        Session {
            target_dir: match &self.target_dir {
                Some(dir) => Some(dir.clone()),
                None => None,
            },
            fork_base: self.fork_base.clone(),
            rust_repo: self.rust_repo.clone(),
            merge_branches: branches,
        }
    }
}

impl Default for Session {
    /// The run that is made unless told otherwise.
    fn default() -> (session: Session)
        ensures
            session@ == default_session(),
    {
        let mut branches: Vec<Repo> = Vec::new();
        push_default_branch(&mut branches, "rustc-trans-addr-space");
        push_default_branch(&mut branches, "addr-space-attr");
        push_default_branch(&mut branches, "amdgcn-dispatch-ptr-intrinsic");
        push_default_branch(&mut branches, "plugin-intrinsics");
        push_default_branch(&mut branches, "always-export-metadata");
        push_default_branch(&mut branches, "make-metadata-schema-pub");
        push_default_branch(&mut branches, "llvm-patches");
        push_default_branch(&mut branches, "tcx-driver-data");
        push_default_branch(&mut branches, "syntax-global-new-pub");
        push_default_branch(&mut branches, "fix-compiler-docs-parallel-queries");
        push_default_branch(&mut branches, "spir-kernel-cconv");
        push_default_branch(&mut branches, "spirv-llvm-metadata");
        push_default_branch(&mut branches, "session-plugin-no-overwrite");
        push_default_branch(&mut branches, "no-target-machine-polly");
        push_default_branch(&mut branches, "spirv-abi-info");
        push_default_branch(&mut branches, "export-rayon");
        push_default_branch(&mut branches, "rocm-atomic-fence-scopes");
        let session = Session {
            target_dir: None,
            fork_base: Repo::new_git(
                "rust-upstream",
                "git@github.com:geobacter-rs/rust.git",
                "fork-base",
            ),
            rust_repo: Repo::new_git("rust", "git@github.com:geobacter-rs/rust.git", "merge-head"),
            merge_branches: branches,
        };
        assert(session@.merge_branches =~= default_session().merge_branches);
        session
    }
}

/// Appends the default patch branch `name`.
fn push_default_branch(branches: &mut Vec<Repo>, name: &str)
    ensures
        final(branches).deep_view() == old(branches).deep_view().push(
            git_repo(name@, default_url(), name@),
        ),
{
    branches.push(Repo::new_git(name, "git@github.com:geobacter-rs/rust.git", name));
    assert(branches.deep_view() =~= old(branches).deep_view().push(
        git_repo(name@, default_url(), name@),
    ));
}

impl Session {
    /// A run on the given repositories, with no target directory yet.
    pub fn new(fork_base: Repo, rust_repo: Repo, merge_branches: Vec<Repo>) -> (session: Session)
        ensures
            session@ == (SessionView {
                target_dir: None,
                fork_base: fork_base@,
                rust_repo: rust_repo@,
                merge_branches: merge_branches.deep_view(),
            }),
    {
        Session { target_dir: None, fork_base, rust_repo, merge_branches }
    }

    /// The base that the fork starts from.
    pub fn fork_base(&self) -> (repo: &Repo)
        ensures
            repo@ == self@.fork_base,
    {
        &self.fork_base
    }

    /// The checkout that is worked on.
    pub fn rust_repo(&self) -> (repo: &Repo)
        ensures
            repo@ == self@.rust_repo,
    {
        &self.rust_repo
    }

    /// The patch branches, in the order in which they are merged.
    pub fn merge_branches(&self) -> (repos: &Vec<Repo>)
        ensures
            repos.deep_view() == self@.merge_branches,
    {
        &self.merge_branches
    }

    /// What the tool is called.
    pub fn get_name(&self) -> (name: String)
        ensures
            name@ == "rust-dist-merger"@,
    {
        "rust-dist-merger".to_owned()
    }

    /// The arguments that are understood at step `iteration` of the setup:
    /// first the target directory, then the arguments of the checkout, then
    /// those of the base and of every patch branch, however many there
    /// are; none from then on.
    pub fn args(&self, iteration: usize) -> (args: Option<Vec<ToolArg>>)
        ensures
            args is Some <==> iteration <= 2,
            args is Some ==> Some(args->0.deep_view()) == self@.args(iteration),
    {
        let mut out: Vec<ToolArg> = Vec::new();
        if iteration == 0 {
            out.push(
                ToolArg {
                    name: "target-dir".to_owned(),
                    key: String::new(),
                    field: Field::TargetDir,
                    flag: "target-dir".to_owned(),
                },
            );
            assert(out.deep_view() =~= seq![target_dir_arg()]);
        } else if iteration == 1 {
            self.rust_repo.args(&mut out);
            assert(out.deep_view() =~= self@.rust_repo.args());
        } else if iteration == 2 {
            self.fork_base.args(&mut out);
            let ghost branches = self@.merge_branches;
            let n: usize = self.merge_branches.len();
            let mut i: usize = 0;
            assert(out.deep_view() =~= self@.fork_base.args() + args_of(branches.take(0)));
            while i < n
                invariant
                    i <= n,
                    n == self.merge_branches@.len(),
                    branches == self@.merge_branches,
                    out.deep_view() == self@.fork_base.args() + args_of(branches.take(i as int)),
                decreases n - i,
            {
                self.merge_branches[i].args(&mut out);
                proof {
                    let next = branches.take(i + 1);
                    assert(self.merge_branches@[i as int]@ == branches[i as int]);
                    assert(next.drop_last() =~= branches.take(i as int));
                    assert(next.last() == branches[i as int]);
                    assert(out.deep_view() =~= self@.fork_base.args() + args_of(next));
                }
                i = i + 1;
            }
            assert(branches.take(n as int) =~= branches);
        } else {
            return None;
        }
        Some(out)
    }

    /// Sets `field` to `value` under the key `key`, with relative paths
    /// taken from the directory `cwd`, and tells whether anything took the
    /// value. The target directory is set whatever the key is. A field of
    /// a repository is set in every repository of the run that is called
    /// `key`.
    pub fn apply_override(
        &mut self,
        key: &str,
        field: Field,
        value: &ArgValue,
        cwd: &str,
    ) -> (applied: bool)
        ensures
            applied == old(self)@.accepts(key@, field, value@),
            final(self)@ == old(self)@.overridden(key@, field, value@, cwd@),
    {
        if field == Field::TargetDir {
            return match value {
                ArgValue::Text(path) => {
                    self.target_dir = Some(join(cwd, path.as_str()));
                    true
                },
                ArgValue::Switch(_) => false,
            };
        }
        let ghost before = self@;
        let ghost after = before.overridden(key@, field, value@, cwd@);
        let mut found = false;
        if same_text(self.rust_repo.name.as_str(), key) {
            found = self.rust_repo.apply_override(field, value, cwd);
        }
        if same_text(self.fork_base.name.as_str(), key) {
            let fit = self.fork_base.apply_override(field, value, cwd);
            found = found || fit;
        }
        let n: usize = self.merge_branches.len();
        let mut i: usize = 0;
        while i < n
            invariant
                i <= n,
                n == self.merge_branches@.len(),
                n == before.merge_branches.len(),
                field != Field::TargetDir,
                after == before.overridden(key@, field, value@, cwd@),
                self@.target_dir == before.target_dir,
                self@.rust_repo == after.rust_repo,
                self@.fork_base == after.fork_base,
                forall|k: int|
                    0 <= k < i ==> (#[trigger] self@.merge_branches[k])
                        == after.merge_branches[k],
                forall|k: int|
                    i <= k < n ==> (#[trigger] self@.merge_branches[k])
                        == before.merge_branches[k],
                found == (fits(field, value@) && (before.rust_repo.name == key@
                    || before.fork_base.name == key@ || exists|k: int|
                    0 <= k < i && (#[trigger] before.merge_branches[k]).name == key@)),
            decreases n - i,
        {
            let ghost prev = self@.merge_branches;
            let ghost was_found = found;
            assert(prev[i as int] == before.merge_branches[i as int]);
            assert(prev[i as int] == self.merge_branches@[i as int]@);
            if same_text(self.merge_branches[i].name.as_str(), key) {
                let fit = self.merge_branches[i].apply_override(field, value, cwd);
                found = found || fit;
            }
            proof {
                let now = self@.merge_branches;
                assert(after.merge_branches[i as int] == overridden_by_key(
                    before.merge_branches[i as int],
                    key@,
                    field,
                    value@,
                    cwd@,
                ));
                assert(now[i as int] == self.merge_branches@[i as int]@);
                assert forall|k: int| 0 <= k < i + 1 implies (#[trigger] now[k])
                    == after.merge_branches[k] by {
                    if k < i {
                        assert(now[k] == self.merge_branches@[k]@);
                        assert(prev[k] == after.merge_branches[k]);
                    }
                }
                assert forall|k: int| i + 1 <= k < n implies (#[trigger] now[k])
                    == before.merge_branches[k] by {
                    assert(now[k] == self.merge_branches@[k]@);
                    assert(prev[k] == before.merge_branches[k]);
                }
                if before.merge_branches[i as int].name == key@ && fits(field, value@) {
                    assert(found);
                }
                if found && !was_found {
                    assert(before.merge_branches[i as int].name == key@);
                }
            }
            i = i + 1;
        }
        assert(self@.merge_branches =~= after.merge_branches);
        found
    }

    /// Tells whether the run has been given its target directory.
    pub fn has_target_dir(&self) -> (given: bool)
        ensures
            given == self@.target_dir is Some,
    {
        self.target_dir.is_some()
    }

    /// The directory that the run works in.
    pub fn target_dir(&self) -> (dir: &String)
        requires
            self@.target_dir is Some,
        ensures
            Some(dir@) == self@.target_dir,
    {
        self.target_dir.as_ref().unwrap()
    }

    /// The checkout that the run works on: `src` under the target directory.
    pub fn rust_src_path(&self) -> (path: String)
        requires
            self@.target_dir is Some,
        ensures
            path@ == self@.checkout_path(),
    {
        join(self.target_dir().as_str(), "src")
    }

    /// What is to be done at step `iteration` of the setup, given whether
    /// the checkout exists. At the first step a merge that an earlier run
    /// left unfinished is given up, since nothing can be checked out over
    /// one: `git merge --abort` is run in the checkout, once, at once and
    /// not through the queue; at the second the base is checked out with its whole history,
    /// where the checkout is missing or to be replaced; later steps have
    /// nothing to do.
    pub fn check_state(&self, iteration: usize, dest_exists: bool) -> (todo: StateCheck)
        requires
            iteration < 2 ==> self@.target_dir is Some,
        ensures
            todo@ == self@.state_check(iteration, dest_exists),
    {
        if iteration == 0 {
            if dest_exists {
                let mut args: Vec<String> = Vec::new();
                args.push("merge".to_owned());
                args.push("--abort".to_owned());
                assert(args.deep_view() =~= seq!["merge"@, "--abort"@]);
                return StateCheck::AbortMerge {
                    program: "git".to_owned(),
                    args,
                    working_dir: self.rust_src_path(),
                };
            }
        } else if iteration == 1 {
            let dest = self.rust_src_path();
            match self.fork_base.checkout_fat(dest.as_str(), dest_exists) {
                Some(plan) => {
                    return StateCheck::Checkout(plan);
                },
                None => {},
            }
        }
        StateCheck::Nothing
    }
}

} // verus!
