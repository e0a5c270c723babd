//! The remotes of a checkout as the registrations of a run see and change
//! them: for each remote's name, its URL and the branch it tracks.
//!
//! The remotes themselves live in the checkout. This is the model that the
//! registrations are held against: a registration finds its remote there or
//! not, and what it then does (a new URL at once, or a creation by a queued
//! action) changes the model as it changes the checkout.

use crate::command_queue::ActionView;
use crate::repo::{RemoteUrlUpdateView, RepoView};
use vstd::prelude::*;

verus! {

/// What a checkout holds of one remote.
pub struct RemoteEntry {
    pub url: Seq<char>,
    /// The one branch that the remote follows: the branch that is fetched
    /// from it.
    pub branch: Seq<char>,
}

/// The remotes of a checkout, by name.
pub type Registry = Map<Seq<char>, RemoteEntry>;

/// The remotes after `update` was made: the remote that it names has the
/// new URL and keeps the branch that it followed; no remote is made.
pub open spec fn with_url(registry: Registry, update: RemoteUrlUpdateView) -> Registry {
    if registry.dom().contains(update.remote) {
        registry.insert(
            update.remote,
            RemoteEntry { url: update.url, branch: registry[update.remote].branch },
        )
    } else {
        registry
    }
}

/// The arguments of the process that an action runs.
pub open spec fn action_args<F>(action: ActionView<F>) -> Seq<Seq<char>> {
    match action {
        ActionView::External { args, .. } => args,
        ActionView::Callback { .. } => Seq::empty(),
    }
}

/// The remotes after `git` ran with `args`. Only `remote add -t BRANCH NAME
/// URL` changes them, and only where no remote is called `NAME`: then there
/// is one, with that URL, tracking that branch.
pub open spec fn after_git(registry: Registry, args: Seq<Seq<char>>) -> Registry {
    if args.len() == 6 && args[0] == "remote"@ && args[1] == "add"@ && args[2] == "-t"@
        && !registry.dom().contains(args[4]) {
        registry.insert(args[4], RemoteEntry { url: args[5], branch: args[3] })
    } else {
        registry
    }
}

/// The remotes after `from` was registered on the checkout at `checkout`,
/// with paths taken from the directory `cwd`, and what that queued was
/// carried out: where its remote existed, the remote has the new URL; where
/// not, the queued action has made it.
pub open spec fn after_registration(
    registry: Registry,
    checkout: Seq<char>,
    cwd: Seq<char>,
    from: RepoView,
) -> Registry {
    if registry.dom().contains(from.remote_name()) {
        with_url(registry, from.url_update(cwd))
    } else {
        after_git(registry, action_args(from.add_remote_action::<()>(checkout, cwd)))
    }
}

/// To register a repository twice is to register it once. After the first
/// registration the remote exists, with the repository's origin as its URL,
/// a local one resolved from `cwd`. Where the registration made the remote,
/// it follows the repository's branch; where the remote was there already,
/// it keeps the branch that it followed. The second registration finds the
/// remote, sets the same URL, and leaves every remote as it is.
pub proof fn registration_is_idempotent(
    registry: Registry,
    checkout: Seq<char>,
    cwd: Seq<char>,
    from: RepoView,
)
    ensures
        ({
            let name = from.remote_name();
            let once = after_registration(registry, checkout, cwd, from);
            &&& once.dom().contains(name)
            &&& once[name].url == from.root.resolved(cwd)
            &&& once[name].branch == (if registry.dom().contains(name) {
                registry[name].branch
            } else {
                from.root.branch()
            })
            &&& forall|other: Seq<char>|
                other != name ==> (once.dom().contains(other) <==> registry.dom().contains(other))
                    && once[other] == registry[other]
            &&& with_url(once, from.url_update(cwd)) == once
            &&& after_registration(once, checkout, cwd, from) == once
        }),
{
    let once = after_registration(registry, checkout, cwd, from);
    assert(with_url(once, from.url_update(cwd)) =~= once);
}

} // verus!
