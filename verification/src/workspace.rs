//! Workspace management: planning the creation, seeding and removal of the
//! on-disk directory that backs one container session, and the model of that
//! directory's lifecycle. The orchestrator touches no filesystem itself: a
//! caller reports whether the path exists, receives a plan, and carries the
//! planned step out on disk.
use crate::config::IsolationMode;
use vstd::prelude::*;

verus! {

/// What the directory at the workspace path holds at one instant: nothing
/// (the path is absent), an empty tree, a copy of the template tree at the
/// recorded path, or whatever was already there before the session started.
pub enum DirContent {
    Absent,
    Empty,
    CopyOf(Seq<char>),
    PreExisting,
}

impl DirContent {
    /// Whether the workspace path exists on disk in this state.
    pub open spec fn present(&self) -> bool {
        !(self is Absent)
    }
}

/// What `ensure` does to the directory: nothing when the path is already
/// there; otherwise it creates the full path, empty, or seeded from the
/// template it names.
#[derive(Debug)]
pub enum EnsurePlan {
    AlreadyExists,
    Create,
    CreateAndSeed(String),
}

/// What `ensure` leaves at the workspace path, given what was there before.
pub open spec fn ensure_model(w: DirContent, template: Option<Seq<char>>) -> DirContent {
    if w.present() {
        w
    } else {
        match template {
            Some(t) => DirContent::CopyOf(t),
            None => DirContent::Empty,
        }
    }
}

/// What carrying an `EnsurePlan` out leaves at the workspace path.
pub open spec fn apply_ensure_plan(w: DirContent, p: EnsurePlan) -> DirContent {
    match p {
        EnsurePlan::AlreadyExists => w,
        EnsurePlan::Create => DirContent::Empty,
        EnsurePlan::CreateAndSeed(t) => DirContent::CopyOf(t@),
    }
}

/// Plan the `ensure` step for a workspace path that does or does not exist
/// on disk, under the given isolation mode. Carrying the plan out leaves the
/// directory exactly as `ensure_model` says, whatever stood there before.
pub fn plan_ensure(exists: bool, mode: &IsolationMode) -> (r: EnsurePlan)
    ensures
        exists <==> r is AlreadyExists,
        !exists && mode is NamespaceOnly ==> r is Create,
        !exists ==> (mode matches IsolationMode::PivotRoot(t) ==> (r matches
            EnsurePlan::CreateAndSeed(u) && u@ == t@)),
        forall|w: DirContent|
            w.present() == exists ==> apply_ensure_plan(w, r) == ensure_model(w, mode.template()),
{
    if exists {
        EnsurePlan::AlreadyExists
    } else {
        match mode {
            IsolationMode::NamespaceOnly => EnsurePlan::Create,
            IsolationMode::PivotRoot(t) => EnsurePlan::CreateAndSeed(t.clone()),
        }
    }
}

/// What `teardown` does to the directory: nothing when the path is already
/// absent; otherwise it removes the whole tree.
#[derive(Debug)]
pub enum TeardownPlan {
    NothingToRemove,
    RemoveTree,
}

/// What `teardown` leaves at the workspace path: nothing, whatever was
/// there and however the session ended.
pub open spec fn teardown_model(w: DirContent) -> DirContent {
    DirContent::Absent
}

/// What carrying a `TeardownPlan` out leaves at the workspace path.
pub open spec fn apply_teardown_plan(w: DirContent, p: TeardownPlan) -> DirContent {
    match p {
        TeardownPlan::NothingToRemove => w,
        TeardownPlan::RemoveTree => DirContent::Absent,
    }
}

/// Plan the `teardown` step for a workspace path that does or does not
/// exist on disk. Carrying the plan out leaves the path absent.
pub fn plan_teardown(exists: bool) -> (r: TeardownPlan)
    ensures
        exists <==> r is RemoveTree,
        forall|w: DirContent|
            w.present() == exists ==> apply_teardown_plan(w, r) == teardown_model(w),
{
    if exists {
        TeardownPlan::RemoveTree
    } else {
        TeardownPlan::NothingToRemove
    }
}

/// Ensuring twice is the same as ensuring once: the second call finds the
/// directory present and leaves it untouched, whatever the template.
pub proof fn lemma_ensure_idempotent(w: DirContent, template: Option<Seq<char>>)
    ensures
        ensure_model(ensure_model(w, template), template) == ensure_model(w, template),
        ensure_model(w, template).present(),
{
}

/// On a path that does not exist, `ensure` yields a directory whose
/// contents are exactly the template's when one is supplied, and an empty
/// directory when none is.
pub proof fn lemma_ensure_round_trip(w: DirContent, template: Option<Seq<char>>)
    requires
        !w.present(),
    ensures
        template matches Some(t) ==> ensure_model(w, template) == DirContent::CopyOf(t),
        template is None ==> ensure_model(w, template) == DirContent::Empty,
{
}

} // verus!
