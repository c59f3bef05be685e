//! Reconciling the pull secret in one namespace: delete any existing secret,
//! then create the fresh one. The decisions are made here; the caller performs
//! each action against the cluster and reports its outcome.
use vstd::prelude::*;

use crate::error::ErrorKind;

verus! {

/// What the cluster answered to a delete.
#[derive(Clone, Copy, Debug, PartialEq, Eq, Structural)]
pub enum DeleteOutcome {
    Deleted,
    NotFound,
    Failed,
}

/// What the cluster answered to a create.
#[derive(Clone, Copy, Debug, PartialEq, Eq, Structural)]
pub enum CreateOutcome {
    Created,
    AlreadyExists,
    Failed,
}

/// Where a namespace's reconciliation stands.
#[derive(Clone, Copy, Debug, PartialEq, Eq, Structural)]
pub enum Stage {
    /// The delete is to be sent.
    AwaitDelete,
    /// The delete is settled; the create is to be sent.
    AwaitCreate,
    Finished,
}

/// The next call to make against the cluster for one namespace.
#[derive(Clone, Copy, Debug, PartialEq, Eq, Structural)]
pub enum ReconcileAction {
    DeleteSecret,
    CreateSecret,
    Done,
}

/// The outcome for one namespace.
#[derive(Debug)]
pub struct SyncResult {
    pub namespace: String,
    pub deleted: bool,
    pub created: bool,
    pub error: Option<ErrorKind>,
}

impl View for SyncResult {
    /// Namespace, deleted, created, error.
    type V = (Seq<char>, bool, bool, Option<ErrorKind>);

    open spec fn view(&self) -> (Seq<char>, bool, bool, Option<ErrorKind>) {
        (self.namespace@, self.deleted, self.created, self.error)
    }
}

/// The reconciliation of one namespace.
#[derive(Debug)]
pub struct NamespaceReconciler {
    pub namespace: String,
    pub stage: Stage,
    pub deleted: bool,
    pub created: bool,
    pub error: Option<ErrorKind>,
}

/// The action that belongs to a stage.
pub open spec fn action_of(stage: Stage) -> ReconcileAction {
    match stage {
        Stage::AwaitDelete => ReconcileAction::DeleteSecret,
        Stage::AwaitCreate => ReconcileAction::CreateSecret,
        Stage::Finished => ReconcileAction::Done,
    }
}

/// Stage, `deleted` and error after a delete answered with `o`: a missing
/// secret is no failure; any other failure ends this namespace.
pub open spec fn after_delete(o: DeleteOutcome) -> (Stage, bool, Option<ErrorKind>) {
    match o {
        DeleteOutcome::Deleted => (Stage::AwaitCreate, true, None),
        DeleteOutcome::NotFound => (Stage::AwaitCreate, false, None),
        DeleteOutcome::Failed => (Stage::Finished, false, Some(ErrorKind::DeleteFailed)),
    }
}

/// `created` and error after a create answered with `o`.
pub open spec fn after_create(o: CreateOutcome) -> (bool, Option<ErrorKind>) {
    match o {
        CreateOutcome::Created => (true, None),
        _ => (false, Some(ErrorKind::CreateFailed)),
    }
}

impl NamespaceReconciler {
    /// The outcome recorded so far, in the shape of a result's view.
    pub open spec fn outcome(&self) -> (Seq<char>, bool, bool, Option<ErrorKind>) {
        (self.namespace@, self.deleted, self.created, self.error)
    }

    /// A reconciliation that has not yet made any call.
    pub fn new(namespace: String) -> (r: NamespaceReconciler)
        ensures
            r.namespace == namespace,
            r.stage == Stage::AwaitDelete,
            !r.deleted,
            !r.created,
            r.error is None,
    {
        NamespaceReconciler {
            namespace,
            stage: Stage::AwaitDelete,
            deleted: false,
            created: false,
            error: None,
        }
    }

    /// The call to make next: delete first, create once the delete is settled.
    pub fn next_action(&self) -> (r: ReconcileAction)
        ensures
            r == action_of(self.stage),
    {
        match self.stage {
            Stage::AwaitDelete => ReconcileAction::DeleteSecret,
            Stage::AwaitCreate => ReconcileAction::CreateSecret,
            Stage::Finished => ReconcileAction::Done,
        }
    }

    /// Records what the delete answered.
    pub fn on_delete(&mut self, outcome: DeleteOutcome)
        requires
            old(self).stage == Stage::AwaitDelete,
        ensures
            final(self).namespace == old(self).namespace,
            (final(self).stage, final(self).deleted, final(self).error) == after_delete(outcome),
            final(self).created == old(self).created,
    {
        match outcome {
            DeleteOutcome::Deleted => {
                self.deleted = true;
                self.error = None;
                self.stage = Stage::AwaitCreate;
            },
            DeleteOutcome::NotFound => {
                self.deleted = false;
                self.error = None;
                self.stage = Stage::AwaitCreate;
            },
            DeleteOutcome::Failed => {
                self.deleted = false;
                self.error = Some(ErrorKind::DeleteFailed);
                self.stage = Stage::Finished;
            },
        }
    }

    /// Records what the create answered; the namespace is then finished.
    pub fn on_create(&mut self, outcome: CreateOutcome)
        requires
            old(self).stage == Stage::AwaitCreate,
        ensures
            final(self).namespace == old(self).namespace,
            final(self).stage == Stage::Finished,
            final(self).deleted == old(self).deleted,
            (final(self).created, final(self).error) == after_create(outcome),
    {
        match outcome {
            CreateOutcome::Created => {
                self.created = true;
                self.error = None;
            },
            _ => {
                self.created = false;
                self.error = Some(ErrorKind::CreateFailed);
            },
        }
        self.stage = Stage::Finished;
    }

    /// The outcome of a finished reconciliation.
    pub fn into_result(self) -> (r: SyncResult)
        ensures
            r.namespace == self.namespace,
            r.deleted == self.deleted,
            r.created == self.created,
            r.error == self.error,
    {
        SyncResult {
            namespace: self.namespace,
            deleted: self.deleted,
            created: self.created,
            error: self.error,
        }
    }
}

/// How a cluster that behaves as documented answers a delete: `Deleted` when
/// the secret is there, `NotFound` when it is not.
pub open spec fn faithful_delete(present: bool) -> DeleteOutcome {
    if present {
        DeleteOutcome::Deleted
    } else {
        DeleteOutcome::NotFound
    }
}

/// How such a cluster answers a create: `AlreadyExists` when the secret is
/// there, `Created` when it is not.
pub open spec fn faithful_create(present: bool) -> CreateOutcome {
    if present {
        CreateOutcome::AlreadyExists
    } else {
        CreateOutcome::Created
    }
}

/// One reconciliation against such a cluster, from whether the secret is
/// there: the error it records, and whether the secret is there afterwards.
pub open spec fn reconcile_against(present: bool) -> (Option<ErrorKind>, bool) {
    let (stage, _, err) = after_delete(faithful_delete(present));
    if stage == Stage::Finished {
        (err, present)
    } else {
        let (created, err2) = after_create(faithful_create(false));
        (err2, created)
    }
}

/// Reconciling twice in a row against a cluster that behaves as documented
/// succeeds both times, whether or not the secret was there to begin with,
/// and leaves the secret there.
pub proof fn law_reconcile_idempotent(present: bool)
    ensures
        reconcile_against(present).0 is None,
        reconcile_against(reconcile_against(present).1).0 is None,
        reconcile_against(reconcile_against(present).1).1,
{
}

} // verus!
