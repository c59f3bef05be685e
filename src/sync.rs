//! A whole synchronisation run: one token, one pull secret, and a
//! reconciliation for each configured namespace in turn, collected into a
//! summary. The caller performs each action and reports its outcome.
use vstd::prelude::*;

use crate::codec::{credential_of_token, decode_token};
use crate::error::ErrorKind;
use crate::reconcile::{
    after_create, after_delete, CreateOutcome, DeleteOutcome, NamespaceReconciler, Stage,
    SyncResult,
};
use crate::secret::{
    build_pull_secret, docker_config_payload, manifest_text, pull_secret_type, registry_url_text,
    secret_name_for_region, secret_name_text, PullSecretDocument, RegistryEndpoint,
};

verus! {

/// What a run needs to know: the registry account and region, the contact
/// email, the secret's name and the namespaces to fill.
#[derive(Debug)]
pub struct SyncConfig {
    pub account_id: String,
    pub region: String,
    pub email: String,
    pub secret_name: String,
    pub namespaces: Vec<String>,
}

impl SyncConfig {
    /// A configuration whose secret is named `<region>-ecr-registry`.
    pub fn new(account_id: String, region: String, email: String, namespaces: Vec<String>) -> (r: SyncConfig)
        ensures
            r.account_id == account_id,
            r.region == region,
            r.email == email,
            r.secret_name@ == secret_name_text(region@),
            r.namespaces == namespaces,
    {
        let secret_name = secret_name_for_region(region.as_str());
        SyncConfig { account_id, region, email, secret_name, namespaces }
    }
}

/// The token of the first authorization entry the registry answered with, if
/// there is an answer, it has an entry, and that entry holds a token.
pub fn first_authorization_token(data: Option<Vec<Option<String>>>) -> (r: Option<String>)
    ensures
        match data {
            Some(v) => r == (if v@.len() > 0 { v@[0] } else { None }),
            None => r is None,
        },
{
    match data {
        None => None,
        Some(mut v) => {
            if v.len() == 0 {
                None
            } else {
                v.swap_remove(0)
            }
        },
    }
}

/// The next call to make against the cluster.
#[derive(Debug)]
pub enum SyncAction {
    DeleteSecret { namespace: String, name: String },
    CreateSecret { namespace: String, manifest: String },
    Finished,
}

/// The run-level outcome: the namespaces that were filled, and those that
/// failed with their error.
#[derive(Debug)]
pub struct SyncSummary {
    pub succeeded: Vec<String>,
    pub failed: Vec<(String, ErrorKind)>,
}

/// The namespaces among results that succeeded, in order.
pub open spec fn succeeded_of(rs: Seq<(Seq<char>, bool, bool, Option<ErrorKind>)>) -> Seq<Seq<char>>
    decreases rs.len(),
{
    if rs.len() == 0 {
        Seq::empty()
    } else {
        let last = rs.last();
        succeeded_of(rs.drop_last()) + if last.3 is None {
            seq![last.0]
        } else {
            Seq::empty()
        }
    }
}

/// The namespaces among results that failed, with their error, in order.
pub open spec fn failed_of(rs: Seq<(Seq<char>, bool, bool, Option<ErrorKind>)>) -> Seq<(Seq<char>, ErrorKind)>
    decreases rs.len(),
{
    if rs.len() == 0 {
        Seq::empty()
    } else {
        let last = rs.last();
        failed_of(rs.drop_last()) + if last.3 is Some {
            seq![(last.0, last.3->0)]
        } else {
            Seq::empty()
        }
    }
}

pub open spec fn results_view(rs: Seq<SyncResult>) -> Seq<(Seq<char>, bool, bool, Option<ErrorKind>)> {
    rs.map_values(|r: SyncResult| r@)
}

pub open spec fn names_view(ns: Seq<String>) -> Seq<Seq<char>> {
    ns.map_values(|s: String| s@)
}

pub open spec fn failures_view(fs: Seq<(String, ErrorKind)>) -> Seq<(Seq<char>, ErrorKind)> {
    fs.map_values(|f: (String, ErrorKind)| (f.0@, f.1))
}

/// Every result lands in exactly one of the two lists.
pub proof fn law_summary_accounts_for_every_result(rs: Seq<(Seq<char>, bool, bool, Option<ErrorKind>)>)
    ensures
        succeeded_of(rs).len() + failed_of(rs).len() == rs.len(),
    decreases rs.len(),
{
    if rs.len() > 0 {
        law_summary_accounts_for_every_result(rs.drop_last());
    }
}

/// Sorts the per-namespace results into succeeded and failed.
pub fn summarize(results: &Vec<SyncResult>) -> (r: SyncSummary)
    ensures
        names_view(r.succeeded@) == succeeded_of(results_view(results@)),
        failures_view(r.failed@) == failed_of(results_view(results@)),
{
    let mut succeeded: Vec<String> = Vec::new();
    let mut failed: Vec<(String, ErrorKind)> = Vec::new();
    let mut i: usize = 0;
    while i < results.len()
        invariant
            i <= results.len(),
            names_view(succeeded@) == succeeded_of(results_view(results@.take(i as int))),
            failures_view(failed@) == failed_of(results_view(results@.take(i as int))),
        decreases results.len() - i,
    {
        let r = &results[i];
        let ghost before = results_view(results@.take(i as int));
        let ghost after = results_view(results@.take(i as int + 1));
        assert(after.drop_last() =~= before);
        assert(after.last() == r@);
        match r.error {
            None => {
                succeeded.push(r.namespace.clone());
                assert(names_view(succeeded@) =~= succeeded_of(after));
                assert(failures_view(failed@) =~= failed_of(after));
            },
            Some(e) => {
                failed.push((r.namespace.clone(), e));
                assert(names_view(succeeded@) =~= succeeded_of(after));
                assert(failures_view(failed@) =~= failed_of(after));
            },
        }
        i = i + 1;
    }
    assert(results@.take(i as int) =~= results@);
    SyncSummary { succeeded, failed }
}

/// A run in progress, from the first namespace to the last.
#[derive(Debug)]
pub struct SyncRun {
    /// The pull secret, built once; only its namespace changes per target.
    pub secret: PullSecretDocument,
    pub namespaces: Vec<String>,
    /// The position of the namespace being reconciled.
    pub current: usize,
    /// The reconciliation of that namespace, while one is left.
    pub reconciler: Option<NamespaceReconciler>,
    /// The outcomes of the namespaces before `current`, in order.
    pub results: Vec<SyncResult>,
}

impl SyncRun {
    pub open spec fn wf(&self) -> bool {
        &&& self.current <= self.namespaces@.len()
        &&& self.results@.len() == self.current
        &&& (forall|i: int| 0 <= i < self.current ==> #[trigger] self.results@[i].namespace@ == self.namespaces@[i]@)
        &&& (self.reconciler is Some <==> self.current < self.namespaces@.len())
        &&& (self.reconciler matches Some(rc) ==> {
            &&& rc.namespace@ == self.namespaces@[self.current as int]@
            &&& rc.stage != Stage::Finished
        })
    }

    /// The namespace at `current` has not yet been asked for anything.
    pub open spec fn fresh_at_current(&self) -> bool {
        self.reconciler matches Some(rc) ==> {
            &&& rc.stage == Stage::AwaitDelete
            &&& !rc.deleted
            &&& !rc.created
            &&& rc.error is None
        }
    }

    /// Starts a run from the token the registry handed out, if any.
    ///
    /// No token gives `TokenFetchFailed`; a token that does not decode gives
    /// its decoding error. Otherwise the secret is built once, for the
    /// configured registry, name and email, and the first namespace is next.
    pub fn start(config: SyncConfig, token: Option<String>) -> (r: Result<SyncRun, ErrorKind>)
        ensures
            match token {
                None => r == Err::<SyncRun, ErrorKind>(ErrorKind::TokenFetchFailed),
                Some(t) => match credential_of_token(t@) {
                    Err(e) => r == Err::<SyncRun, ErrorKind>(e),
                    Ok(c) => r matches Ok(run) && {
                        &&& run.wf()
                        &&& run.fresh_at_current()
                        &&& run.current == 0
                        &&& run.namespaces == config.namespaces
                        &&& run.secret.name@ == config.secret_name@
                        &&& run.secret.secret_type@ == pull_secret_type()
                        &&& run.secret.docker_config_json@ == docker_config_payload(
                            registry_url_text(config.account_id@, config.region@),
                            c,
                            config.email@,
                        )
                    },
                },
            },
    {
        let token = match token {
            None => return Err(ErrorKind::TokenFetchFailed),
            Some(t) => t,
        };
        let cred = match decode_token(token.as_str()) {
            Err(e) => return Err(e),
            Ok(c) => c,
        };
        let endpoint = RegistryEndpoint::for_account(config.account_id.as_str(), config.region.as_str());
        let secret = build_pull_secret(&cred, &endpoint, config.email.as_str(), config.secret_name.as_str(), "");
        let namespaces = config.namespaces;
        let reconciler = if namespaces.len() > 0 {
            Some(NamespaceReconciler::new(namespaces[0].clone()))
        } else {
            None
        };
        Ok(SyncRun { secret, namespaces, current: 0, reconciler, results: Vec::new() })
    }

    /// Whether every namespace has been reconciled.
    pub fn is_finished(&self) -> (r: bool)
        requires
            self.wf(),
        ensures
            r == (self.current == self.namespaces@.len()),
    {
        self.reconciler.is_none()
    }

    /// The call to make next: the current namespace's delete, then its
    /// create, then on to the next namespace.
    pub fn next_action(&self) -> (r: SyncAction)
        requires
            self.wf(),
        ensures
            match self.reconciler {
                None => r is Finished,
                Some(rc) => match rc.stage {
                    Stage::AwaitDelete => r matches SyncAction::DeleteSecret { namespace, name } && namespace@
                        == rc.namespace@ && name@ == self.secret.name@,
                    _ => r matches SyncAction::CreateSecret { namespace, manifest } && namespace@
                        == rc.namespace@ && manifest@ == manifest_text(
                        self.secret.name@,
                        rc.namespace@,
                        self.secret.secret_type@,
                        self.secret.docker_config_json@,
                    ),
                },
            },
    {
        match &self.reconciler {
            None => SyncAction::Finished,
            Some(rc) => match rc.stage {
                Stage::AwaitDelete => SyncAction::DeleteSecret {
                    namespace: rc.namespace.clone(),
                    name: self.secret.name.clone(),
                },
                _ => {
                    let doc = self.secret.in_namespace(rc.namespace.as_str());
                    SyncAction::CreateSecret { namespace: rc.namespace.clone(), manifest: doc.manifest() }
                },
            },
        }
    }

    /// Files a finished reconciliation and moves on to the next namespace.
    fn advance(&mut self, rc: NamespaceReconciler)
        requires
            old(self).reconciler is None,
            old(self).current < old(self).namespaces@.len(),
            old(self).results@.len() == old(self).current,
            forall|i: int| 0 <= i < old(self).current ==> #[trigger] old(self).results@[i].namespace@ == old(self).namespaces@[i]@,
            rc.namespace@ == old(self).namespaces@[old(self).current as int]@,
        ensures
            final(self).wf(),
            final(self).fresh_at_current(),
            final(self).current == old(self).current + 1,
            final(self).namespaces == old(self).namespaces,
            final(self).secret == old(self).secret,
            results_view(final(self).results@) == results_view(old(self).results@).push(rc.outcome()),
    {
        let ghost old_results = self.results@;
        let n = self.namespaces.len();
        self.results.push(rc.into_result());
        assert(results_view(self.results@) =~= results_view(old_results).push(rc.outcome()));
        self.current = self.current + 1;
        if self.current < n {
            self.reconciler = Some(NamespaceReconciler::new(self.namespaces[self.current].clone()));
        }
    }

    /// Records what the current namespace's delete answered. A failed delete
    /// finishes that namespace with `DeleteFailed` and moves on.
    pub fn on_delete(&mut self, outcome: DeleteOutcome)
        requires
            old(self).wf(),
            old(self).reconciler matches Some(rc) && rc.stage == Stage::AwaitDelete,
        ensures
            final(self).wf(),
            final(self).namespaces == old(self).namespaces,
            final(self).secret == old(self).secret,
            ({
                let rc = old(self).reconciler->0;
                let (stage, deleted, error) = after_delete(outcome);
                if stage == Stage::Finished {
                    &&& final(self).current == old(self).current + 1
                    &&& final(self).fresh_at_current()
                    &&& results_view(final(self).results@) == results_view(old(self).results@).push(
                        (rc.namespace@, deleted, rc.created, error),
                    )
                } else {
                    &&& final(self).current == old(self).current
                    &&& results_view(final(self).results@) == results_view(old(self).results@)
                    &&& final(self).reconciler matches Some(nrc) && nrc.stage == stage && nrc.deleted
                        == deleted && nrc.created == rc.created && nrc.error == error
                        && nrc.namespace == rc.namespace
                }
            }),
    {
        let mut rc = self.reconciler.take().unwrap();
        rc.on_delete(outcome);
        if rc.stage == Stage::Finished {
            self.advance(rc);
        } else {
            self.reconciler = Some(rc);
        }
    }

    /// Records what the current namespace's create answered; that namespace
    /// is then finished, and the next one follows whatever the answer was.
    pub fn on_create(&mut self, outcome: CreateOutcome)
        requires
            old(self).wf(),
            old(self).reconciler matches Some(rc) && rc.stage == Stage::AwaitCreate,
        ensures
            final(self).wf(),
            final(self).fresh_at_current(),
            final(self).namespaces == old(self).namespaces,
            final(self).secret == old(self).secret,
            final(self).current == old(self).current + 1,
            ({
                let rc = old(self).reconciler->0;
                let (created, error) = after_create(outcome);
                results_view(final(self).results@) == results_view(old(self).results@).push(
                    (rc.namespace@, rc.deleted, created, error),
                )
            }),
    {
        let mut rc = self.reconciler.take().unwrap();
        rc.on_create(outcome);
        self.advance(rc);
    }

    /// The summary of a finished run.
    pub fn summary(&self) -> (r: SyncSummary)
        ensures
            names_view(r.succeeded@) == succeeded_of(results_view(self.results@)),
            failures_view(r.failed@) == failed_of(results_view(self.results@)),
    {
        summarize(&self.results)
    }
}

} // verus!
