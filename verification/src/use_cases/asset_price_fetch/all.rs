//! The all-accounts price fetch.

use crate::context::account::{AccountApplicationError, Holding};
use crate::context::asset::{Asset, AssetApplicationError};
use crate::use_cases::asset_price_fetch::error::{FetchAllAssetPricesError, FetchPriceTask};
use crate::use_cases::asset_price_fetch::guard::{FetchGuard, FetchGuardLease};
use crate::use_cases::asset_price_fetch::run::{ScopeRun, ScopeRunState, ScopeStep};
use crate::use_cases::asset_price_fetch::scope::scope_of;
use std::sync::atomic::AtomicBool;
use std::sync::Arc;
use vstd::prelude::*;

verus! {

/// Orchestrates the all-accounts fetch task. The services are whatever the
/// caller loads accounts, holdings and assets with, and dispatches with.
pub struct FetchAllAssetPricesUseCase<AccountSvc, AssetSvc, Dispatcher> {
    account_service: Arc<AccountSvc>,
    asset_service: Arc<AssetSvc>,
    fetch_guard: Arc<FetchGuard>,
    dispatcher: Arc<Dispatcher>,
}

impl<AccountSvc, AssetSvc, Dispatcher> FetchAllAssetPricesUseCase<AccountSvc, AssetSvc, Dispatcher> {
    pub closed spec fn spec_account_service(&self) -> Arc<AccountSvc> {
        self.account_service
    }

    pub closed spec fn spec_asset_service(&self) -> Arc<AssetSvc> {
        self.asset_service
    }

    pub closed spec fn spec_fetch_guard(&self) -> Arc<FetchGuard> {
        self.fetch_guard
    }

    pub closed spec fn spec_dispatcher(&self) -> Arc<Dispatcher> {
        self.dispatcher
    }

    /// Creates a new use case instance.
    pub fn new(
        account_service: Arc<AccountSvc>,
        asset_service: Arc<AssetSvc>,
        fetch_guard: Arc<FetchGuard>,
        dispatcher: Arc<Dispatcher>,
    ) -> (uc: Self)
        ensures
            uc.spec_account_service() == account_service,
            uc.spec_asset_service() == asset_service,
            uc.spec_fetch_guard() == fetch_guard,
            uc.spec_dispatcher() == dispatcher,
    {
        FetchAllAssetPricesUseCase { account_service, asset_service, fetch_guard, dispatcher }
    }

    /// The service accounts and holdings are loaded with.
    pub fn account_service(&self) -> (s: &Arc<AccountSvc>)
        ensures
            *s == self.spec_account_service(),
    {
        &self.account_service
    }

    /// The service assets are looked up with.
    pub fn asset_service(&self) -> (s: &Arc<AssetSvc>)
        ensures
            *s == self.spec_asset_service(),
    {
        &self.asset_service
    }

    /// The dispatcher the scope is handed to.
    pub fn dispatcher(&self) -> (d: &Arc<Dispatcher>)
        ensures
            *d == self.spec_dispatcher(),
    {
        &self.dispatcher
    }

    /// Starts a run: the in-flight guard is tried first, and its outcome
    /// taken as `FetchAllRun::on_lease` takes it.
    pub fn start(&self) -> (r: (FetchAllRun, FetchAllStep))
        ensures
            r.0.wf(),
            r.0.flag() == self.spec_fetch_guard().flag(),
            exists|lease: Option<FetchGuardLease>| #[trigger] FetchAllRun::lease_step(r.0, lease, r.1),
    {
        let (dummy, _) = ScopeRun::start(Vec::new());
        let mut run = FetchAllRun {
            lease: None,
            scope: dummy,
            state: FetchAllState::AwaitingLease,
            flag: Ghost(self.fetch_guard.flag()),
        };
        let lease = self.fetch_guard.try_acquire();
        let ghost outcome = lease;
        let step = run.on_lease(lease);
        let r = (run, step);
        assert(FetchAllRun::lease_step(r.0, outcome, r.1));
        r
    }
}

/// Where an all-accounts run stands.
#[derive(Debug, Clone, Copy, PartialEq, Eq, Structural)]
pub enum FetchAllState {
    /// Waiting for the outcome of the in-flight guard.
    AwaitingLease,
    /// Waiting for the list of accounts.
    AwaitingAccounts,
    /// Building the scope (see the inner scope run).
    Scoping,
    /// The run has ended.
    Ended,
}

/// What an all-accounts run asks for next, or how it ended.
#[derive(Debug)]
pub enum FetchAllStep {
    /// Load the ids of all accounts.
    LoadAccounts,
    /// Load the holdings of this account.
    LoadHoldings(String),
    /// Look up this asset.
    LookupAsset(String),
    /// Hand this scope to the dispatcher together with the lease; the run
    /// succeeded.
    Dispatch(Vec<(Asset, String)>, FetchGuardLease),
    /// The run failed with this error.
    Fail(FetchAllAssetPricesError),
}

/// One all-accounts fetch run. Dropping it drops the lease it still holds,
/// which releases the in-flight guard.
pub struct FetchAllRun {
    lease: Option<FetchGuardLease>,
    scope: ScopeRun,
    state: FetchAllState,
    flag: Ghost<Arc<AtomicBool>>,
}

impl FetchAllRun {
    /// The in-flight flag of the guard this run took.
    pub closed spec fn flag(&self) -> Arc<AtomicBool> {
        self.flag@
    }

    /// Where the run stands.
    pub closed spec fn state(&self) -> FetchAllState {
        self.state
    }

    /// The scope being built, once the accounts are known.
    pub closed spec fn scope(&self) -> ScopeRun {
        self.scope
    }

    /// Whether the run holds a lease on the in-flight guard.
    pub closed spec fn holds_lease(&self) -> bool {
        self.lease is Some
    }

    /// The lease the run holds, if any.
    pub closed spec fn held_lease(&self) -> Option<FetchGuardLease> {
        self.lease
    }

    /// What taking the outcome of the guard does: without a lease the run
    /// ends with `FetchAlreadyRunning`; with one, the run keeps that lease
    /// and asks for the accounts.
    pub open spec fn lease_step(run: FetchAllRun, lease: Option<FetchGuardLease>, step: FetchAllStep) -> bool {
        match lease {
            None => {
                &&& step matches FetchAllStep::Fail(f) && f@
                    == crate::use_cases::asset_price_fetch::error::FetchErrorView::Failure(
                    FetchPriceTask::FetchAlreadyRunning,
                )
                &&& run.state() == FetchAllState::Ended
                &&& !run.holds_lease()
            },
            Some(l) => {
                &&& step is LoadAccounts
                &&& run.state() == FetchAllState::AwaitingAccounts
                &&& run.held_lease() == Some(l)
            },
        }
    }

    /// Takes the outcome of trying the in-flight guard: `None` (another
    /// fetch holds it) ends the run with `FetchAlreadyRunning`; a lease is
    /// kept by the run, which then asks for the accounts.
    pub fn on_lease(&mut self, lease: Option<FetchGuardLease>) -> (step: FetchAllStep)
        requires
            old(self).wf(),
            old(self).state() == FetchAllState::AwaitingLease,
            lease matches Some(l) ==> l.flag() == old(self).flag(),
        ensures
            final(self).wf(),
            final(self).flag() == old(self).flag(),
            Self::lease_step(*final(self), lease, step),
    {
        match lease {
            None => {
                self.state = FetchAllState::Ended;
                FetchAllStep::Fail(FetchAllAssetPricesError::Failure(FetchPriceTask::FetchAlreadyRunning))
            },
            Some(l) => {
                self.lease = Some(l);
                self.state = FetchAllState::AwaitingAccounts;
                FetchAllStep::LoadAccounts
            },
        }
    }

    /// The run's invariant: it holds the lease from the moment it took the
    /// guard until it ends, and none before or after.
    pub closed spec fn wf(&self) -> bool {
        &&& (self.state == FetchAllState::AwaitingAccounts || self.state == FetchAllState::Scoping) ==> (
        self.lease matches Some(l) && l.flag() == self.flag@)
        &&& (self.state == FetchAllState::Ended || self.state == FetchAllState::AwaitingLease) ==> self.lease is None
        &&& self.state == FetchAllState::Scoping ==> self.scope.wf() && self.scope.state() != ScopeRunState::Ended
    }

    /// How a step of the inner scope run is reported, and what is left.
    pub open spec fn reported(run: FetchAllRun, inner: ScopeStep, step: FetchAllStep) -> bool {
        match inner {
            ScopeStep::LoadHoldings(id) => step matches FetchAllStep::LoadHoldings(i) && i == id
                && run.state() == FetchAllState::Scoping,
            ScopeStep::LookupAsset(id) => step matches FetchAllStep::LookupAsset(i) && i == id
                && run.state() == FetchAllState::Scoping,
            ScopeStep::Ready(scope) => step matches FetchAllStep::Dispatch(s, l) && s == scope
                && l.flag() == run.flag() && run.state() == FetchAllState::Ended,
            ScopeStep::NoFetchableHoldings => step matches FetchAllStep::Fail(e) && e@
                == crate::use_cases::asset_price_fetch::error::FetchErrorView::Failure(
                FetchPriceTask::NoFetchableHoldings,
            ) && run.state() == FetchAllState::Ended,
            ScopeStep::AccountFailed(a) => step matches FetchAllStep::Fail(e) && e
                == FetchAllAssetPricesError::Account(a) && run.state() == FetchAllState::Ended,
            ScopeStep::AssetFailed(a) => step matches FetchAllStep::Fail(e) && e
                == FetchAllAssetPricesError::Asset(a) && run.state() == FetchAllState::Ended,
        }
    }

    fn report(&mut self, inner: ScopeStep) -> (step: FetchAllStep)
        requires
            old(self).lease matches Some(l) && l.flag() == old(self).flag@,
            old(self).scope.wf(),
            inner is LoadHoldings || inner is LookupAsset ==> old(self).scope.state() != ScopeRunState::Ended,
        ensures
            final(self).wf(),
            final(self).flag() == old(self).flag(),
            final(self).scope() == old(self).scope(),
            Self::reported(*final(self), inner, step),
    {
        match inner {
            ScopeStep::LoadHoldings(id) => {
                self.state = FetchAllState::Scoping;
                FetchAllStep::LoadHoldings(id)
            },
            ScopeStep::LookupAsset(id) => {
                self.state = FetchAllState::Scoping;
                FetchAllStep::LookupAsset(id)
            },
            ScopeStep::Ready(scope) => {
                self.state = FetchAllState::Ended;
                let mut lease = None;
                std::mem::swap(&mut lease, &mut self.lease);
                match lease {
                    Some(l) => FetchAllStep::Dispatch(scope, l),
                    None => FetchAllStep::Fail(FetchAllAssetPricesError::Failure(FetchPriceTask::UnknownError)),
                }
            },
            ScopeStep::NoFetchableHoldings => {
                self.state = FetchAllState::Ended;
                self.lease = None;
                FetchAllStep::Fail(FetchAllAssetPricesError::Failure(FetchPriceTask::NoFetchableHoldings))
            },
            ScopeStep::AccountFailed(e) => {
                self.state = FetchAllState::Ended;
                self.lease = None;
                FetchAllStep::Fail(FetchAllAssetPricesError::Account(e))
            },
            ScopeStep::AssetFailed(e) => {
                self.state = FetchAllState::Ended;
                self.lease = None;
                FetchAllStep::Fail(FetchAllAssetPricesError::Asset(e))
            },
        }
    }

    /// Takes the ids of all accounts. A failed load ends the run; otherwise
    /// the scope run over those accounts starts.
    pub fn on_accounts(&mut self, answer: Result<Vec<String>, AccountApplicationError>) -> (step: FetchAllStep)
        requires
            old(self).wf(),
            old(self).state() == FetchAllState::AwaitingAccounts,
        ensures
            final(self).wf(),
            final(self).flag() == old(self).flag(),
            answer matches Err(e) ==> (step matches FetchAllStep::Fail(f) && f == FetchAllAssetPricesError::Account(e))
                && final(self).state() == FetchAllState::Ended,
            answer matches Ok(ids) ==> {
                &&& final(self).scope().accounts() == ids@.map_values(|s: String| s@)
                &&& final(self).scope().holdings_seen() == Seq::<crate::context::account::holding::HoldingView>::empty()
                &&& ids@.len() > 0 ==> (step matches FetchAllStep::LoadHoldings(id) && id@ == ids@[0]@)
                    && final(self).state() == FetchAllState::Scoping
                    && final(self).scope().account_cursor() == 1
                &&& ids@.len() == 0 ==> (step matches FetchAllStep::Fail(f) && f@
                    == crate::use_cases::asset_price_fetch::error::FetchErrorView::Failure(
                    FetchPriceTask::NoFetchableHoldings,
                )) && final(self).state() == FetchAllState::Ended
            },
    {
        match answer {
            Err(e) => {
                self.state = FetchAllState::Ended;
                self.lease = None;
                FetchAllStep::Fail(FetchAllAssetPricesError::Account(e))
            },
            Ok(ids) => {
                let (scope, inner) = ScopeRun::start(ids);
                self.scope = scope;
                proof {
                    if self.scope.accounts().len() == 0 {
                        assert(scope_of(Seq::<Option<Asset>>::empty()) == Seq::<(Asset, Seq<char>)>::empty());
                    }
                }
                self.report(inner)
            },
        }
    }

    /// Takes the holdings of the account handed out last.
    pub fn on_holdings(&mut self, answer: Result<Vec<Holding>, AccountApplicationError>) -> (step: FetchAllStep)
        requires
            old(self).wf(),
            old(self).state() == FetchAllState::Scoping,
            old(self).scope().state() == ScopeRunState::AwaitingHoldings,
        ensures
            final(self).wf(),
            final(self).flag() == old(self).flag(),
            exists|inner: ScopeStep| {
                &&& Self::reported(*final(self), inner, step)
                &&& #[trigger] ScopeRun::on_holdings_post(old(self).scope(), final(self).scope(), answer, inner)
            },
    {
        proof {
            self.scope.lemma_cursor_bound();
        }
        let inner = self.scope.on_holdings(answer);
        self.report(inner)
    }

    /// Takes the answer to the lookup handed out last.
    pub fn on_asset(&mut self, answer: Result<Option<Asset>, AssetApplicationError>) -> (step: FetchAllStep)
        requires
            old(self).wf(),
            old(self).state() == FetchAllState::Scoping,
            old(self).scope().state() == ScopeRunState::AwaitingAsset,
        ensures
            final(self).wf(),
            final(self).flag() == old(self).flag(),
            exists|inner: ScopeStep| {
                &&& Self::reported(*final(self), inner, step)
                &&& #[trigger] ScopeRun::on_asset_post(old(self).scope(), final(self).scope(), answer, inner)
            },
    {
        let inner = self.scope.on_asset(answer);
        self.report(inner)
    }
}

/// An all-accounts run holds the guard's lease exactly while it is under
/// way: not before the guard is taken, and none once it has ended, so a
/// failed run has released the guard and a dispatched run has handed its
/// lease over with the scope.
pub proof fn lemma_all_run_holds_lease_until_end(run: FetchAllRun)
    requires
        run.wf(),
    ensures
        run.holds_lease() <==> (run.state() == FetchAllState::AwaitingAccounts || run.state()
            == FetchAllState::Scoping),
{
}

} // verus!
