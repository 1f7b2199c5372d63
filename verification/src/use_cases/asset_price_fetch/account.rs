//! The per-account price fetch.

use crate::context::account::errors::AccountApplicationErrorView;
use crate::context::account::holding::HoldingView;
use crate::context::account::{AccountApplicationError, Holding};
use crate::context::asset::{Asset, AssetApplicationError};
use crate::use_cases::asset_price_fetch::error::{FetchAccountAssetPricesError, FetchErrorView, FetchPriceTask};
use crate::use_cases::asset_price_fetch::guard::{FetchGuard, FetchGuardLease};
use crate::use_cases::asset_price_fetch::run::{ScopeRun, ScopeRunState, ScopeStep};
use std::sync::atomic::AtomicBool;
use std::sync::Arc;
use vstd::prelude::*;

verus! {

/// Orchestrates the per-account fetch task. The services are whatever the
/// caller loads accounts, holdings and assets with, and dispatches with.
pub struct FetchAccountAssetPricesUseCase<AccountSvc, AssetSvc, Dispatcher> {
    account_service: Arc<AccountSvc>,
    asset_service: Arc<AssetSvc>,
    fetch_guard: Arc<FetchGuard>,
    dispatcher: Arc<Dispatcher>,
}

impl<AccountSvc, AssetSvc, Dispatcher> FetchAccountAssetPricesUseCase<AccountSvc, AssetSvc, Dispatcher> {
    pub closed spec fn spec_account_service(&self) -> Arc<AccountSvc> {
        self.account_service
    }

    pub closed spec fn spec_asset_service(&self) -> Arc<AssetSvc> {
        self.asset_service
    }

    pub closed spec fn spec_fetch_guard(&self) -> Arc<FetchGuard> {
        self.fetch_guard
    }

    pub closed spec fn spec_dispatcher(&self) -> Arc<Dispatcher> {
        self.dispatcher
    }

    /// Creates a new use case instance.
    pub fn new(
        account_service: Arc<AccountSvc>,
        asset_service: Arc<AssetSvc>,
        fetch_guard: Arc<FetchGuard>,
        dispatcher: Arc<Dispatcher>,
    ) -> (uc: Self)
        ensures
            uc.spec_account_service() == account_service,
            uc.spec_asset_service() == asset_service,
            uc.spec_fetch_guard() == fetch_guard,
            uc.spec_dispatcher() == dispatcher,
    {
        FetchAccountAssetPricesUseCase { account_service, asset_service, fetch_guard, dispatcher }
    }

    /// The service accounts and holdings are loaded with.
    pub fn account_service(&self) -> (s: &Arc<AccountSvc>)
        ensures
            *s == self.spec_account_service(),
    {
        &self.account_service
    }

    /// The service assets are looked up with.
    pub fn asset_service(&self) -> (s: &Arc<AssetSvc>)
        ensures
            *s == self.spec_asset_service(),
    {
        &self.asset_service
    }

    /// The dispatcher the scope is handed to.
    pub fn dispatcher(&self) -> (d: &Arc<Dispatcher>)
        ensures
            *d == self.spec_dispatcher(),
    {
        &self.dispatcher
    }

    /// Starts a run for the account `account_id`: the account is looked up
    /// first.
    pub fn start(&self, account_id: &str) -> (r: (FetchAccountRun, FetchAccountStep))
        ensures
            r.0.wf(),
            r.0.flag() == self.spec_fetch_guard().flag(),
            r.0.account_id() == account_id@,
            r.0.state() == FetchAccountState::AwaitingAccount,
            r.1 matches FetchAccountStep::LookupAccount(id) && id@ == account_id@,
    {
        let (dummy, _) = ScopeRun::start(Vec::new());
        (
            FetchAccountRun {
                account_id: account_id.to_owned(),
                found: String::new(),
                guard: self.fetch_guard.clone(),
                lease: None,
                scope: dummy,
                state: FetchAccountState::AwaitingAccount,
                flag: Ghost(self.fetch_guard.flag()),
            },
            FetchAccountStep::LookupAccount(account_id.to_owned()),
        )
    }
}

/// Where a per-account run stands.
#[derive(Debug, Clone, Copy, PartialEq, Eq, Structural)]
pub enum FetchAccountState {
    /// Waiting for the account to be looked up.
    AwaitingAccount,
    /// The account was found; waiting for the in-flight guard.
    AwaitingLease,
    /// Building the scope (see the inner scope run).
    Scoping,
    /// The run has ended.
    Ended,
}

/// What a per-account run asks for next, or how it ended.
#[derive(Debug)]
pub enum FetchAccountStep {
    /// Look up the account with this id.
    LookupAccount(String),
    /// Load the holdings of this account.
    LoadHoldings(String),
    /// Look up this asset.
    LookupAsset(String),
    /// Hand this scope to the dispatcher together with the lease; the run
    /// succeeded.
    Dispatch(Vec<(Asset, String)>, FetchGuardLease),
    /// The run failed with this error.
    Fail(FetchAccountAssetPricesError),
}

/// One per-account fetch run. Dropping it drops the lease it still holds,
/// which releases the in-flight guard.
pub struct FetchAccountRun {
    account_id: String,
    found: String,
    guard: Arc<FetchGuard>,
    lease: Option<FetchGuardLease>,
    scope: ScopeRun,
    state: FetchAccountState,
    flag: Ghost<Arc<AtomicBool>>,
}

impl FetchAccountRun {
    /// The in-flight flag of the guard this run took.
    pub closed spec fn flag(&self) -> Arc<AtomicBool> {
        self.flag@
    }

    /// Where the run stands.
    pub closed spec fn state(&self) -> FetchAccountState {
        self.state
    }

    /// The scope being built, once the account is found and the guard taken.
    pub closed spec fn scope(&self) -> ScopeRun {
        self.scope
    }

    /// Whether the run holds a lease on the in-flight guard.
    pub closed spec fn holds_lease(&self) -> bool {
        self.lease is Some
    }

    /// The lease the run holds, if any.
    pub closed spec fn held_lease(&self) -> Option<FetchGuardLease> {
        self.lease
    }

    /// The id of the account the lookup found.
    pub closed spec fn found_account(&self) -> Seq<char> {
        self.found@
    }

    /// What taking the outcome of the guard does: without a lease the run
    /// ends with `FetchAlreadyRunning`; with one, the run keeps that lease
    /// and the scope run over the found account starts by loading its
    /// holdings.
    pub open spec fn lease_step(run: FetchAccountRun, lease: Option<FetchGuardLease>, step: FetchAccountStep) -> bool {
        match lease {
            None => {
                &&& step matches FetchAccountStep::Fail(f) && f@ == FetchErrorView::Failure(FetchPriceTask::FetchAlreadyRunning)
                &&& run.state() == FetchAccountState::Ended
                &&& !run.holds_lease()
            },
            Some(l) => {
                &&& step matches FetchAccountStep::LoadHoldings(i) && i@ == run.found_account()
                &&& run.state() == FetchAccountState::Scoping
                &&& run.held_lease() == Some(l)
                &&& run.scope().accounts() == seq![run.found_account()]
                &&& run.scope().holdings_seen() == Seq::<HoldingView>::empty()
                &&& run.scope().account_cursor() == 1
                &&& run.scope().state() == ScopeRunState::AwaitingHoldings
            },
        }
    }

    /// The run's invariant: it holds the lease while it builds the scope,
    /// and none before or after.
    pub closed spec fn wf(&self) -> bool {
        &&& self.guard.flag() == self.flag@
        &&& self.state != FetchAccountState::Scoping ==> self.lease is None
        &&& self.state == FetchAccountState::Scoping ==> (self.lease matches Some(l) && l.flag() == self.flag@)
        &&& self.state == FetchAccountState::Scoping ==> self.scope.wf() && self.scope.state() != ScopeRunState::Ended
    }

    /// How a step of the inner scope run is reported, and what is left.
    pub open spec fn reported(run: FetchAccountRun, inner: ScopeStep, step: FetchAccountStep) -> bool {
        match inner {
            ScopeStep::LoadHoldings(id) => step matches FetchAccountStep::LoadHoldings(i) && i == id
                && run.state() == FetchAccountState::Scoping,
            ScopeStep::LookupAsset(id) => step matches FetchAccountStep::LookupAsset(i) && i == id
                && run.state() == FetchAccountState::Scoping,
            ScopeStep::Ready(scope) => step matches FetchAccountStep::Dispatch(s, l) && s == scope
                && l.flag() == run.flag() && run.state() == FetchAccountState::Ended,
            ScopeStep::NoFetchableHoldings => step matches FetchAccountStep::Fail(e) && e@
                == FetchErrorView::Failure(
                FetchPriceTask::NoFetchableHoldings,
            ) && run.state() == FetchAccountState::Ended,
            ScopeStep::AccountFailed(a) => step matches FetchAccountStep::Fail(e) && e
                == FetchAccountAssetPricesError::Account(a) && run.state() == FetchAccountState::Ended,
            ScopeStep::AssetFailed(a) => step matches FetchAccountStep::Fail(e) && e
                == FetchAccountAssetPricesError::Asset(a) && run.state() == FetchAccountState::Ended,
        }
    }

    fn report(&mut self, inner: ScopeStep) -> (step: FetchAccountStep)
        requires
            old(self).lease matches Some(l) && l.flag() == old(self).flag@,
            old(self).guard.flag() == old(self).flag@,
            old(self).scope.wf(),
            inner is LoadHoldings || inner is LookupAsset ==> old(self).scope.state() != ScopeRunState::Ended,
        ensures
            final(self).wf(),
            final(self).flag() == old(self).flag(),
            final(self).scope() == old(self).scope(),
            final(self).account_id() == old(self).account_id(),
            Self::reported(*final(self), inner, step),
    {
        match inner {
            ScopeStep::LoadHoldings(id) => {
                self.state = FetchAccountState::Scoping;
                FetchAccountStep::LoadHoldings(id)
            },
            ScopeStep::LookupAsset(id) => {
                self.state = FetchAccountState::Scoping;
                FetchAccountStep::LookupAsset(id)
            },
            ScopeStep::Ready(scope) => {
                self.state = FetchAccountState::Ended;
                let mut lease = None;
                std::mem::swap(&mut lease, &mut self.lease);
                match lease {
                    Some(l) => FetchAccountStep::Dispatch(scope, l),
                    None => FetchAccountStep::Fail(FetchAccountAssetPricesError::Failure(FetchPriceTask::UnknownError)),
                }
            },
            ScopeStep::NoFetchableHoldings => {
                self.state = FetchAccountState::Ended;
                self.lease = None;
                FetchAccountStep::Fail(FetchAccountAssetPricesError::Failure(FetchPriceTask::NoFetchableHoldings))
            },
            ScopeStep::AccountFailed(e) => {
                self.state = FetchAccountState::Ended;
                self.lease = None;
                FetchAccountStep::Fail(FetchAccountAssetPricesError::Account(e))
            },
            ScopeStep::AssetFailed(e) => {
                self.state = FetchAccountState::Ended;
                self.lease = None;
                FetchAccountStep::Fail(FetchAccountAssetPricesError::Asset(e))
            },
        }
    }

    /// The id of the account the run is for.
    pub closed spec fn account_id(&self) -> Seq<char> {
        self.account_id@
    }

    /// Takes the account lookup. A failed lookup ends the run, and so does a
    /// missing account, with `AccountNotFound`. For an existing account the
    /// in-flight guard is tried next, and its outcome taken as `on_lease`
    /// takes it.
    pub fn on_account(&mut self, answer: Result<Option<String>, AccountApplicationError>) -> (step: FetchAccountStep)
        requires
            old(self).wf(),
            old(self).state() == FetchAccountState::AwaitingAccount,
        ensures
            final(self).wf(),
            final(self).flag() == old(self).flag(),
            final(self).account_id() == old(self).account_id(),
            answer matches Err(e) ==> (step matches FetchAccountStep::Fail(f) && f == FetchAccountAssetPricesError::Account(e))
                && final(self).state() == FetchAccountState::Ended,
            answer matches Ok(None) ==> (step matches FetchAccountStep::Fail(f) && f@
                == FetchErrorView::Account(AccountApplicationErrorView::AccountNotFound { account_id: old(self).account_id() }))
                && final(self).state() == FetchAccountState::Ended,
            answer matches Ok(Some(id)) ==> {
                &&& final(self).found_account() == id@
                &&& exists|lease: Option<FetchGuardLease>| #[trigger] Self::lease_step(*final(self), lease, step)
            },
    {
        match answer {
            Err(e) => {
                self.state = FetchAccountState::Ended;
                FetchAccountStep::Fail(FetchAccountAssetPricesError::Account(e))
            },
            Ok(None) => {
                self.state = FetchAccountState::Ended;
                FetchAccountStep::Fail(
                    FetchAccountAssetPricesError::Account(
                        AccountApplicationError::AccountNotFound { account_id: self.account_id.clone() },
                    ),
                )
            },
            Ok(Some(id)) => {
                self.found = id;
                self.state = FetchAccountState::AwaitingLease;
                let lease = self.guard.try_acquire();
                self.on_lease(lease)
            },
        }
    }

    /// Takes the outcome of trying the in-flight guard for the found
    /// account: `None` (another fetch holds it) ends the run with
    /// `FetchAlreadyRunning`; a lease is kept by the run, and the scope run
    /// over the found account starts.
    pub fn on_lease(&mut self, lease: Option<FetchGuardLease>) -> (step: FetchAccountStep)
        requires
            old(self).wf(),
            old(self).state() == FetchAccountState::AwaitingLease,
            lease matches Some(l) ==> l.flag() == old(self).flag(),
        ensures
            final(self).wf(),
            final(self).flag() == old(self).flag(),
            final(self).account_id() == old(self).account_id(),
            final(self).found_account() == old(self).found_account(),
            Self::lease_step(*final(self), lease, step),
    {
        match lease {
            None => {
                self.state = FetchAccountState::Ended;
                FetchAccountStep::Fail(FetchAccountAssetPricesError::Failure(FetchPriceTask::FetchAlreadyRunning))
            },
            Some(l) => {
                let mut accounts: Vec<String> = Vec::new();
                accounts.push(self.found.clone());
                let (scope, inner) = ScopeRun::start(accounts);
                proof {
                    assert(scope.accounts() =~= seq![self.found@]);
                }
                match inner {
                    ScopeStep::LoadHoldings(id) => {
                        self.lease = Some(l);
                        self.scope = scope;
                        self.state = FetchAccountState::Scoping;
                        FetchAccountStep::LoadHoldings(id)
                    },
                    _ => {
                        self.state = FetchAccountState::Ended;
                        FetchAccountStep::Fail(FetchAccountAssetPricesError::Failure(FetchPriceTask::UnknownError))
                    },
                }
            },
        }
    }

    /// Takes the holdings of the account handed out last.
    pub fn on_holdings(&mut self, answer: Result<Vec<Holding>, AccountApplicationError>) -> (step: FetchAccountStep)
        requires
            old(self).wf(),
            old(self).state() == FetchAccountState::Scoping,
            old(self).scope().state() == ScopeRunState::AwaitingHoldings,
        ensures
            final(self).wf(),
            final(self).flag() == old(self).flag(),
            exists|inner: ScopeStep| {
                &&& Self::reported(*final(self), inner, step)
                &&& #[trigger] ScopeRun::on_holdings_post(old(self).scope(), final(self).scope(), answer, inner)
            },
    {
        proof {
            self.scope.lemma_cursor_bound();
        }
        let inner = self.scope.on_holdings(answer);
        self.report(inner)
    }

    /// Takes the answer to the lookup handed out last.
    pub fn on_asset(&mut self, answer: Result<Option<Asset>, AssetApplicationError>) -> (step: FetchAccountStep)
        requires
            old(self).wf(),
            old(self).state() == FetchAccountState::Scoping,
            old(self).scope().state() == ScopeRunState::AwaitingAsset,
        ensures
            final(self).wf(),
            final(self).flag() == old(self).flag(),
            exists|inner: ScopeStep| {
                &&& Self::reported(*final(self), inner, step)
                &&& #[trigger] ScopeRun::on_asset_post(old(self).scope(), final(self).scope(), answer, inner)
            },
    {
        let inner = self.scope.on_asset(answer);
        self.report(inner)
    }
}

/// A per-account run holds the guard's lease exactly while it builds the
/// scope: not before the account is found, and none once it has ended, so a
/// failed run has released the guard and a dispatched run has handed its
/// lease over with the scope.
pub proof fn lemma_account_run_holds_lease_while_scoping(run: FetchAccountRun)
    requires
        run.wf(),
    ensures
        run.holds_lease() <==> run.state() == FetchAccountState::Scoping,
{
}

} // verus!
