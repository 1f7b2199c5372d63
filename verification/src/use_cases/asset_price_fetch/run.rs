//! The decisions of one fetch run, as a state machine: the caller performs
//! each load or lookup the machine asks for and hands back its answer.

use crate::context::account::holding::HoldingView;
use crate::context::account::{AccountApplicationError, Holding};
use crate::context::asset::{Asset, AssetApplicationError, AssetError};
use crate::context::asset::domain::stooq_symbol::spec_stooq_symbol;
use crate::shared::cash::is_system_cash_asset_id;
use crate::use_cases::asset_price_fetch::scope::{
    add_positive_asset_ids, add_positive_ids, lemma_add_positive_ids, lemma_non_cash_ids,
    lemma_scope_complete, lemma_scope_entries_derivable, non_cash_ids, scope_of, ScopeBuilder,
};
use vstd::prelude::*;

verus! {

/// Where a scope run stands.
#[derive(Debug, Clone, Copy, PartialEq, Eq, Structural)]
pub enum ScopeRunState {
    /// Waiting for the holdings of the account handed out last.
    AwaitingHoldings,
    /// Waiting for the answer to the asset lookup handed out last.
    AwaitingAsset,
    /// The run has ended.
    Ended,
}

/// What a scope run asks for next, or how it ended.
#[derive(Debug)]
pub enum ScopeStep {
    /// Load the holdings of this account.
    LoadHoldings(String),
    /// Look up this asset.
    LookupAsset(String),
    /// The scope is complete and not empty: each asset with its Stooq symbol.
    Ready(Vec<(Asset, String)>),
    /// The scope is complete and empty.
    NoFetchableHoldings,
    /// Loading holdings failed.
    AccountFailed(AccountApplicationError),
    /// An asset lookup failed.
    AssetFailed(AssetError),
}

/// Building a fetch scope over a list of accounts: their holdings are loaded
/// account by account, then the candidate assets are looked up one by one.
pub struct ScopeRun {
    accounts: Vec<String>,
    account_cursor: usize,
    ids: Vec<String>,
    builder: ScopeBuilder,
    state: ScopeRunState,
    holdings_seen: Ghost<Seq<HoldingView>>,
    requested: Ghost<Seq<Seq<char>>>,
    answers: Ghost<Seq<Option<Asset>>>,
}

impl ScopeRun {
    /// The accounts whose holdings make the scope, in order.
    pub closed spec fn accounts(&self) -> Seq<Seq<char>> {
        self.accounts@.map_values(|s: String| s@)
    }

    /// How many accounts have been handed out.
    pub closed spec fn account_cursor(&self) -> int {
        self.account_cursor as int
    }

    /// Every holding answered so far, account after account.
    pub closed spec fn holdings_seen(&self) -> Seq<HoldingView> {
        self.holdings_seen@
    }

    /// The distinct assets held in positive quantity among the holdings seen.
    pub open spec fn candidates(&self) -> Seq<Seq<char>> {
        add_positive_ids(Seq::empty(), self.holdings_seen())
    }

    /// The assets handed out for lookup so far.
    pub closed spec fn requested(&self) -> Seq<Seq<char>> {
        self.requested@
    }

    /// The lookup answers recorded so far.
    pub closed spec fn answers(&self) -> Seq<Option<Asset>> {
        self.answers@
    }

    /// Where the run stands.
    pub closed spec fn state(&self) -> ScopeRunState {
        self.state
    }

    /// The run's invariant.
    pub closed spec fn wf(&self) -> bool {
        &&& self.account_cursor <= self.accounts@.len()
        &&& self.state == ScopeRunState::AwaitingHoldings ==> {
            &&& self.account_cursor > 0
            &&& self.ids@.map_values(|s: String| s@) == self.candidates()
            &&& self.requested@ == Seq::<Seq<char>>::empty()
            &&& self.answers@ == Seq::<Option<Asset>>::empty()
        }
        &&& self.state == ScopeRunState::AwaitingAsset ==> {
            &&& self.account_cursor == self.accounts@.len()
            &&& self.builder.wf()
            &&& self.builder.awaiting()
            &&& self.builder.ids() == self.candidates()
            &&& self.builder.requested() == self.requested@
            &&& self.builder.answers() == self.answers@
        }
    }

    /// The invariant bounds the account cursor.
    pub proof fn lemma_cursor_bound(&self)
        requires
            self.wf(),
        ensures
            self.account_cursor() <= self.accounts().len(),
    {
    }

    /// A run over `accounts`, holdings not loaded yet.
    fn new(accounts: Vec<String>) -> (run: ScopeRun)
        ensures
            run.accounts() == accounts@.map_values(|s: String| s@),
            run.ids@.len() == 0,
            run.account_cursor() == 0,
            run.holdings_seen() == Seq::<HoldingView>::empty(),
    {
        ScopeRun {
            accounts,
            account_cursor: 0,
            ids: Vec::new(),
            builder: ScopeBuilder::new(Vec::new()),
            state: ScopeRunState::Ended,
            holdings_seen: Ghost(Seq::empty()),
            requested: Ghost(Seq::empty()),
            answers: Ghost(Seq::empty()),
        }
    }

    /// Starts a run over `accounts`: the first account's holdings are asked
    /// for, or, with no account, the run ends with an empty scope.
    pub fn start(accounts: Vec<String>) -> (r: (ScopeRun, ScopeStep))
        ensures
            r.0.wf(),
            r.0.accounts() == accounts@.map_values(|s: String| s@),
            r.0.holdings_seen() == Seq::<HoldingView>::empty(),
            accounts@.len() > 0 ==> {
                &&& r.1 matches ScopeStep::LoadHoldings(id) && id@ == accounts@[0]@
                &&& r.0.account_cursor() == 1
                &&& r.0.state() == ScopeRunState::AwaitingHoldings
            },
            accounts@.len() == 0 ==> Self::lookup_step(r.0, r.1, Seq::empty(), Seq::empty()),
    {
        let mut run = ScopeRun::new(accounts);
        proof {
            assert(run.ids@.map_values(|s: String| s@) =~= Seq::<Seq<char>>::empty());
            assert(run.candidates() == Seq::<Seq<char>>::empty());
        }
        let step = run.advance();
        (run, step)
    }

    /// What taking the holdings of the account handed out last does.
    pub open spec fn on_holdings_post(
        before: ScopeRun,
        after: ScopeRun,
        answer: Result<Vec<Holding>, AccountApplicationError>,
        step: ScopeStep,
    ) -> bool {
        &&& after.wf()
        &&& after.accounts() == before.accounts()
        &&& answer matches Err(e) ==> (step matches ScopeStep::AccountFailed(f) && f == e)
            && after.state() == ScopeRunState::Ended
        &&& answer matches Ok(hs) ==> {
            &&& after.holdings_seen() == before.holdings_seen() + hs@.map_values(|h: Holding| h@)
            &&& before.account_cursor() < before.accounts().len() ==> {
                &&& step matches ScopeStep::LoadHoldings(id) && id@ == before.accounts()[before.account_cursor()]
                &&& after.account_cursor() == before.account_cursor() + 1
                &&& after.state() == ScopeRunState::AwaitingHoldings
            }
            &&& before.account_cursor() == before.accounts().len() ==> Self::lookup_step(
                after,
                step,
                Seq::empty(),
                Seq::empty(),
            )
        }
    }

    /// What taking the answer to the lookup handed out last does.
    pub open spec fn on_asset_post(
        before: ScopeRun,
        after: ScopeRun,
        answer: Result<Option<Asset>, AssetApplicationError>,
        step: ScopeStep,
    ) -> bool {
        &&& after.wf()
        &&& after.accounts() == before.accounts()
        &&& after.holdings_seen() == before.holdings_seen()
        &&& answer is Err ==> (step matches ScopeStep::AssetFailed(f) && f == AssetError::DatabaseError)
            && after.state() == ScopeRunState::Ended
        &&& answer matches Ok(found) ==> Self::lookup_step(
            after,
            step,
            before.requested(),
            before.answers().push(found),
        )
    }

    /// Takes the holdings of the account handed out last. A failed load ends
    /// the run; otherwise the next account or the first lookup is asked for.
    pub fn on_holdings(&mut self, answer: Result<Vec<Holding>, AccountApplicationError>) -> (step: ScopeStep)
        requires
            old(self).wf(),
            old(self).state() == ScopeRunState::AwaitingHoldings,
        ensures
            Self::on_holdings_post(*old(self), *final(self), answer, step),
    {
        match answer {
            Err(e) => {
                self.state = ScopeRunState::Ended;
                ScopeStep::AccountFailed(e)
            },
            Ok(holdings) => {
                let ghost seen = self.holdings_seen@;
                let ghost hv = holdings@.map_values(|h: Holding| h@);
                add_positive_asset_ids(&mut self.ids, &holdings);
                proof {
                    lemma_add_positive_ids_concat(Seq::empty(), seen, hv);
                }
                self.holdings_seen = Ghost(seen + hv);
                self.advance()
            },
        }
    }

    /// Takes the answer to the lookup handed out last. A failed lookup ends
    /// the run with a database error; otherwise the next lookup is asked for,
    /// or the run ends with the scope the answers make.
    pub fn on_asset(&mut self, answer: Result<Option<Asset>, AssetApplicationError>) -> (step: ScopeStep)
        requires
            old(self).wf(),
            old(self).state() == ScopeRunState::AwaitingAsset,
        ensures
            Self::on_asset_post(*old(self), *final(self), answer, step),
    {
        match self.builder.record(answer) {
            Err(e) => {
                self.state = ScopeRunState::Ended;
                ScopeStep::AssetFailed(e)
            },
            Ok(()) => {
                self.answers = Ghost(self.builder.answers());
                self.next_lookup()
            },
        }
    }

    /// The step after the holdings of every account handed out so far have
    /// been seen: the next account's holdings, else the scope's lookups.
    fn advance(&mut self) -> (step: ScopeStep)
        requires
            old(self).account_cursor <= old(self).accounts@.len(),
            old(self).ids@.map_values(|s: String| s@) == old(self).candidates(),
        ensures
            final(self).wf(),
            final(self).accounts() == old(self).accounts(),
            final(self).holdings_seen() == old(self).holdings_seen(),
            old(self).account_cursor() < old(self).accounts().len() ==> {
                &&& step matches ScopeStep::LoadHoldings(id) && id@ == old(self).accounts()[old(self).account_cursor()]
                &&& final(self).account_cursor() == old(self).account_cursor() + 1
                &&& final(self).state() == ScopeRunState::AwaitingHoldings
            },
            old(self).account_cursor() == old(self).accounts().len() ==> Self::lookup_step(
                *final(self),
                step,
                Seq::empty(),
                Seq::empty(),
            ),
    {
        if self.account_cursor < self.accounts.len() {
            let id = self.accounts[self.account_cursor].clone();
            self.account_cursor = self.account_cursor + 1;
            self.builder = ScopeBuilder::new(Vec::new());
            assert(self.builder.ids().subrange(0, 0) =~= Seq::<Seq<char>>::empty());
            self.state = ScopeRunState::AwaitingHoldings;
            self.requested = Ghost(Seq::empty());
            self.answers = Ghost(Seq::empty());
            ScopeStep::LoadHoldings(id)
        } else {
            let mut ids: Vec<String> = Vec::new();
            std::mem::swap(&mut ids, &mut self.ids);
            self.builder = ScopeBuilder::new(ids);
            assert(self.builder.ids().subrange(0, 0) =~= Seq::<Seq<char>>::empty());
            self.requested = Ghost(Seq::empty());
            self.answers = Ghost(Seq::empty());
            self.next_lookup()
        }
    }

    /// What handing out the next lookup yields: another lookup, or the end
    /// of the scope with the scope made by all the answers.
    pub open spec fn lookup_step(
        run: ScopeRun,
        step: ScopeStep,
        requested_before: Seq<Seq<char>>,
        answers: Seq<Option<Asset>>,
    ) -> bool {
        &&& run.answers() == answers
        &&& run.account_cursor() == run.accounts().len()
        &&& match step {
            ScopeStep::LookupAsset(id) => {
                &&& run.state() == ScopeRunState::AwaitingAsset
                &&& run.requested() == requested_before.push(id@)
                &&& run.requested().len() <= non_cash_ids(run.candidates()).len()
            },
            ScopeStep::Ready(scope) => {
                &&& run.state() == ScopeRunState::Ended
                &&& run.requested() == requested_before
                &&& run.requested() == non_cash_ids(run.candidates())
                &&& scope@.map_values(|e: (Asset, String)| (e.0, e.1@)) == scope_of(answers)
                &&& scope@.len() > 0
                &&& answers.len() == run.requested().len()
            },
            ScopeStep::NoFetchableHoldings => {
                &&& run.state() == ScopeRunState::Ended
                &&& run.requested() == requested_before
                &&& run.requested() == non_cash_ids(run.candidates())
                &&& scope_of(answers).len() == 0
                &&& answers.len() == run.requested().len()
            },
            _ => false,
        }
    }

    fn next_lookup(&mut self) -> (step: ScopeStep)
        requires
            old(self).account_cursor == old(self).accounts@.len(),
            old(self).builder.wf(),
            !old(self).builder.awaiting(),
            old(self).builder.ids() == old(self).candidates(),
            old(self).builder.requested() == old(self).requested(),
            old(self).builder.answers() == old(self).answers(),
        ensures
            final(self).wf(),
            final(self).accounts() == old(self).accounts(),
            final(self).holdings_seen() == old(self).holdings_seen(),
            Self::lookup_step(*final(self), step, old(self).requested(), old(self).answers()),
    {
        match self.builder.next_lookup() {
            Some(id) => {
                self.state = ScopeRunState::AwaitingAsset;
                self.requested = Ghost(self.builder.requested());
                ScopeStep::LookupAsset(id)
            },
            None => {
                self.state = ScopeRunState::Ended;
                proof {
                    assert(self.builder.ids().subrange(0, self.builder.cursor()) =~= self.builder.ids());
                }
                let mut done = ScopeBuilder::new(Vec::new());
                std::mem::swap(&mut done, &mut self.builder);
                let scope = done.into_scope();
                if scope.len() == 0 {
                    ScopeStep::NoFetchableHoldings
                } else {
                    ScopeStep::Ready(scope)
                }
            },
        }
    }
}

/// A scope handed out for dispatch is never empty; each of its entries pairs
/// an asset some lookup found with the Stooq symbol of that asset's
/// reference; one lookup was answered per requested asset; and the requested
/// assets are exactly the distinct assets held in positive quantity in the
/// holdings seen, less the system cash assets.
pub proof fn lemma_ready_scope(
    run: ScopeRun,
    scope: Vec<(Asset, String)>,
    requested_before: Seq<Seq<char>>,
    answers: Seq<Option<Asset>>,
)
    requires
        ScopeRun::lookup_step(run, ScopeStep::Ready(scope), requested_before, answers),
    ensures
        scope@.len() > 0,
        forall|k: int|
            0 <= k < scope@.len() ==> spec_stooq_symbol(#[trigger] scope@[k].0.reference@) == Some(scope@[k].1@)
                && answers.contains(Some(scope@[k].0)),
        forall|j: int|
            0 <= j < answers.len() && (#[trigger] answers[j] matches Some(a) && spec_stooq_symbol(a.reference@) is Some)
                ==> exists|k: int| 0 <= k < scope@.len() && scope@[k].0 == answers[j]->0
                && scope@[k].1@ == spec_stooq_symbol(answers[j]->0.reference@)->0,
        answers.len() == run.requested().len(),
        run.requested().no_duplicates(),
        forall|id: Seq<char>|
            #![trigger run.requested().contains(id)]
            run.requested().contains(id) <==> (!is_system_cash_asset_id(id) && exists|i: int|
                0 <= i < run.holdings_seen().len() && #[trigger] run.holdings_seen()[i].asset_id == id
                    && run.holdings_seen()[i].quantity > 0),
{
    let c = run.candidates();
    lemma_add_positive_ids(Seq::empty(), run.holdings_seen());
    lemma_non_cash_ids(c);
    lemma_scope_entries_derivable(answers);
    lemma_scope_complete(answers);
    let view = scope@.map_values(|e: (Asset, String)| (e.0, e.1@));
    assert forall|k: int| 0 <= k < scope@.len() implies spec_stooq_symbol(#[trigger] scope@[k].0.reference@)
        == Some(scope@[k].1@) && answers.contains(Some(scope@[k].0)) by {
        assert(view[k] == scope_of(answers)[k]);
        assert(view[k] == (scope@[k].0, scope@[k].1@));
        assert(spec_stooq_symbol(scope_of(answers)[k].0.reference@) == Some(scope_of(answers)[k].1));
        assert(answers.contains(Some(scope_of(answers)[k].0)));
    }
    assert forall|j: int|
        0 <= j < answers.len() && (#[trigger] answers[j] matches Some(a) && spec_stooq_symbol(a.reference@) is Some)
            implies exists|k: int| 0 <= k < scope@.len() && scope@[k].0 == answers[j]->0
            && scope@[k].1@ == spec_stooq_symbol(answers[j]->0.reference@)->0 by {
        let a = answers[j]->0;
        let sym = spec_stooq_symbol(a.reference@)->0;
        assert(scope_of(answers).contains((a, sym)));
        let k = choose|k: int| 0 <= k < scope_of(answers).len() && scope_of(answers)[k] == (a, sym);
        assert(view[k] == (scope@[k].0, scope@[k].1@));
    }
    assert forall|id: Seq<char>|
        #![trigger run.requested().contains(id)]
        run.requested().contains(id) <==> (!is_system_cash_asset_id(id) && exists|i: int|
            0 <= i < run.holdings_seen().len() && #[trigger] run.holdings_seen()[i].asset_id == id
                && run.holdings_seen()[i].quantity > 0) by {
        assert(non_cash_ids(c).contains(id) <==> (c.contains(id) && !is_system_cash_asset_id(id)));
        assert(c.contains(id) <==> (Seq::<Seq<char>>::empty().contains(id) || exists|i: int|
            0 <= i < run.holdings_seen().len() && #[trigger] run.holdings_seen()[i].asset_id == id
                && run.holdings_seen()[i].quantity > 0));
    }
}

/// Adding two batches of holdings one after the other adds their
/// concatenation.
pub proof fn lemma_add_positive_ids_concat(ids: Seq<Seq<char>>, a: Seq<HoldingView>, b: Seq<HoldingView>)
    ensures
        add_positive_ids(add_positive_ids(ids, a), b) == add_positive_ids(ids, a + b),
    decreases b.len(),
{
    if b.len() == 0 {
        assert(a + b =~= a);
    } else {
        lemma_add_positive_ids_concat(ids, a, b.drop_last());
        assert((a + b).drop_last() =~= a + b.drop_last());
        assert((a + b).last() == b.last());
    }
}

} // verus!
