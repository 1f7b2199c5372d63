//! Building the fetch scope: the distinct assets held in positive quantity,
//! less the system cash assets, looked up one by one, kept when their
//! reference yields a Stooq symbol.

use crate::context::account::holding::HoldingView;
use crate::context::account::Holding;
use crate::context::asset::domain::stooq_symbol::spec_stooq_symbol;
use crate::context::asset::{derive_stooq_symbol, Asset, AssetApplicationError, AssetError};
use crate::shared::cash::{is_system_cash_asset_id, system_cash_asset_id};
use crate::shared::text::starts_with;
use vstd::prelude::*;

verus! {

/// Translates a failed asset lookup into the asset error of the fetch
/// surface: every such failure is a database error there.
pub fn translate_asset_application_error(error: AssetApplicationError) -> (e: AssetError)
    ensures
        e == AssetError::DatabaseError,
{
    match error {
        AssetApplicationError::DatabaseError => AssetError::DatabaseError,
        _ => AssetError::DatabaseError,
    }
}

/// `ids` extended, in holding order, by the asset of each holding with a
/// positive quantity that is not listed yet.
pub open spec fn add_positive_ids(ids: Seq<Seq<char>>, holdings: Seq<HoldingView>) -> Seq<Seq<char>>
    decreases holdings.len(),
{
    if holdings.len() == 0 {
        ids
    } else {
        let rest = add_positive_ids(ids, holdings.drop_last());
        let h = holdings.last();
        if h.quantity > 0 && !rest.contains(h.asset_id) {
            rest.push(h.asset_id)
        } else {
            rest
        }
    }
}

/// Adding holdings keeps the listed ids distinct, and lists exactly the ids
/// listed before together with the assets held in positive quantity.
pub proof fn lemma_add_positive_ids(ids: Seq<Seq<char>>, holdings: Seq<HoldingView>)
    requires
        ids.no_duplicates(),
    ensures
        add_positive_ids(ids, holdings).no_duplicates(),
        forall|id: Seq<char>|
            #![trigger add_positive_ids(ids, holdings).contains(id)]
            add_positive_ids(ids, holdings).contains(id) <==> (ids.contains(id) || exists|i: int|
                0 <= i < holdings.len() && #[trigger] holdings[i].asset_id == id && holdings[i].quantity > 0),
    decreases holdings.len(),
{
    if holdings.len() > 0 {
        let init = holdings.drop_last();
        lemma_add_positive_ids(ids, init);
        let rest = add_positive_ids(ids, init);
        let h = holdings.last();
        let out = add_positive_ids(ids, holdings);
        if h.quantity > 0 && !rest.contains(h.asset_id) {
            assert(out == rest.push(h.asset_id));
            assert forall|a: int, b: int| 0 <= a < b < out.len() implies out[a] != out[b] by {
                if b == out.len() - 1 {
                    assert(out[a] == rest[a]);
                }
            }
        } else {
            assert(out == rest);
        }
        assert forall|id: Seq<char>|
            out.contains(id) <==> (ids.contains(id) || exists|i: int|
                0 <= i < holdings.len() && #[trigger] holdings[i].asset_id == id && holdings[i].quantity > 0) by {
            if out.contains(id) && !ids.contains(id) {
                let k = choose|k: int| 0 <= k < out.len() && out[k] == id;
                if k < rest.len() {
                    assert(out[k] == rest[k]);
                    assert(rest.contains(id));
                    let i = choose|i: int| 0 <= i < init.len() && #[trigger] init[i].asset_id == id && init[i].quantity > 0;
                    assert(holdings[i] == init[i]);
                    assert(holdings[i].asset_id == id);
                } else {
                    assert(id == h.asset_id);
                    assert(holdings[holdings.len() - 1] == h);
                    assert(holdings[holdings.len() - 1].asset_id == id);
                }
            }
            if exists|i: int| 0 <= i < holdings.len() && #[trigger] holdings[i].asset_id == id && holdings[i].quantity > 0 {
                let i = choose|i: int| 0 <= i < holdings.len() && #[trigger] holdings[i].asset_id == id && holdings[i].quantity > 0;
                if i < init.len() {
                    assert(init[i] == holdings[i]);
                    assert(init[i].asset_id == id && init[i].quantity > 0);
                    assert(rest.contains(id));
                    let k = choose|k: int| 0 <= k < rest.len() && rest[k] == id;
                    assert(out[k] == id);
                } else {
                    assert(holdings[i] == h);
                    if !rest.contains(id) {
                        assert(out[out.len() - 1] == id);
                    } else {
                        let k = choose|k: int| 0 <= k < rest.len() && rest[k] == id;
                        assert(out[k] == id);
                    }
                }
            }
            if ids.contains(id) {
                assert(rest.contains(id));
                let k = choose|k: int| 0 <= k < rest.len() && rest[k] == id;
                assert(out[k] == id);
            }
        }
    }
}

fn contains_id(ids: &Vec<String>, id: &String) -> (found: bool)
    ensures
        found == ids@.map_values(|s: String| s@).contains(id@),
{
    let ghost v = ids@.map_values(|s: String| s@);
    let mut i: usize = 0;
    while i < ids.len()
        invariant
            v == ids@.map_values(|s: String| s@),
            i <= ids@.len(),
            forall|j: int| 0 <= j < i ==> v[j] != id@,
        decreases ids@.len() - i,
    {
        if ids[i] == *id {
            assert(v[i as int] == id@);
            return true;
        }
        i = i + 1;
    }
    assert(!v.contains(id@));
    false
}

/// Adds to `ids`, in holding order, the asset of each holding with a positive
/// quantity that `ids` does not list yet.
pub fn add_positive_asset_ids(ids: &mut Vec<String>, holdings: &Vec<Holding>)
    ensures
        final(ids)@.map_values(|s: String| s@) == add_positive_ids(
            old(ids)@.map_values(|s: String| s@),
            holdings@.map_values(|h: Holding| h@),
        ),
{
    let ghost start = ids@.map_values(|s: String| s@);
    let ghost hv = holdings@.map_values(|h: Holding| h@);
    let mut i: usize = 0;
    while i < holdings.len()
        invariant
            hv == holdings@.map_values(|h: Holding| h@),
            i <= holdings@.len(),
            ids@.map_values(|s: String| s@) == add_positive_ids(start, hv.subrange(0, i as int)),
        decreases holdings@.len() - i,
    {
        let h = &holdings[i];
        let ghost before = ids@.map_values(|s: String| s@);
        assert(hv.subrange(0, i + 1).drop_last() =~= hv.subrange(0, i as int));
        assert(hv.subrange(0, i + 1).last() == h@);
        if h.quantity > 0 && !contains_id(ids, &h.asset_id) {
            ids.push(h.asset_id.clone());
            assert(ids@.map_values(|s: String| s@) =~= before.push(h.asset_id@));
        }
        i = i + 1;
    }
    assert(hv.subrange(0, holdings@.len() as int) =~= hv);
}

/// Whether `id` names a system cash asset.
pub fn is_cash_asset_id(id: &str) -> (cash: bool)
    ensures
        cash == is_system_cash_asset_id(id@),
{
    let prefix = system_cash_asset_id("");
    proof {
        reveal_strlit("");
        assert(prefix@ =~= crate::shared::cash::spec_system_cash_asset_id(Seq::empty()));
    }
    starts_with(id, prefix.as_str())
}

/// The ids of `ids` that do not name a system cash asset, in order.
pub open spec fn non_cash_ids(ids: Seq<Seq<char>>) -> Seq<Seq<char>>
    decreases ids.len(),
{
    if ids.len() == 0 {
        ids
    } else {
        let rest = non_cash_ids(ids.drop_last());
        if is_system_cash_asset_id(ids.last()) {
            rest
        } else {
            rest.push(ids.last())
        }
    }
}

/// The scope entries made by a sequence of lookup answers: each asset that
/// was found and whose reference yields a Stooq symbol, with that symbol.
pub open spec fn scope_of(answers: Seq<Option<Asset>>) -> Seq<(Asset, Seq<char>)>
    decreases answers.len(),
{
    if answers.len() == 0 {
        Seq::empty()
    } else {
        let rest = scope_of(answers.drop_last());
        match answers.last() {
            Some(a) => match spec_stooq_symbol(a.reference@) {
                Some(symbol) => rest.push((a, symbol)),
                None => rest,
            },
            None => rest,
        }
    }
}

/// The ids left to look up never name a cash asset, are taken from the
/// given ids, and stay distinct when those are.
pub proof fn lemma_non_cash_ids(ids: Seq<Seq<char>>)
    ensures
        forall|id: Seq<char>|
            #![trigger non_cash_ids(ids).contains(id)]
            non_cash_ids(ids).contains(id) <==> (ids.contains(id) && !is_system_cash_asset_id(id)),
        ids.no_duplicates() ==> non_cash_ids(ids).no_duplicates(),
    decreases ids.len(),
{
    if ids.len() == 0 {
        assert(non_cash_ids(ids) == ids);
        assert forall|id: Seq<char>|
            #![trigger non_cash_ids(ids).contains(id)]
            non_cash_ids(ids).contains(id) <==> (ids.contains(id) && !is_system_cash_asset_id(id)) by {
            assert(!ids.contains(id));
        }
    } else {
        let init = ids.drop_last();
        lemma_non_cash_ids(init);
        let rest = non_cash_ids(init);
        let out = non_cash_ids(ids);
        let x = ids.last();
        assert forall|id: Seq<char>|
            #![trigger non_cash_ids(ids).contains(id)]
            non_cash_ids(ids).contains(id) <==> (ids.contains(id) && !is_system_cash_asset_id(id)) by {
            if out.contains(id) {
                let k = choose|k: int| 0 <= k < out.len() && out[k] == id;
                if k < rest.len() {
                    assert(rest[k] == id);
                    assert(rest.contains(id));
                    assert(init.contains(id) && !is_system_cash_asset_id(id));
                    let j = choose|j: int| 0 <= j < init.len() && init[j] == id;
                    assert(ids[j] == id);
                } else {
                    if is_system_cash_asset_id(x) {
                        assert(out == rest);
                    }
                    assert(id == x);
                    assert(ids[ids.len() - 1] == id);
                }
                assert(ids.contains(id));
                assert(!is_system_cash_asset_id(id));
            }
            if ids.contains(id) && !is_system_cash_asset_id(id) {
                let j = choose|j: int| 0 <= j < ids.len() && ids[j] == id;
                if j < init.len() {
                    assert(init[j] == id);
                    assert(rest.contains(id));
                    let k = choose|k: int| 0 <= k < rest.len() && rest[k] == id;
                    assert(out[k] == id);
                } else {
                    assert(out[out.len() - 1] == id);
                }
            }
        }
        if ids.no_duplicates() {
            assert(init.no_duplicates());
            if !is_system_cash_asset_id(x) {
                assert(!init.contains(x)) by {
                    if init.contains(x) {
                        let j = choose|j: int| 0 <= j < init.len() && init[j] == x;
                        assert(ids[j] == ids[ids.len() - 1]);
                    }
                }
                assert(!rest.contains(x));
                assert forall|a: int, b: int| 0 <= a < b < out.len() implies out[a] != out[b] by {
                    if b == out.len() - 1 {
                        assert(out[a] == rest[a]);
                        assert(rest.contains(rest[a]));
                    }
                }
            }
        }
    }
}

/// Passing over a prefix of the ids hands out no more than all of them.
pub proof fn lemma_non_cash_ids_prefix(ids: Seq<Seq<char>>, c: int)
    requires
        0 <= c <= ids.len(),
    ensures
        non_cash_ids(ids.subrange(0, c)).len() <= non_cash_ids(ids).len(),
    decreases ids.len(),
{
    if c == ids.len() {
        assert(ids.subrange(0, c) =~= ids);
    } else {
        let init = ids.drop_last();
        assert(ids.subrange(0, c) =~= init.subrange(0, c));
        lemma_non_cash_ids_prefix(init, c);
    }
}

/// Every scope entry pairs an asset from the answers with the Stooq symbol
/// its reference yields.
pub proof fn lemma_scope_entries_derivable(answers: Seq<Option<Asset>>)
    ensures
        forall|k: int|
            0 <= k < scope_of(answers).len() ==> spec_stooq_symbol(#[trigger] scope_of(answers)[k].0.reference@)
                == Some(scope_of(answers)[k].1) && answers.contains(Some(scope_of(answers)[k].0)),
    decreases answers.len(),
{
    if answers.len() > 0 {
        let init = answers.drop_last();
        lemma_scope_entries_derivable(init);
        let rest = scope_of(init);
        let out = scope_of(answers);
        assert forall|k: int| 0 <= k < out.len() implies spec_stooq_symbol(#[trigger] out[k].0.reference@)
            == Some(out[k].1) && answers.contains(Some(out[k].0)) by {
            if k < rest.len() {
                assert(out[k] == rest[k]);
                let j = choose|j: int| 0 <= j < init.len() && init[j] == Some(rest[k].0);
                assert(answers[j] == init[j]);
            } else {
                assert(answers[answers.len() - 1] == answers.last());
            }
        }
    }
}

/// Recording one more answer extends the scope by exactly that answer's
/// entry: a found asset whose reference yields symbol `s` is appended as
/// `(asset, s)` after every entry already there; a missing asset, or one
/// whose reference yields no symbol, leaves the scope as it was.
pub proof fn lemma_scope_of_push(answers: Seq<Option<Asset>>, answer: Option<Asset>)
    ensures
        answer is Some && spec_stooq_symbol(answer->0.reference@) is Some ==> scope_of(answers.push(answer))
            == scope_of(answers).push((answer->0, spec_stooq_symbol(answer->0.reference@)->0)),
        !(answer is Some && spec_stooq_symbol(answer->0.reference@) is Some) ==> scope_of(answers.push(answer))
            == scope_of(answers),
{
    let longer = answers.push(answer);
    assert(longer.drop_last() =~= answers);
    assert(longer.last() == answer);
}

/// The scope is complete: every answer that found an asset whose reference
/// yields a Stooq symbol contributes that asset with that symbol.
pub proof fn lemma_scope_complete(answers: Seq<Option<Asset>>)
    ensures
        forall|j: int|
            0 <= j < answers.len() && (#[trigger] answers[j] matches Some(a) && spec_stooq_symbol(a.reference@) is Some)
                ==> scope_of(answers).contains((answers[j]->0, spec_stooq_symbol(answers[j]->0.reference@)->0)),
    decreases answers.len(),
{
    if answers.len() > 0 {
        let init = answers.drop_last();
        lemma_scope_complete(init);
        lemma_scope_of_push(init, answers.last());
        assert(init.push(answers.last()) =~= answers);
        let rest = scope_of(init);
        let out = scope_of(answers);
        assert forall|j: int|
            0 <= j < answers.len() && (#[trigger] answers[j] matches Some(a) && spec_stooq_symbol(a.reference@) is Some)
                implies out.contains((answers[j]->0, spec_stooq_symbol(answers[j]->0.reference@)->0)) by {
            let a = answers[j]->0;
            let sym = spec_stooq_symbol(a.reference@)->0;
            if j < init.len() {
                assert(init[j] == answers[j]);
                assert(rest.contains((a, sym)));
                let k = choose|k: int| 0 <= k < rest.len() && rest[k] == (a, sym);
                assert(out[k] == rest[k]);
            } else {
                assert(answers.last() == Some(a));
                assert(out[out.len() - 1] == (a, sym));
            }
        }
    }
}

/// The lookups of one fetch scope, driven one at a time: the caller asks for
/// the next asset to look up, looks it up, and records the answer.
pub struct ScopeBuilder {
    ids: Vec<String>,
    cursor: usize,
    awaiting: bool,
    scope: Vec<(Asset, String)>,
    answers: Ghost<Seq<Option<Asset>>>,
}

impl ScopeBuilder {
    /// The candidate asset ids, in order.
    pub closed spec fn ids(&self) -> Seq<Seq<char>> {
        self.ids@.map_values(|s: String| s@)
    }

    /// How many candidate ids have been passed over or handed out.
    pub closed spec fn cursor(&self) -> int {
        self.cursor as int
    }

    /// Whether a lookup has been handed out and its answer not recorded.
    pub closed spec fn awaiting(&self) -> bool {
        self.awaiting
    }

    /// The ids handed out for lookup so far, in order.
    pub open spec fn requested(&self) -> Seq<Seq<char>> {
        non_cash_ids(self.ids().subrange(0, self.cursor()))
    }

    /// The recorded lookup answers, in order.
    pub closed spec fn answers(&self) -> Seq<Option<Asset>> {
        self.answers@
    }

    /// The scope built so far.
    pub closed spec fn scope(&self) -> Seq<(Asset, Seq<char>)> {
        self.scope@.map_values(|e: (Asset, String)| (e.0, e.1@))
    }

    /// Whether every candidate has been passed over or looked up.
    pub open spec fn finished(&self) -> bool {
        !self.awaiting() && self.cursor() == self.ids().len()
    }

    /// The builder's invariant: one recorded answer per id handed out (but
    /// the one awaited), and the scope is what those answers make.
    pub closed spec fn wf(&self) -> bool {
        &&& self.cursor <= self.ids@.len()
        &&& self.requested().len() == self.answers@.len() + (if self.awaiting { 1int } else { 0int })
        &&& self.scope() == scope_of(self.answers@)
    }

    /// A builder over the candidate asset ids, nothing looked up yet.
    pub fn new(ids: Vec<String>) -> (b: ScopeBuilder)
        ensures
            b.wf(),
            b.ids() == ids@.map_values(|s: String| s@),
            b.cursor() == 0,
            !b.awaiting(),
            b.answers() == Seq::<Option<Asset>>::empty(),
    {
        let b = ScopeBuilder { ids, cursor: 0, awaiting: false, scope: Vec::new(), answers: Ghost(Seq::empty()) };
        assert(b.ids().subrange(0, 0) =~= Seq::<Seq<char>>::empty());
        assert(b.scope() =~= Seq::<(Asset, Seq<char>)>::empty());
        b
    }

    /// Hands out the next candidate that is not a cash asset, passing over
    /// the cash ones; `None` once the candidates are exhausted.
    pub fn next_lookup(&mut self) -> (next: Option<String>)
        requires
            old(self).wf(),
            !old(self).awaiting(),
        ensures
            final(self).wf(),
            final(self).ids() == old(self).ids(),
            final(self).answers() == old(self).answers(),
            final(self).scope() == old(self).scope(),
            match next {
                Some(id) => final(self).awaiting() && final(self).requested() == old(self).requested().push(id@)
                    && final(self).requested().len() <= non_cash_ids(final(self).ids()).len(),
                None => final(self).finished() && final(self).requested() == old(self).requested()
                    && final(self).requested().len() == final(self).answers().len(),
            },
    {
        let ghost ids = self.ids();
        let ghost req0 = self.requested();
        while self.cursor < self.ids.len()
            invariant
                self.ids() == ids,
                ids == old(self).ids(),
                req0 == old(self).requested(),
                old(self).wf(),
                !old(self).awaiting(),
                self.cursor <= self.ids@.len(),
                !self.awaiting,
                self.requested() == req0,
                self.answers == old(self).answers,
                self.scope == old(self).scope,
            decreases self.ids@.len() - self.cursor,
        {
            let i = self.cursor;
            self.cursor = i + 1;
            assert(ids.subrange(0, i + 1).drop_last() =~= ids.subrange(0, i as int));
            assert(ids.subrange(0, i + 1).last() == ids[i as int]);
            let cash = is_cash_asset_id(self.ids[i].as_str());
            if !cash {
                let id = self.ids[i].clone();
                assert(id@ == ids[i as int]);
                self.awaiting = true;
                assert(self.ids() == ids);
                assert(self.requested() == req0.push(id@));
                proof {
                    lemma_non_cash_ids_prefix(ids, i + 1);
                }
                return Some(id);
            }
        }
        None
    }

    /// Records the answer to the lookup handed out last. A failed lookup ends
    /// the scope with a database error; otherwise the asset joins the scope
    /// when it was found and its reference yields a Stooq symbol.
    pub fn record(&mut self, answer: Result<Option<Asset>, AssetApplicationError>) -> (r: Result<(), AssetError>)
        requires
            old(self).wf(),
            old(self).awaiting(),
        ensures
            answer is Err ==> r == Err::<(), AssetError>(AssetError::DatabaseError),
            answer matches Ok(found) ==> {
                &&& r is Ok
                &&& final(self).wf()
                &&& !final(self).awaiting()
                &&& final(self).ids() == old(self).ids()
                &&& final(self).cursor() == old(self).cursor()
                &&& final(self).answers() == old(self).answers().push(found)
                &&& found is Some && spec_stooq_symbol(found->0.reference@) is Some ==> final(self).scope()
                    == old(self).scope().push((found->0, spec_stooq_symbol(found->0.reference@)->0))
                &&& !(found is Some && spec_stooq_symbol(found->0.reference@) is Some) ==> final(self).scope()
                    == old(self).scope()
            },
    {
        match answer {
            Err(e) => Err(translate_asset_application_error(e)),
            Ok(found) => {
                let ghost answers = self.answers@.push(found);
                let ghost before = self.scope();
                assert(answers.drop_last() =~= self.answers@);
                match found {
                    Some(asset) => {
                        match derive_stooq_symbol(asset.reference.as_str()) {
                            Some(symbol) => {
                                self.scope.push((asset, symbol));
                                assert(self.scope() =~= before.push((asset, symbol@)));
                            },
                            None => {},
                        }
                    },
                    None => {},
                }
                self.answers = Ghost(answers);
                self.awaiting = false;
                Ok(())
            },
        }
    }

    /// The scope built.
    pub fn into_scope(self) -> (scope: Vec<(Asset, String)>)
        requires
            self.wf(),
        ensures
            scope@.map_values(|e: (Asset, String)| (e.0, e.1@)) == self.scope(),
            self.scope() == scope_of(self.answers()),
    {
        self.scope
    }
}

} // verus!
