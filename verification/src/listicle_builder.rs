//! The listicle builder: a pre-landing page whose links each lead to a
//! landing page, whose links each lead to an offer.

use vstd::prelude::*;
use crate::model::{LandingPage, ListiclePair, Offer, Sequence};

verus! {

/// A landing page slot of a listicle and its offer slots, each filled or not.
#[derive(Debug)]
pub struct OptionalPair {
    pub landing_page: Option<LandingPage>,
    pub offer: Vec<Option<Offer>>,
}

/// What the listicle builder reports to the user.
#[derive(Clone, Copy, Debug, PartialEq, Eq, Structural)]
pub enum ListicleNotice {
    /// No landing page slot at the given position.
    PairNotFound,
    /// No offer slot at the given position of the landing page slot.
    OfferNotFound,
    /// A slot is still empty, so the listicle cannot be saved.
    FieldsMissing,
}

/// The state of the listicle builder.
#[derive(Debug)]
pub struct MatrixBuilder {
    pub pre_landing_page: Option<LandingPage>,
    pub pairs: Vec<OptionalPair>,
}

/// `p` is an empty slot with `n` empty offer slots.
pub open spec fn is_empty_offers(p: OptionalPair, n: nat) -> bool {
    &&& p.offer@.len() == n
    &&& forall|k: int| 0 <= k < n ==> p.offer@[k] is None
}

/// `c` is the filled-in pair `p`.
pub open spec fn converted(p: OptionalPair, c: ListiclePair) -> bool {
    &&& p.landing_page == Some(c.landing_page)
    &&& c.offers@.len() == p.offer@.len()
    &&& forall|k: int| 0 <= k < p.offer@.len() ==> p.offer@[k] == Some(#[trigger] c.offers@[k])
}

impl OptionalPair {
    /// The filled slot of a saved listicle pair.
    pub fn from_pair(p: ListiclePair) -> (r: OptionalPair)
        ensures
            converted(r, p),
    {
        let ListiclePair { landing_page, offers } = p;
        let ghost os = offers@;
        let n = offers.len();
        let mut slots: Vec<Option<Offer>> = Vec::new();
        let mut rest = offers;
        let mut k: usize = 0;
        while rest.len() > 0
            invariant
                k + rest@.len() == os.len(),
                os.len() == n,
                rest@ == os.subrange(k as int, os.len() as int),
                slots@.len() == k,
                forall|j: int| 0 <= j < k ==> slots@[j] == Some(#[trigger] os[j]),
            decreases rest@.len(),
        {
            let o = rest.remove(0);
            slots.push(Some(o));
            k = k + 1;
            assert(rest@ =~= os.subrange(k as int, os.len() as int));
        }
        OptionalPair { landing_page: Some(landing_page), offer: slots }
    }
}

impl MatrixBuilder {
    /// Every landing page slot is filled.
    pub open spec fn spec_landers_are_ready(self) -> bool {
        forall|g: int| 0 <= g < self.pairs@.len() ==> #[trigger] self.pairs@[g].landing_page is Some
    }

    /// Every offer slot is filled.
    pub open spec fn spec_offers_are_ready(self) -> bool {
        forall|g: int, k: int|
            0 <= g < self.pairs@.len() && 0 <= k < self.pairs@[g].offer@.len()
                ==> #[trigger] self.pairs@[g].offer@[k] is Some
    }

    /// Every slot of the listicle is filled.
    pub open spec fn spec_all_fields_filled_out(self) -> bool {
        self.pre_landing_page is Some && self.spec_landers_are_ready()
            && self.spec_offers_are_ready()
    }

    /// A builder over what the sequence holds so far.
    pub fn create(pre_landing_page: Option<LandingPage>, pairs: Vec<OptionalPair>) -> (r: MatrixBuilder)
        ensures
            r.pre_landing_page == pre_landing_page,
            r.pairs == pairs,
    {
        MatrixBuilder { pre_landing_page, pairs }
    }

    /// Takes the sequence's saved listicle: its pre-landing page, and its
    /// pairs as filled slots.
    pub fn change(&mut self, pre_landing_page: Option<LandingPage>, pairs: Vec<ListiclePair>)
        ensures
            final(self).pre_landing_page == pre_landing_page,
            final(self).pairs@.len() == pairs@.len(),
            forall|g: int|
                0 <= g < pairs@.len() ==> converted(#[trigger] final(self).pairs@[g], pairs@[g]),
    {
        let ghost ps = pairs@;
        let n = pairs.len();
        let mut out: Vec<OptionalPair> = Vec::new();
        let mut rest = pairs;
        let mut g: usize = 0;
        while rest.len() > 0
            invariant
                g + rest@.len() == ps.len(),
                ps.len() == n,
                rest@ == ps.subrange(g as int, ps.len() as int),
                out@.len() == g,
                forall|h: int| 0 <= h < g ==> converted(#[trigger] out@[h], ps[h]),
            decreases rest@.len(),
        {
            let p = rest.remove(0);
            out.push(OptionalPair::from_pair(p));
            g = g + 1;
            assert(rest@ =~= ps.subrange(g as int, ps.len() as int));
        }
        self.pre_landing_page = pre_landing_page;
        self.pairs = out;
    }

    /// Whether a pre-landing page is picked.
    pub fn pre_lander_ready(&self) -> (r: bool)
        ensures
            r == (self.pre_landing_page is Some),
    {
        self.pre_landing_page.is_some()
    }

    /// Whether every landing page slot is filled.
    pub fn landers_are_ready(&self) -> (r: bool)
        ensures
            r == self.spec_landers_are_ready(),
    {
        let mut g: usize = 0;
        while g < self.pairs.len()
            invariant
                g <= self.pairs@.len(),
                forall|h: int| 0 <= h < g ==> #[trigger] self.pairs@[h].landing_page is Some,
            decreases self.pairs@.len() - g,
        {
            if self.pairs[g].landing_page.is_none() {
                return false;
            }
            g = g + 1;
        }
        true
    }

    /// Whether every offer slot is filled.
    pub fn offers_are_ready(&self) -> (r: bool)
        ensures
            r == self.spec_offers_are_ready(),
    {
        let mut g: usize = 0;
        while g < self.pairs.len()
            invariant
                g <= self.pairs@.len(),
                forall|h: int, k: int|
                    0 <= h < g && 0 <= k < self.pairs@[h].offer@.len()
                        ==> #[trigger] self.pairs@[h].offer@[k] is Some,
            decreases self.pairs@.len() - g,
        {
            let offers = &self.pairs[g].offer;
            let mut k: usize = 0;
            while k < offers.len()
                invariant
                    g < self.pairs@.len(),
                    *offers == self.pairs@[g as int].offer,
                    k <= offers@.len(),
                    forall|j: int| 0 <= j < k ==> #[trigger] offers@[j] is Some,
                decreases offers@.len() - k,
            {
                if offers[k].is_none() {
                    return false;
                }
                k = k + 1;
            }
            g = g + 1;
        }
        true
    }

    /// Whether every slot of the listicle is filled.
    pub fn all_fields_filled_out(&self) -> (r: bool)
        ensures
            r == self.spec_all_fields_filled_out(),
    {
        self.pre_lander_ready() && self.landers_are_ready() && self.offers_are_ready()
    }

    /// Picks the pre-landing page: one empty landing page slot per link of it.
    pub fn select_pre_landing_page(&mut self, lp: LandingPage)
        ensures
            final(self).pre_landing_page == Some(lp),
            final(self).pairs@.len() == lp.number_of_calls_to_action,
            forall|g: int|
                0 <= g < final(self).pairs@.len() ==> {
                    &&& (#[trigger] final(self).pairs@[g]).landing_page is None
                    &&& final(self).pairs@[g].offer@.len() == 0
                },
    {
        let n = lp.number_of_calls_to_action;
        let mut pairs: Vec<OptionalPair> = Vec::new();
        let mut g: u8 = 0;
        while g < n
            invariant
                g <= n,
                pairs@.len() == g,
                forall|h: int|
                    0 <= h < g ==> {
                        &&& (#[trigger] pairs@[h]).landing_page is None
                        &&& pairs@[h].offer@.len() == 0
                    },
            decreases n - g,
        {
            pairs.push(OptionalPair { landing_page: None, offer: Vec::new() });
            g = g + 1;
        }
        self.pairs = pairs;
        self.pre_landing_page = Some(lp);
    }

    /// Picks the landing page of slot `group`: its offer slots become one
    /// empty slot per link of the page.
    pub fn select_landing_page(&mut self, group: usize, lp: LandingPage) -> (r: Result<(), ListicleNotice>)
        ensures
            final(self).pre_landing_page == old(self).pre_landing_page,
            if group < old(self).pairs@.len() {
                &&& r is Ok
                &&& final(self).pairs@.len() == old(self).pairs@.len()
                &&& forall|h: int|
                    0 <= h < old(self).pairs@.len() && h != group ==> #[trigger] final(self).pairs@[h]
                        == old(self).pairs@[h]
                &&& final(self).pairs@[group as int].landing_page == Some(lp)
                &&& is_empty_offers(final(self).pairs@[group as int], lp.number_of_calls_to_action as nat)
            } else {
                &&& r == Err::<(), ListicleNotice>(ListicleNotice::PairNotFound)
                &&& final(self).pairs == old(self).pairs
            },
    {
        if group >= self.pairs.len() {
            return Err(ListicleNotice::PairNotFound);
        }
        let n = lp.number_of_calls_to_action;
        let mut offers: Vec<Option<Offer>> = Vec::new();
        let mut k: u8 = 0;
        while k < n
            invariant
                k <= n,
                offers@.len() == k,
                forall|j: int| 0 <= j < k ==> #[trigger] offers@[j] is None,
            decreases n - k,
        {
            offers.push(None);
            k = k + 1;
        }
        self.pairs[group].landing_page = Some(lp);
        self.pairs[group].offer = offers;
        Ok(())
    }

    /// Puts `offer` into offer slot `index` of landing page slot `group`.
    pub fn select_offer(&mut self, group: usize, index: usize, offer: Offer) -> (r: Result<(), ListicleNotice>)
        ensures
            final(self).pre_landing_page == old(self).pre_landing_page,
            match r {
                Ok(_) => {
                    &&& group < old(self).pairs@.len()
                    &&& index < old(self).pairs@[group as int].offer@.len()
                    &&& final(self).pairs@ == old(self).pairs@.update(
                        group as int,
                        final(self).pairs@[group as int],
                    )
                    &&& final(self).pairs@[group as int].landing_page == old(self).pairs@[group as int].landing_page
                    &&& final(self).pairs@[group as int].offer@ == old(self).pairs@[group as int].offer@.update(
                        index as int,
                        Some(offer),
                    )
                },
                Err(e) => {
                    &&& final(self).pairs == old(self).pairs
                    &&& e == (if group < old(self).pairs@.len() {
                        ListicleNotice::OfferNotFound
                    } else {
                        ListicleNotice::PairNotFound
                    })
                    &&& (group < old(self).pairs@.len() ==> index >= old(self).pairs@[group as int].offer@.len())
                },
            },
    {
        if group >= self.pairs.len() {
            return Err(ListicleNotice::PairNotFound);
        }
        if index >= self.pairs[group].offer.len() {
            return Err(ListicleNotice::OfferNotFound);
        }
        self.pairs[group].offer[index] = Some(offer);
        Ok(())
    }

    /// Empties offer slot `index` of landing page slot `group`.
    pub fn remove_offer(&mut self, group: usize, index: usize) -> (r: Result<(), ListicleNotice>)
        ensures
            final(self).pre_landing_page == old(self).pre_landing_page,
            match r {
                Ok(_) => {
                    &&& group < old(self).pairs@.len()
                    &&& index < old(self).pairs@[group as int].offer@.len()
                    &&& final(self).pairs@ == old(self).pairs@.update(
                        group as int,
                        final(self).pairs@[group as int],
                    )
                    &&& final(self).pairs@[group as int].landing_page == old(self).pairs@[group as int].landing_page
                    &&& final(self).pairs@[group as int].offer@ == old(self).pairs@[group as int].offer@.update(
                        index as int,
                        None,
                    )
                },
                Err(e) => {
                    &&& final(self).pairs == old(self).pairs
                    &&& e == (if group < old(self).pairs@.len() {
                        ListicleNotice::OfferNotFound
                    } else {
                        ListicleNotice::PairNotFound
                    })
                    &&& (group < old(self).pairs@.len() ==> index >= old(self).pairs@[group as int].offer@.len())
                },
            },
    {
        if group >= self.pairs.len() {
            return Err(ListicleNotice::PairNotFound);
        }
        if index >= self.pairs[group].offer.len() {
            return Err(ListicleNotice::OfferNotFound);
        }
        self.pairs[group].offer[index] = None;
        Ok(())
    }

    /// Saves the listicle into `active_sequence` once every slot is filled:
    /// the sequence's pre-landing page and pairs become the builder's.
    pub fn submit(&self, active_sequence: Sequence) -> (r: Result<Sequence, ListicleNotice>)
        ensures
            match r {
                Ok(s) => {
                    &&& self.spec_all_fields_filled_out()
                    &&& s.pre_landing_page == self.pre_landing_page
                    &&& s.listicle_pairs@.len() == self.pairs@.len()
                    &&& forall|g: int|
                        0 <= g < self.pairs@.len() ==> converted(
                            self.pairs@[g],
                            #[trigger] s.listicle_pairs@[g],
                        )
                    &&& s == (Sequence {
                        pre_landing_page: s.pre_landing_page,
                        listicle_pairs: s.listicle_pairs,
                        ..active_sequence
                    })
                },
                Err(e) => {
                    &&& !self.spec_all_fields_filled_out()
                    &&& e == ListicleNotice::FieldsMissing
                },
            },
    {
        if !self.all_fields_filled_out() {
            return Err(ListicleNotice::FieldsMissing);
        }
        let pre = match &self.pre_landing_page {
            Some(p) => Some(p.duplicate()),
            None => None,
        };
        let mut out: Vec<ListiclePair> = Vec::new();
        let mut g: usize = 0;
        while g < self.pairs.len()
            invariant
                self.spec_all_fields_filled_out(),
                g <= self.pairs@.len(),
                out@.len() == g,
                forall|h: int| 0 <= h < g ==> converted(self.pairs@[h], #[trigger] out@[h]),
            decreases self.pairs@.len() - g,
        {
            let pair = &self.pairs[g];
            assert(pair.landing_page is Some);
            let lp = pair.landing_page.as_ref().unwrap().duplicate();
            let mut offers: Vec<Offer> = Vec::new();
            let mut k: usize = 0;
            while k < pair.offer.len()
                invariant
                    self.spec_all_fields_filled_out(),
                    g < self.pairs@.len(),
                    *pair == self.pairs@[g as int],
                    k <= pair.offer@.len(),
                    offers@.len() == k,
                    forall|j: int| 0 <= j < k ==> pair.offer@[j] == Some(#[trigger] offers@[j]),
                decreases pair.offer@.len() - k,
            {
                assert(self.pairs@[g as int].offer@[k as int] is Some);
                offers.push(pair.offer[k].as_ref().unwrap().duplicate());
                k = k + 1;
            }
            out.push(ListiclePair { landing_page: lp, offers });
            g = g + 1;
        }
        Ok(Sequence { pre_landing_page: pre, listicle_pairs: out, ..active_sequence })
    }
}

/// A saved listicle loaded into the builder (see `MatrixBuilder::change`) is
/// complete exactly when it has a pre-landing page, and saving it (see
/// `MatrixBuilder::submit`) gives back the pairs it was loaded from.
pub proof fn lemma_loaded_listicle_saves_back(
    b: MatrixBuilder,
    pairs: Seq<ListiclePair>,
    saved: Seq<ListiclePair>,
)
    requires
        b.pairs@.len() == pairs.len(),
        forall|g: int| 0 <= g < pairs.len() ==> converted(#[trigger] b.pairs@[g], pairs[g]),
        saved.len() == pairs.len(),
        forall|g: int| 0 <= g < pairs.len() ==> converted(b.pairs@[g], #[trigger] saved[g]),
    ensures
        b.spec_all_fields_filled_out() == (b.pre_landing_page is Some),
        forall|g: int|
            0 <= g < pairs.len() ==> (#[trigger] saved[g]).landing_page == pairs[g].landing_page
                && saved[g].offers@ == pairs[g].offers@,
{
    assert forall|g: int| 0 <= g < b.pairs@.len() implies #[trigger] b.pairs@[g].landing_page is Some by {
        assert(converted(b.pairs@[g], pairs[g]));
    }
    assert forall|g: int, k: int|
        0 <= g < b.pairs@.len() && 0 <= k < b.pairs@[g].offer@.len() implies #[trigger] b.pairs@[g].offer@[k] is Some by {
        assert(converted(b.pairs@[g], pairs[g]));
        assert(b.pairs@[g].offer@[k] == Some(pairs[g].offers@[k]));
    }
    assert forall|g: int| 0 <= g < pairs.len() implies (#[trigger] saved[g]).landing_page
        == pairs[g].landing_page && saved[g].offers@ == pairs[g].offers@ by {
        assert(converted(b.pairs@[g], pairs[g]));
        assert(converted(b.pairs@[g], saved[g]));
        assert forall|k: int| 0 <= k < saved[g].offers@.len() implies saved[g].offers@[k]
            == pairs[g].offers@[k] by {
            assert(b.pairs@[g].offer@[k] == Some(saved[g].offers@[k]));
            assert(b.pairs@[g].offer@[k] == Some(pairs[g].offers@[k]));
        }
        assert(saved[g].offers@ =~= pairs[g].offers@);
    }
}


/// One empty slot anywhere keeps the listicle from being saved: a missing
/// pre-landing page, a missing landing page of a pair, or a missing offer
/// of a pair.
pub proof fn lemma_empty_slot_blocks_save(b: MatrixBuilder, g: int, k: int)
    ensures
        b.pre_landing_page is None ==> !b.spec_all_fields_filled_out(),
        0 <= g < b.pairs@.len() && b.pairs@[g].landing_page is None ==> !b.spec_all_fields_filled_out(),
        0 <= g < b.pairs@.len() && 0 <= k < b.pairs@[g].offer@.len() && b.pairs@[g].offer@[k] is None
            ==> !b.spec_all_fields_filled_out(),
{
}

} // verus!
