//! The funnel editor: conditional sequences (each with its conditions and
//! sequences) and default sequences, and the element selected for editing.

use vstd::prelude::*;
use crate::condition_view::Condition;
use crate::model::{
    Clearance, Country, ModalType, RedirectOption, ReferrerHandling, Sequence, SequenceType,
    WeightedLandingPage, WeightedOffer,
};
use crate::outside::{new_uuid, now_millis};
use crate::seqs::{first_index, lemma_first_index_is};

verus! {

/// A set of sequences used for the visitors who meet its conditions.
#[derive(Debug)]
pub struct ConditionalSequence {
    pub id: u128,
    pub name: String,
    pub condition_set: Vec<Condition>,
    pub sequences: Vec<Sequence>,
    pub conditional_sequence_is_active: bool,
}

/// The element of a funnel selected for editing.
#[derive(Clone, Copy, Debug, PartialEq, Eq, Structural)]
pub enum ActiveElement {
    /// The funnel itself.
    Funnel,
    /// A conditional sequence, or one of its sequences.
    ConditionalSequence(u128, Option<u128>),
    /// A default sequence.
    DefaultSequence(u128),
}

/// What a funnel edit reports to the user.
#[derive(Clone, Copy, Debug, PartialEq, Eq, Structural)]
pub enum FunnelNotice {
    /// No default sequence has the selected id.
    SequenceNotFound,
    /// The selected conditional sequence has no sequence with the selected id.
    SequenceNotInConditionalSequence,
    /// No conditional sequence has the selected id.
    ConditionalSequenceNotFound,
    /// No sequence is selected.
    ActiveSequenceMissing,
    /// The typed weight is not a number from 0 to 255.
    InvalidWeight,
}

/// The ids of sequences, in order.
pub open spec fn seq_ids(s: Seq<Sequence>) -> Seq<u128> {
    s.map_values(|x: Sequence| x.id)
}

/// The ids of conditional sequences, in order.
pub open spec fn cond_ids(s: Seq<ConditionalSequence>) -> Seq<u128> {
    s.map_values(|x: ConditionalSequence| x.id)
}

/// The position of the first sequence with id `id`.
pub open spec fn seq_pos(s: Seq<Sequence>, id: u128) -> Option<int> {
    first_index(seq_ids(s), id)
}

/// The position of the first conditional sequence with id `id`.
pub open spec fn cond_pos(s: Seq<ConditionalSequence>, id: u128) -> Option<int> {
    first_index(cond_ids(s), id)
}

/// `s` without the sequences with id `id`.
pub open spec fn without_seq(s: Seq<Sequence>, id: u128) -> Seq<Sequence>
    decreases s.len(),
{
    if s.len() == 0 {
        s
    } else {
        let r = without_seq(s.drop_last(), id);
        if s.last().id == id {
            r
        } else {
            r.push(s.last())
        }
    }
}

/// `s` without the conditional sequences with id `id`.
pub open spec fn without_cond(s: Seq<ConditionalSequence>, id: u128) -> Seq<ConditionalSequence>
    decreases s.len(),
{
    if s.len() == 0 {
        s
    } else {
        let r = without_cond(s.drop_last(), id);
        if s.last().id == id {
            r
        } else {
            r.push(s.last())
        }
    }
}

/// `new` is `old` with the sequences of the conditional sequence at `i`
/// replaced by `seqs`, all else kept.
pub open spec fn cond_seqs_replaced(
    old: Seq<ConditionalSequence>,
    new: Seq<ConditionalSequence>,
    i: int,
    seqs: Seq<Sequence>,
) -> bool {
    &&& 0 <= i < old.len()
    &&& new.len() == old.len()
    &&& forall|k: int| 0 <= k < old.len() && k != i ==> new[k] == old[k]
    &&& new[i].id == old[i].id
    &&& new[i].name == old[i].name
    &&& new[i].condition_set == old[i].condition_set
    &&& new[i].conditional_sequence_is_active == old[i].conditional_sequence_is_active
    &&& new[i].sequences@ == seqs
}

/// `s` is a new sequence with id `id` and name `name`: weight 100, offers
/// only, redirecting, referrer left alone, active, and nothing picked yet.
pub open spec fn is_fresh_sequence(s: Sequence, id: u128, name: Seq<char>) -> bool {
    &&& s.id == id
    &&& s.name@ == name
    &&& s.weight == 100
    &&& s.sequence_type == SequenceType::OffersOnly
    &&& s.redirect_option == RedirectOption::Redirect
    &&& s.referrer_handling is DoNothing
    &&& s.pre_landing_page is None
    &&& s.listicle_pairs@.len() == 0
    &&& s.landing_pages@.len() == 0
    &&& s.offers@.len() == 0
    &&& !s.weight_optimization_active
    &&& s.sequence_is_active
}

/// `c` is a new, active conditional sequence with id `id`, without
/// conditions or sequences.
pub open spec fn is_fresh_conditional_sequence(c: ConditionalSequence, id: u128) -> bool {
    &&& c.id == id
    &&& c.name@ == "New Conditional Sequence"@
    &&& c.condition_set@.len() == 0
    &&& c.sequences@.len() == 0
    &&& c.conditional_sequence_is_active
}

/// A new sequence with id `id` and name `name`.
pub fn fresh_sequence(id: u128, name: &str) -> (s: Sequence)
    ensures
        is_fresh_sequence(s, id, name@),
{
    Sequence {
        id,
        name: String::from_str(name),
        weight: 100,
        sequence_type: SequenceType::OffersOnly,
        redirect_option: RedirectOption::Redirect,
        referrer_handling: ReferrerHandling::DoNothing,
        pre_landing_page: None,
        listicle_pairs: Vec::new(),
        landing_pages: Vec::new(),
        offers: Vec::new(),
        weight_optimization_active: false,
        sequence_is_active: true,
    }
}

/// The position of the first sequence with id `id` in `v`.
pub fn find_sequence(v: &Vec<Sequence>, id: u128) -> (r: Option<usize>)
    ensures
        match r {
            Some(i) => seq_pos(v@, id) == Some(i as int),
            None => seq_pos(v@, id) is None,
        },
{
    let ghost ids = seq_ids(v@);
    let mut i: usize = 0;
    while i < v.len()
        invariant
            i <= v.len(),
            ids == seq_ids(v@),
            forall|j: int| 0 <= j < i ==> ids[j] != id,
        decreases v.len() - i,
    {
        if v[i].id == id {
            proof {
                lemma_first_index_is(ids, id, i as int);
            }
            return Some(i);
        }
        i = i + 1;
    }
    None
}

/// The position of the first conditional sequence with id `id` in `v`.
pub fn find_conditional_sequence(v: &Vec<ConditionalSequence>, id: u128) -> (r: Option<usize>)
    ensures
        match r {
            Some(i) => cond_pos(v@, id) == Some(i as int),
            None => cond_pos(v@, id) is None,
        },
{
    let ghost ids = cond_ids(v@);
    let mut i: usize = 0;
    while i < v.len()
        invariant
            i <= v.len(),
            ids == cond_ids(v@),
            forall|j: int| 0 <= j < i ==> ids[j] != id,
        decreases v.len() - i,
    {
        if v[i].id == id {
            proof {
                lemma_first_index_is(ids, id, i as int);
            }
            return Some(i);
        }
        i = i + 1;
    }
    None
}

/// `v` without the sequences with id `id`, in order.
pub fn remove_sequences(v: Vec<Sequence>, id: u128) -> (r: Vec<Sequence>)
    ensures
        r@ == without_seq(v@, id),
{
    let ghost orig = v@;
    let n = v.len();
    let mut rest = v;
    let mut out: Vec<Sequence> = Vec::new();
    let mut k: usize = 0;
    assert(orig.subrange(0, 0) =~= Seq::<Sequence>::empty());
    while rest.len() > 0
        invariant
            k + rest.len() == orig.len(),
            orig.len() == n,
            rest@ == orig.subrange(k as int, orig.len() as int),
            out@ == without_seq(orig.subrange(0, k as int), id),
        decreases rest.len(),
    {
        let x = rest.remove(0);
        assert(orig.subrange(0, k + 1).drop_last() =~= orig.subrange(0, k as int));
        assert(orig.subrange(0, k + 1).last() == x);
        if x.id != id {
            out.push(x);
        }
        k = k + 1;
        assert(rest@ =~= orig.subrange(k as int, orig.len() as int));
    }
    assert(orig.subrange(0, k as int) =~= orig);
    out
}

/// `v` without the conditional sequences with id `id`, in order.
pub fn remove_conditional_sequences(v: Vec<ConditionalSequence>, id: u128) -> (r: Vec<
    ConditionalSequence,
>)
    ensures
        r@ == without_cond(v@, id),
{
    let ghost orig = v@;
    let n = v.len();
    let mut rest = v;
    let mut out: Vec<ConditionalSequence> = Vec::new();
    let mut k: usize = 0;
    assert(orig.subrange(0, 0) =~= Seq::<ConditionalSequence>::empty());
    while rest.len() > 0
        invariant
            k + rest.len() == orig.len(),
            orig.len() == n,
            rest@ == orig.subrange(k as int, orig.len() as int),
            out@ == without_cond(orig.subrange(0, k as int), id),
        decreases rest.len(),
    {
        let x = rest.remove(0);
        assert(orig.subrange(0, k + 1).drop_last() =~= orig.subrange(0, k as int));
        assert(orig.subrange(0, k + 1).last() == x);
        if x.id != id {
            out.push(x);
        }
        k = k + 1;
        assert(rest@ =~= orig.subrange(k as int, orig.len() as int));
    }
    assert(orig.subrange(0, k as int) =~= orig);
    out
}


/// The state of the funnel editor.
#[derive(Debug)]
pub struct CRUDFunnel {
    pub funnel_name: String,
    pub country: Country,
    pub default_referrer_handling: ReferrerHandling,
    pub conditional_sequences: Vec<ConditionalSequence>,
    pub default_sequences: Vec<Sequence>,
    pub notes: String,
    pub active_element: ActiveElement,
}

/// A saved funnel, as far as the editor reads it back.
#[derive(Debug)]
pub struct FunnelRecord {
    pub funnel_id: u128,
    pub name: String,
    pub country: Country,
    pub referrer_handling: ReferrerHandling,
    pub notes: String,
    pub conditional_sequences: Vec<ConditionalSequence>,
    pub default_sequences: Vec<Sequence>,
}

impl CRUDFunnel {
    /// `b` differs from `self` at most in its default sequences.
    pub open spec fn same_but_defaults(self, b: CRUDFunnel) -> bool {
        &&& b.funnel_name == self.funnel_name
        &&& b.country == self.country
        &&& b.default_referrer_handling == self.default_referrer_handling
        &&& b.conditional_sequences == self.conditional_sequences
        &&& b.notes == self.notes
        &&& b.active_element == self.active_element
    }

    /// `b` differs from `self` at most in its conditional sequences.
    pub open spec fn same_but_conditionals(self, b: CRUDFunnel) -> bool {
        &&& b.funnel_name == self.funnel_name
        &&& b.country == self.country
        &&& b.default_referrer_handling == self.default_referrer_handling
        &&& b.default_sequences == self.default_sequences
        &&& b.notes == self.notes
        &&& b.active_element == self.active_element
    }

    /// `b` differs from `self` at most in its sequences and selected element.
    pub open spec fn same_but_sequences_and_selection(self, b: CRUDFunnel) -> bool {
        &&& b.funnel_name == self.funnel_name
        &&& b.country == self.country
        &&& b.default_referrer_handling == self.default_referrer_handling
        &&& b.notes == self.notes
    }

    /// Where the sequence that `target` selects stands: `(None, j)` for the
    /// default sequence at `j`, `(Some(i), j)` for sequence `j` of conditional
    /// sequence `i`; `None` when `target` selects no sequence or no sequence
    /// has the selected ids. The first match by id is taken.
    pub open spec fn selected_seq(self, target: ActiveElement) -> Option<(Option<int>, int)> {
        match target {
            ActiveElement::DefaultSequence(sid) => match seq_pos(self.default_sequences@, sid) {
                Some(j) => Some((None, j)),
                None => None,
            },
            ActiveElement::ConditionalSequence(c, Some(sid)) => match cond_pos(
                self.conditional_sequences@,
                c,
            ) {
                Some(i) => match seq_pos(self.conditional_sequences@[i].sequences@, sid) {
                    Some(j) => Some((Some(i), j)),
                    None => None,
                },
                None => None,
            },
            _ => None,
        }
    }

    /// The sequence that `target` selects, if any.
    pub open spec fn selected_sequence(self, target: ActiveElement) -> Option<Sequence> {
        match self.selected_seq(target) {
            Some((None, j)) => Some(self.default_sequences@[j]),
            Some((Some(i), j)) => Some(self.conditional_sequences@[i].sequences@[j]),
            None => None,
        }
    }

    /// `b` is `self` with the sequence that `target` selects replaced by `s`;
    /// with no such sequence, `b` is `self`.
    pub open spec fn with_selected(self, b: CRUDFunnel, target: ActiveElement, s: Sequence) -> bool {
        &&& self.same_but_sequences_and_selection(b)
        &&& b.active_element == self.active_element
        &&& match self.selected_seq(target) {
            Some((None, j)) => {
                &&& b.default_sequences@ == self.default_sequences@.update(j, s)
                &&& b.conditional_sequences == self.conditional_sequences
            },
            Some((Some(i), j)) => {
                &&& b.default_sequences == self.default_sequences
                &&& cond_seqs_replaced(
                    self.conditional_sequences@,
                    b.conditional_sequences@,
                    i,
                    self.conditional_sequences@[i].sequences@.update(j, s),
                )
            },
            None => {
                &&& b.default_sequences == self.default_sequences
                &&& b.conditional_sequences == self.conditional_sequences
            },
        }
    }

    /// Finds the sequence that `target` selects (see `selected_seq`).
    pub fn locate(&self, target: ActiveElement) -> (r: Option<(Option<usize>, usize)>)
        ensures
            match r {
                Some((None, j)) => self.selected_seq(target) == Some((None::<int>, j as int)),
                Some((Some(i), j)) => self.selected_seq(target) == Some(
                    (Some(i as int), j as int),
                ),
                None => self.selected_seq(target) is None,
            },
            r matches Some((Some(i), j)) ==> i < self.conditional_sequences@.len() && j
                < self.conditional_sequences@[i as int].sequences@.len(),
            r matches Some((None, j)) ==> j < self.default_sequences@.len(),
    {
        match target {
            ActiveElement::DefaultSequence(sid) => match find_sequence(&self.default_sequences, sid) {
                Some(j) => Some((None, j)),
                None => None,
            },
            ActiveElement::ConditionalSequence(c, Some(sid)) => match find_conditional_sequence(
                &self.conditional_sequences,
                c,
            ) {
                Some(i) => match find_sequence(&self.conditional_sequences[i].sequences, sid) {
                    Some(j) => Some((Some(i), j)),
                    None => None,
                },
                None => None,
            },
            _ => None,
        }
    }

    /// Sets the weight of the selected sequence.
    pub fn update_weight(&mut self, weight: u8)
        ensures
            match old(self).selected_sequence(old(self).active_element) {
                Some(s) => old(self).with_selected(
                    *final(self),
                    old(self).active_element,
                    Sequence { weight, ..s },
                ),
                None => *final(self) == *old(self),
            },
    {
        let ghost before = *self;
        match self.locate(self.active_element) {
            Some((None, j)) => {
                self.default_sequences[j].weight = weight;
                assert(self.default_sequences@ =~= before.default_sequences@.update(
                    j as int,
                    Sequence { weight, ..before.default_sequences@[j as int] },
                ));
            },
            Some((Some(i), j)) => {
                self.conditional_sequences[i].sequences[j].weight = weight;
                assert(self.conditional_sequences@[i as int].sequences@ =~= before.conditional_sequences@[i as int].sequences@.update(
                    j as int,
                    Sequence { weight, ..before.conditional_sequences@[i as int].sequences@[j as int] },
                ));
            },
            None => {},
        }
    }


    /// Sets the type of the selected sequence.
    pub fn update_sequence_type(&mut self, sequence_type: SequenceType)
        ensures
            match old(self).selected_sequence(old(self).active_element) {
                Some(s) => old(self).with_selected(
                    *final(self),
                    old(self).active_element,
                    Sequence { sequence_type: sequence_type, ..s },
                ),
                None => *final(self) == *old(self),
            },
    {
        let ghost before = *self;
        match self.locate(self.active_element) {
            Some((None, j)) => {
                self.default_sequences[j].sequence_type = sequence_type;
                assert(self.default_sequences@ =~= before.default_sequences@.update(
                    j as int,
                    Sequence { sequence_type: sequence_type, ..before.default_sequences@[j as int] },
                ));
            },
            Some((Some(i), j)) => {
                self.conditional_sequences[i].sequences[j].sequence_type = sequence_type;
                assert(self.conditional_sequences@[i as int].sequences@ =~= before.conditional_sequences@[i as int].sequences@.update(
                    j as int,
                    Sequence { sequence_type: sequence_type, ..before.conditional_sequences@[i as int].sequences@[j as int] },
                ));
            },
            None => {},
        }
    }

    /// Sets the offers of the selected sequence.
    fn set_selected_offers_unchecked(&mut self, offers: Vec<Vec<WeightedOffer>>)
        ensures
            match old(self).selected_sequence(old(self).active_element) {
                Some(s) => old(self).with_selected(
                    *final(self),
                    old(self).active_element,
                    Sequence { offers: offers, ..s },
                ),
                None => *final(self) == *old(self),
            },
    {
        let ghost before = *self;
        match self.locate(self.active_element) {
            Some((None, j)) => {
                self.default_sequences[j].offers = offers;
                assert(self.default_sequences@ =~= before.default_sequences@.update(
                    j as int,
                    Sequence { offers: offers, ..before.default_sequences@[j as int] },
                ));
            },
            Some((Some(i), j)) => {
                self.conditional_sequences[i].sequences[j].offers = offers;
                assert(self.conditional_sequences@[i as int].sequences@ =~= before.conditional_sequences@[i as int].sequences@.update(
                    j as int,
                    Sequence { offers: offers, ..before.conditional_sequences@[i as int].sequences@[j as int] },
                ));
            },
            None => {},
        }
    }

    /// Sets the landing pages of the selected sequence.
    fn set_selected_landing_pages_unchecked(&mut self, landing_pages: Vec<WeightedLandingPage>)
        ensures
            match old(self).selected_sequence(old(self).active_element) {
                Some(s) => old(self).with_selected(
                    *final(self),
                    old(self).active_element,
                    Sequence { landing_pages: landing_pages, ..s },
                ),
                None => *final(self) == *old(self),
            },
    {
        let ghost before = *self;
        match self.locate(self.active_element) {
            Some((None, j)) => {
                self.default_sequences[j].landing_pages = landing_pages;
                assert(self.default_sequences@ =~= before.default_sequences@.update(
                    j as int,
                    Sequence { landing_pages: landing_pages, ..before.default_sequences@[j as int] },
                ));
            },
            Some((Some(i), j)) => {
                self.conditional_sequences[i].sequences[j].landing_pages = landing_pages;
                assert(self.conditional_sequences@[i as int].sequences@ =~= before.conditional_sequences@[i as int].sequences@.update(
                    j as int,
                    Sequence { landing_pages: landing_pages, ..before.conditional_sequences@[i as int].sequences@[j as int] },
                ));
            },
            None => {},
        }
    }

    /// Sets the referrer handling of the funnel (when the funnel itself is
    /// selected) or of the selected sequence.
    pub fn update_referrer_handling(&mut self, referrer_handling: ReferrerHandling)
        ensures
            match old(self).active_element {
                ActiveElement::Funnel => *final(self) == (CRUDFunnel {
                    default_referrer_handling: referrer_handling,
                    ..*old(self)
                }),
                _ => match old(self).selected_sequence(old(self).active_element) {
                    Some(s) => old(self).with_selected(
                        *final(self),
                        old(self).active_element,
                        Sequence { referrer_handling, ..s },
                    ),
                    None => *final(self) == *old(self),
                },
            },
    {
        let ghost before = *self;
        if let ActiveElement::Funnel = self.active_element {
            self.default_referrer_handling = referrer_handling;
            return;
        }
        match self.locate(self.active_element) {
            Some((None, j)) => {
                self.default_sequences[j].referrer_handling = referrer_handling;
                assert(self.default_sequences@ =~= before.default_sequences@.update(
                    j as int,
                    Sequence { referrer_handling, ..before.default_sequences@[j as int] },
                ));
            },
            Some((Some(i), j)) => {
                self.conditional_sequences[i].sequences[j].referrer_handling = referrer_handling;
                assert(self.conditional_sequences@[i as int].sequences@ =~= before.conditional_sequences@[i as int].sequences@.update(
                    j as int,
                    Sequence {
                        referrer_handling,
                        ..before.conditional_sequences@[i as int].sequences@[j as int]
                    },
                ));
            },
            None => {},
        }
    }

    /// Renames the selected element: the funnel, a conditional sequence or a
    /// sequence.
    pub fn update_name(&mut self, name: String)
        ensures
            match old(self).active_element {
                ActiveElement::Funnel => *final(self) == (CRUDFunnel {
                    funnel_name: name,
                    ..*old(self)
                }),
                ActiveElement::ConditionalSequence(c, None) => {
                    &&& old(self).same_but_conditionals(*final(self))
                    &&& match cond_pos(old(self).conditional_sequences@, c) {
                        Some(i) => final(self).conditional_sequences@ == old(
                            self,
                        ).conditional_sequences@.update(
                            i,
                            ConditionalSequence { name, ..old(self).conditional_sequences@[i] },
                        ),
                        None => final(self).conditional_sequences == old(self).conditional_sequences,
                    }
                },
                _ => match old(self).selected_sequence(old(self).active_element) {
                    Some(s) => old(self).with_selected(
                        *final(self),
                        old(self).active_element,
                        Sequence { name, ..s },
                    ),
                    None => *final(self) == *old(self),
                },
            },
    {
        let ghost before = *self;
        match self.active_element {
            ActiveElement::Funnel => {
                self.funnel_name = name;
                return;
            },
            ActiveElement::ConditionalSequence(c, None) => {
                if let Some(i) = find_conditional_sequence(&self.conditional_sequences, c) {
                    self.conditional_sequences[i].name = name;
                    assert(self.conditional_sequences@ =~= before.conditional_sequences@.update(
                        i as int,
                        ConditionalSequence { name, ..before.conditional_sequences@[i as int] },
                    ));
                }
                return;
            },
            _ => {},
        }
        match self.locate(self.active_element) {
            Some((None, j)) => {
                self.default_sequences[j].name = name;
                assert(self.default_sequences@ =~= before.default_sequences@.update(
                    j as int,
                    Sequence { name, ..before.default_sequences@[j as int] },
                ));
            },
            Some((Some(i), j)) => {
                self.conditional_sequences[i].sequences[j].name = name;
                assert(self.conditional_sequences@[i as int].sequences@ =~= before.conditional_sequences@[i as int].sequences@.update(
                    j as int,
                    Sequence { name, ..before.conditional_sequences@[i as int].sequences@[j as int] },
                ));
            },
            None => {},
        }
    }

    /// Sets the offers of the selected sequence; reports when no sequence is
    /// selected.
    pub fn set_selected_offers(&mut self, offers: Vec<Vec<WeightedOffer>>) -> (r: Result<(), FunnelNotice>)
        ensures
            match old(self).selected_sequence(old(self).active_element) {
                Some(s) => {
                    &&& r is Ok
                    &&& old(self).with_selected(
                        *final(self),
                        old(self).active_element,
                        Sequence { offers, ..s },
                    )
                },
                None => {
                    &&& r == Err::<(), FunnelNotice>(FunnelNotice::ActiveSequenceMissing)
                    &&& *final(self) == *old(self)
                },
            },
    {
        if self.locate(self.active_element).is_none() {
            return Err(FunnelNotice::ActiveSequenceMissing);
        }
        self.set_selected_offers_unchecked(offers);
        Ok(())
    }

    /// Sets the landing pages of the selected sequence; reports when no
    /// sequence is selected.
    pub fn set_selected_landing_pages(&mut self, landing_pages: Vec<WeightedLandingPage>) -> (r:
        Result<(), FunnelNotice>)
        ensures
            match old(self).selected_sequence(old(self).active_element) {
                Some(s) => {
                    &&& r is Ok
                    &&& old(self).with_selected(
                        *final(self),
                        old(self).active_element,
                        Sequence { landing_pages, ..s },
                    )
                },
                None => {
                    &&& r == Err::<(), FunnelNotice>(FunnelNotice::ActiveSequenceMissing)
                    &&& *final(self) == *old(self)
                },
            },
    {
        if self.locate(self.active_element).is_none() {
            return Err(FunnelNotice::ActiveSequenceMissing);
        }
        self.set_selected_landing_pages_unchecked(landing_pages);
        Ok(())
    }

    /// The sequence that the editor has selected, if any.
    pub fn active_sequence(&self) -> (r: Option<&Sequence>)
        ensures
            match self.selected_sequence(self.active_element) {
                Some(s) => r == Some(&s),
                None => r is None,
            },
    {
        match self.locate(self.active_element) {
            Some((None, j)) => Some(&self.default_sequences[j]),
            Some((Some(i), j)) => Some(&self.conditional_sequences[i].sequences[j]),
            None => None,
        }
    }

    /// `b` is `self` with the target switched on or off (see
    /// `toggle_sequence_active`).
    pub open spec fn toggled_under(self, b: CRUDFunnel, target: ActiveElement) -> bool {
        match target {
            ActiveElement::ConditionalSequence(c, None) => {
                &&& self.same_but_conditionals(b)
                &&& match cond_pos(self.conditional_sequences@, c) {
                    Some(i) => b.conditional_sequences@ == self.conditional_sequences@.update(
                        i,
                        ConditionalSequence {
                            conditional_sequence_is_active: !self.conditional_sequences@[i].conditional_sequence_is_active,
                            ..self.conditional_sequences@[i]
                        },
                    ),
                    None => b.conditional_sequences == self.conditional_sequences,
                }
            },
            _ => match self.selected_sequence(target) {
                Some(s) => self.with_selected(
                    b,
                    target,
                    Sequence { sequence_is_active: !s.sequence_is_active, ..s },
                ),
                None => b == self,
            },
        }
    }

    /// Switches the target on or off: a conditional sequence, or a sequence.
    pub fn toggle_sequence_active(&mut self, target: ActiveElement)
        ensures
            old(self).toggled_under(*final(self), target),
    {
        let ghost before = *self;
        if let ActiveElement::ConditionalSequence(c, None) = target {
            if let Some(i) = find_conditional_sequence(&self.conditional_sequences, c) {
                let flipped = !self.conditional_sequences[i].conditional_sequence_is_active;
                self.conditional_sequences[i].conditional_sequence_is_active = flipped;
                assert(self.conditional_sequences@ =~= before.conditional_sequences@.update(
                    i as int,
                    ConditionalSequence {
                        conditional_sequence_is_active: flipped,
                        ..before.conditional_sequences@[i as int]
                    },
                ));
            }
            return;
        }
        match self.locate(target) {
            Some((None, j)) => {
                let flipped = !self.default_sequences[j].sequence_is_active;
                self.default_sequences[j].sequence_is_active = flipped;
                assert(self.default_sequences@ =~= before.default_sequences@.update(
                    j as int,
                    Sequence { sequence_is_active: flipped, ..before.default_sequences@[j as int] },
                ));
            },
            Some((Some(i), j)) => {
                let flipped = !self.conditional_sequences[i].sequences[j].sequence_is_active;
                self.conditional_sequences[i].sequences[j].sequence_is_active = flipped;
                assert(self.conditional_sequences@[i as int].sequences@ =~= before.conditional_sequences@[i as int].sequences@.update(
                    j as int,
                    Sequence {
                        sequence_is_active: flipped,
                        ..before.conditional_sequences@[i as int].sequences@[j as int]
                    },
                ));
            },
            None => {},
        }
    }

    /// Removes the target: every conditional sequence with its id, every
    /// sequence with its id from the first conditional sequence with the
    /// parent id, or every default sequence with its id.
    pub fn remove_sequence(&mut self, target: ActiveElement)
        ensures
            old(self).same_but_sequences_and_selection(*final(self)),
            final(self).active_element == old(self).active_element,
            match target {
                ActiveElement::ConditionalSequence(c, None) => {
                    &&& final(self).conditional_sequences@ == without_cond(
                        old(self).conditional_sequences@,
                        c,
                    )
                    &&& final(self).default_sequences == old(self).default_sequences
                },
                ActiveElement::ConditionalSequence(c, Some(sid)) => {
                    &&& final(self).default_sequences == old(self).default_sequences
                    &&& match cond_pos(old(self).conditional_sequences@, c) {
                        Some(i) => cond_seqs_replaced(
                            old(self).conditional_sequences@,
                            final(self).conditional_sequences@,
                            i,
                            without_seq(old(self).conditional_sequences@[i].sequences@, sid),
                        ),
                        None => final(self).conditional_sequences == old(self).conditional_sequences,
                    }
                },
                ActiveElement::DefaultSequence(sid) => {
                    &&& final(self).default_sequences@ == without_seq(
                        old(self).default_sequences@,
                        sid,
                    )
                    &&& final(self).conditional_sequences == old(self).conditional_sequences
                },
                ActiveElement::Funnel => *final(self) == *old(self),
            },
    {
        match target {
            ActiveElement::ConditionalSequence(c, None) => {
                let mut all: Vec<ConditionalSequence> = Vec::new();
                std::mem::swap(&mut all, &mut self.conditional_sequences);
                self.conditional_sequences = remove_conditional_sequences(all, c);
            },
            ActiveElement::ConditionalSequence(c, Some(sid)) => {
                if let Some(i) = find_conditional_sequence(&self.conditional_sequences, c) {
                    let ghost before = self.conditional_sequences@;
                    let mut seqs: Vec<Sequence> = Vec::new();
                    std::mem::swap(&mut seqs, &mut self.conditional_sequences[i].sequences);
                    assert(seqs@ == before[i as int].sequences@);
                    self.conditional_sequences[i].sequences = remove_sequences(seqs, sid);
                }
            },
            ActiveElement::DefaultSequence(sid) => {
                let mut all: Vec<Sequence> = Vec::new();
                std::mem::swap(&mut all, &mut self.default_sequences);
                self.default_sequences = remove_sequences(all, sid);
            },
            ActiveElement::Funnel => {},
        }
    }

    /// Puts `sequence` in place of the selected sequence (found by id), and
    /// reports what could not be found.
    pub fn update_sequence(&mut self, sequence: Sequence) -> (notices: Vec<FunnelNotice>)
        ensures
            old(self).with_selected(*final(self), old(self).active_element, sequence),
            old(self).same_but_sequences_and_selection(*final(self)),
            final(self).active_element == old(self).active_element,
            match old(self).active_element {
                ActiveElement::DefaultSequence(sid) => {
                    &&& final(self).conditional_sequences == old(self).conditional_sequences
                    &&& match seq_pos(old(self).default_sequences@, sid) {
                        Some(j) => {
                            &&& final(self).default_sequences@ == old(self).default_sequences@.update(
                                j,
                                sequence,
                            )
                            &&& notices@.len() == 0
                        },
                        None => {
                            &&& final(self).default_sequences == old(self).default_sequences
                            &&& notices@ == seq![FunnelNotice::SequenceNotFound]
                        },
                    }
                },
                ActiveElement::ConditionalSequence(c, Some(sid)) => {
                    &&& final(self).default_sequences == old(self).default_sequences
                    &&& match cond_pos(old(self).conditional_sequences@, c) {
                        Some(i) => match seq_pos(old(self).conditional_sequences@[i].sequences@, sid) {
                            Some(j) => {
                                &&& cond_seqs_replaced(
                                    old(self).conditional_sequences@,
                                    final(self).conditional_sequences@,
                                    i,
                                    old(self).conditional_sequences@[i].sequences@.update(j, sequence),
                                )
                                &&& notices@.len() == 0
                            },
                            None => {
                                &&& final(self).conditional_sequences == old(self).conditional_sequences
                                &&& notices@ == seq![FunnelNotice::SequenceNotInConditionalSequence]
                            },
                        },
                        None => {
                            &&& final(self).conditional_sequences == old(self).conditional_sequences
                            &&& notices@ == seq![FunnelNotice::ConditionalSequenceNotFound]
                        },
                    }
                },
                _ => {
                    &&& *final(self) == *old(self)
                    &&& notices@.len() == 0
                },
            },
    {
        let ghost before = *self;
        let mut notices: Vec<FunnelNotice> = Vec::new();
        match self.active_element {
            ActiveElement::DefaultSequence(sid) => match find_sequence(&self.default_sequences, sid) {
                Some(j) => {
                    self.default_sequences.remove(j);
                    self.default_sequences.insert(j, sequence);
                    assert(self.default_sequences@ =~= before.default_sequences@.update(j as int, sequence));
                },
                None => {
                    notices.push(FunnelNotice::SequenceNotFound);
                    assert(notices@ =~= seq![FunnelNotice::SequenceNotFound]);
                },
            },
            ActiveElement::ConditionalSequence(c, Some(sid)) => match find_conditional_sequence(
                &self.conditional_sequences,
                c,
            ) {
                Some(i) => match find_sequence(&self.conditional_sequences[i].sequences, sid) {
                    Some(j) => {
                        self.conditional_sequences[i].sequences.remove(j);
                        self.conditional_sequences[i].sequences.insert(j, sequence);
                        assert(self.conditional_sequences@[i as int].sequences@ =~= before.conditional_sequences@[i as int].sequences@.update(j as int, sequence));
                    },
                    None => {
                        notices.push(FunnelNotice::SequenceNotInConditionalSequence);
                        assert(notices@ =~= seq![FunnelNotice::SequenceNotInConditionalSequence]);
                    },
                },
                None => {
                    notices.push(FunnelNotice::ConditionalSequenceNotFound);
                    assert(notices@ =~= seq![FunnelNotice::ConditionalSequenceNotFound]);
                },
            },
            _ => {},
        }
        notices
    }

    /// `b` is `self` after a new element with id `new_id` was added under
    /// `target` and selected (see `create_sequence_with_id`).
    pub open spec fn created_under(self, b: CRUDFunnel, target: ActiveElement, new_id: u128) -> bool {
        &&& self.same_but_sequences_and_selection(b)
        &&& match target {
            ActiveElement::Funnel => {
                &&& b.default_sequences == self.default_sequences
                &&& b.conditional_sequences@.len() == self.conditional_sequences@.len() + 1
                &&& b.conditional_sequences@.drop_last() == self.conditional_sequences@
                &&& is_fresh_conditional_sequence(b.conditional_sequences@.last(), new_id)
                &&& b.active_element == ActiveElement::ConditionalSequence(new_id, None)
            },
            ActiveElement::ConditionalSequence(c, None) => {
                &&& b.default_sequences == self.default_sequences
                &&& b.active_element == ActiveElement::ConditionalSequence(c, Some(new_id))
                &&& match cond_pos(self.conditional_sequences@, c) {
                    Some(i) => {
                        let ns = b.conditional_sequences@[i].sequences@;
                        &&& cond_seqs_replaced(
                            self.conditional_sequences@,
                            b.conditional_sequences@,
                            i,
                            ns,
                        )
                        &&& ns.len() == self.conditional_sequences@[i].sequences@.len() + 1
                        &&& ns.drop_last() == self.conditional_sequences@[i].sequences@
                        &&& is_fresh_sequence(ns.last(), new_id, "New Sequence"@)
                    },
                    None => b.conditional_sequences == self.conditional_sequences,
                }
            },
            ActiveElement::DefaultSequence(_) => {
                &&& b.conditional_sequences == self.conditional_sequences
                &&& b.default_sequences@.len() == self.default_sequences@.len() + 1
                &&& b.default_sequences@.drop_last() == self.default_sequences@
                &&& is_fresh_sequence(
                    b.default_sequences@.last(),
                    new_id,
                    "New Default Sequence"@,
                )
                &&& b.active_element == ActiveElement::DefaultSequence(new_id)
            },
            ActiveElement::ConditionalSequence(_, Some(_)) => b == self,
        }
    }

    /// Adds a new element under the target, with id `new_id`, and selects it:
    /// a conditional sequence (target: the funnel), a sequence of a
    /// conditional sequence, or a default sequence. The selection moves even
    /// where the conditional sequence to add to is not found.
    pub fn create_sequence_with_id(&mut self, target: ActiveElement, new_id: u128)
        ensures
            old(self).created_under(*final(self), target, new_id),
    {
        let ghost before = *self;
        match target {
            ActiveElement::Funnel => {
                self.conditional_sequences.push(
                    ConditionalSequence {
                        id: new_id,
                        name: String::from_str("New Conditional Sequence"),
                        condition_set: Vec::new(),
                        sequences: Vec::new(),
                        conditional_sequence_is_active: true,
                    },
                );
                assert(self.conditional_sequences@.drop_last() =~= before.conditional_sequences@);
                self.active_element = ActiveElement::ConditionalSequence(new_id, None);
            },
            ActiveElement::ConditionalSequence(c, None) => {
                if let Some(i) = find_conditional_sequence(&self.conditional_sequences, c) {
                    self.conditional_sequences[i].sequences.push(fresh_sequence(new_id, "New Sequence"));
                    assert(self.conditional_sequences@[i as int].sequences@.drop_last() =~= before.conditional_sequences@[i as int].sequences@);
                }
                self.active_element = ActiveElement::ConditionalSequence(c, Some(new_id));
            },
            ActiveElement::DefaultSequence(_) => {
                self.default_sequences.push(fresh_sequence(new_id, "New Default Sequence"));
                assert(self.default_sequences@.drop_last() =~= before.default_sequences@);
                self.active_element = ActiveElement::DefaultSequence(new_id);
            },
            ActiveElement::ConditionalSequence(_, Some(_)) => {},
        }
    }

    /// Adds a new element under the target under a random id (see
    /// `create_sequence_with_id`), and gives back that id.
    pub fn create_sequence(&mut self, target: ActiveElement) -> (new_id: u128)
        ensures
            old(self).created_under(*final(self), target, new_id),
    {
        let id = new_uuid();
        self.create_sequence_with_id(target, id);
        id
    }

    /// The editor as it opens: an empty funnel "New Funnel" for all countries
    /// with one new default sequence, whose id is `first_sequence_id`.
    pub fn create_with_id(first_sequence_id: u128) -> (r: CRUDFunnel)
        ensures
            r.funnel_name@ == "New Funnel"@,
            r.country == Country::Global,
            r.default_referrer_handling is DoNothing,
            r.conditional_sequences@.len() == 0,
            r.default_sequences@.len() == 1,
            is_fresh_sequence(r.default_sequences@[0], first_sequence_id, "New Default Sequence"@),
            r.notes@ == Seq::<char>::empty(),
            r.active_element == ActiveElement::Funnel,
    {
        let mut defaults: Vec<Sequence> = Vec::new();
        defaults.push(fresh_sequence(first_sequence_id, "New Default Sequence"));
        CRUDFunnel {
            funnel_name: String::from_str("New Funnel"),
            country: Country::Global,
            default_referrer_handling: ReferrerHandling::DoNothing,
            conditional_sequences: Vec::new(),
            default_sequences: defaults,
            notes: String::new(),
            active_element: ActiveElement::Funnel,
        }
    }

    /// The editor as it opens, its first default sequence under a random id.
    pub fn create() -> (r: CRUDFunnel)
        ensures
            r.funnel_name@ == "New Funnel"@,
            r.country == Country::Global,
            r.default_referrer_handling is DoNothing,
            r.notes@ == Seq::<char>::empty(),
            r.conditional_sequences@.len() == 0,
            r.default_sequences@.len() == 1,
            is_fresh_sequence(
                r.default_sequences@[0],
                r.default_sequences@[0].id,
                "New Default Sequence"@,
            ),
            r.active_element == ActiveElement::Funnel,
    {
        CRUDFunnel::create_with_id(new_uuid())
    }

    /// Loads a saved funnel into the editor (or, with none, empties it) and
    /// selects the funnel itself.
    pub fn change(&mut self, restored: Option<FunnelRecord>)
        ensures
            final(self).active_element == ActiveElement::Funnel,
            match restored {
                Some(f) => {
                    &&& final(self).funnel_name == f.name
                    &&& final(self).notes == f.notes
                    &&& final(self).country == f.country
                    &&& final(self).default_sequences == f.default_sequences
                    &&& final(self).conditional_sequences == f.conditional_sequences
                    &&& final(self).default_referrer_handling == f.referrer_handling
                },
                None => {
                    &&& final(self).default_sequences@.len() == 0
                    &&& final(self).conditional_sequences@.len() == 0
                    &&& final(self).default_referrer_handling is DoNothing
                    &&& final(self).country == Country::Global
                    &&& final(self).funnel_name@ == "New Funnel"@
                    &&& final(self).notes@ == Seq::<char>::empty()
                },
            },
    {
        self.active_element = ActiveElement::Funnel;
        match restored {
            Some(f) => {
                self.funnel_name = f.name;
                self.notes = f.notes;
                self.country = f.country;
                self.default_sequences = f.default_sequences;
                self.conditional_sequences = f.conditional_sequences;
                self.default_referrer_handling = f.referrer_handling;
            },
            None => {
                self.default_sequences = Vec::new();
                self.conditional_sequences = Vec::new();
                self.default_referrer_handling = ReferrerHandling::DoNothing;
                self.country = Country::Global;
                self.funnel_name = String::from_str("New Funnel");
                self.notes = String::new();
            },
        }
    }

    /// Selects the element to edit.
    pub fn set_active_element(&mut self, element: ActiveElement)
        ensures
            final(self).active_element == element,
            old(self).same_but_sequences_and_selection(*final(self)),
            final(self).default_sequences == old(self).default_sequences,
            final(self).conditional_sequences == old(self).conditional_sequences,
    {
        self.active_element = element;
    }

    /// Sets the funnel's country.
    pub fn update_country(&mut self, country: Country)
        ensures
            *final(self) == (CRUDFunnel { country, ..*old(self) }),
    {
        self.country = country;
    }

    /// Sets the funnel's notes.
    pub fn update_notes(&mut self, notes: String)
        ensures
            *final(self) == (CRUDFunnel { notes, ..*old(self) }),
    {
        self.notes = notes;
    }

    /// Sets the conditions of the selected conditional sequence (when a
    /// conditional sequence itself is selected).
    pub fn update_sequence_conditions(&mut self, conditions: Vec<Condition>)
        ensures
            old(self).same_but_conditionals(*final(self)),
            match old(self).active_element {
                ActiveElement::ConditionalSequence(c, None) => match cond_pos(
                    old(self).conditional_sequences@,
                    c,
                ) {
                    Some(i) => final(self).conditional_sequences@ == old(
                        self,
                    ).conditional_sequences@.update(
                        i,
                        ConditionalSequence {
                            condition_set: conditions,
                            ..old(self).conditional_sequences@[i]
                        },
                    ),
                    None => final(self).conditional_sequences == old(self).conditional_sequences,
                },
                _ => final(self).conditional_sequences == old(self).conditional_sequences,
            },
    {
        if let ActiveElement::ConditionalSequence(c, None) = self.active_element {
            if let Some(i) = find_conditional_sequence(&self.conditional_sequences, c) {
                let ghost before = self.conditional_sequences@;
                self.conditional_sequences[i].condition_set = conditions;
                assert(self.conditional_sequences@ =~= before.update(
                    i as int,
                    ConditionalSequence { condition_set: conditions, ..before[i as int] },
                ));
            }
        }
    }
}


/// Whether a row of the conditional sequence list is highlighted: the row
/// of a conditional sequence, or of one of its sequences, is highlighted
/// when it is the element selected.
pub fn row_is_selected(active_element: ActiveElement, row: ActiveElement) -> (r: bool)
    ensures
        r == (row is ConditionalSequence && active_element == row),
{
    match (active_element, row) {
        (ActiveElement::ConditionalSequence(a, None), ActiveElement::ConditionalSequence(b, None)) => a == b,
        (
            ActiveElement::ConditionalSequence(a, Some(x)),
            ActiveElement::ConditionalSequence(b, Some(y)),
        ) => a == b && x == y,
        _ => false,
    }
}

/// A line of the conditional sequence list, in the order the list shows them.
#[derive(Debug)]
pub enum SequenceListRow {
    /// A conditional sequence: its id, name, number of conditions, whether
    /// it is on, and whether it is highlighted.
    Block { id: u128, name: String, conditions: usize, is_active: bool, highlighted: bool },
    /// A sequence of the conditional sequence `parent`: its id, name, weight,
    /// whether it is on, and whether it is highlighted.
    Row { parent: u128, id: u128, name: String, weight: u8, is_active: bool, highlighted: bool },
    /// The divider that closes the list.
    Divider,
}

/// Mathematical form of `SequenceListRow`.
pub enum SequenceListRowModel {
    Block { id: u128, name: Seq<char>, conditions: nat, is_active: bool, highlighted: bool },
    Row { parent: u128, id: u128, name: Seq<char>, weight: u8, is_active: bool, highlighted: bool },
    Divider,
}

impl DeepView for SequenceListRow {
    type V = SequenceListRowModel;

    open spec fn deep_view(&self) -> SequenceListRowModel {
        match self {
            SequenceListRow::Block { id, name, conditions, is_active, highlighted } => {
                SequenceListRowModel::Block {
                    id: *id,
                    name: name@,
                    conditions: *conditions as nat,
                    is_active: *is_active,
                    highlighted: *highlighted,
                }
            },
            SequenceListRow::Row { parent, id, name, weight, is_active, highlighted } => {
                SequenceListRowModel::Row {
                    parent: *parent,
                    id: *id,
                    name: name@,
                    weight: *weight,
                    is_active: *is_active,
                    highlighted: *highlighted,
                }
            },
            SequenceListRow::Divider => SequenceListRowModel::Divider,
        }
    }
}

/// The row of sequence `s` of conditional sequence `parent`.
pub open spec fn sequence_row(parent: u128, s: Sequence, active: ActiveElement) -> SequenceListRowModel {
    SequenceListRowModel::Row {
        parent,
        id: s.id,
        name: s.name@,
        weight: s.weight,
        is_active: s.sequence_is_active,
        highlighted: active == ActiveElement::ConditionalSequence(parent, Some(s.id)),
    }
}

/// The rows of the sequences `s` of conditional sequence `parent`, in order.
pub open spec fn sequence_rows(parent: u128, s: Seq<Sequence>, active: ActiveElement) -> Seq<
    SequenceListRowModel,
>
    decreases s.len(),
{
    if s.len() == 0 {
        Seq::empty()
    } else {
        sequence_rows(parent, s.drop_last(), active).push(sequence_row(parent, s.last(), active))
    }
}

/// The block of conditional sequence `c`.
pub open spec fn conditional_block(c: ConditionalSequence, active: ActiveElement) -> SequenceListRowModel {
    SequenceListRowModel::Block {
        id: c.id,
        name: c.name@,
        conditions: c.condition_set@.len(),
        is_active: c.conditional_sequence_is_active,
        highlighted: active == ActiveElement::ConditionalSequence(c.id, None),
    }
}

/// For each conditional sequence in order: its block, then the rows of its
/// sequences.
pub open spec fn conditional_rows(cs: Seq<ConditionalSequence>, active: ActiveElement) -> Seq<
    SequenceListRowModel,
>
    decreases cs.len(),
{
    if cs.len() == 0 {
        Seq::empty()
    } else {
        conditional_rows(cs.drop_last(), active).push(conditional_block(cs.last(), active))
            + sequence_rows(cs.last().id, cs.last().sequences@, active)
    }
}

impl CRUDFunnel {
    /// The conditional sequence list: each conditional sequence's block and
    /// its sequences' rows (see `conditional_rows`), then a closing divider.
    /// A block or row is highlighted when it is the element selected.
    pub fn conditional_sequence_rows(&self) -> (r: Vec<SequenceListRow>)
        ensures
            r.deep_view() == conditional_rows(self.conditional_sequences@, self.active_element).push(
                SequenceListRowModel::Divider,
            ),
    {
        let ghost cs = self.conditional_sequences@;
        let ghost a = self.active_element;
        let mut out: Vec<SequenceListRow> = Vec::new();
        let mut i: usize = 0;
        assert(cs.subrange(0, 0) =~= Seq::<ConditionalSequence>::empty());
        assert(out.deep_view() =~= conditional_rows(cs.subrange(0, 0), a));
        while i < self.conditional_sequences.len()
            invariant
                cs == self.conditional_sequences@,
                a == self.active_element,
                i <= cs.len(),
                out.deep_view() == conditional_rows(cs.subrange(0, i as int), a),
            decreases cs.len() - i,
        {
            let c = &self.conditional_sequences[i];
            let ghost before = out.deep_view();
            let block = SequenceListRow::Block {
                id: c.id,
                name: c.name.clone(),
                conditions: c.condition_set.len(),
                is_active: c.conditional_sequence_is_active,
                highlighted: row_is_selected(self.active_element, ActiveElement::ConditionalSequence(c.id, None)),
            };
            out.push(block);
            assert(out.deep_view() =~= before.push(conditional_block(*c, a)));
            let ghost ss = c.sequences@;
            let mut j: usize = 0;
            assert(ss.subrange(0, 0) =~= Seq::<Sequence>::empty());
            assert(out.deep_view() =~= before.push(conditional_block(*c, a)) + sequence_rows(
                c.id,
                ss.subrange(0, 0),
                a,
            ));
            while j < c.sequences.len()
                invariant
                    cs == self.conditional_sequences@,
                    a == self.active_element,
                    i < cs.len(),
                    *c == cs[i as int],
                    ss == c.sequences@,
                    j <= ss.len(),
                    out.deep_view() == before.push(conditional_block(*c, a)) + sequence_rows(
                        c.id,
                        ss.subrange(0, j as int),
                        a,
                    ),
                decreases ss.len() - j,
            {
                let sq = &c.sequences[j];
                let ghost before_row = out.deep_view();
                let row = SequenceListRow::Row {
                    parent: c.id,
                    id: sq.id,
                    name: sq.name.clone(),
                    weight: sq.weight,
                    is_active: sq.sequence_is_active,
                    highlighted: row_is_selected(
                        self.active_element,
                        ActiveElement::ConditionalSequence(c.id, Some(sq.id)),
                    ),
                };
                out.push(row);
                assert(out.deep_view() =~= before_row.push(sequence_row(c.id, *sq, a)));
                assert(ss.subrange(0, j + 1).drop_last() =~= ss.subrange(0, j as int));
                assert(ss.subrange(0, j + 1).last() == *sq);
                j = j + 1;
                assert(out.deep_view() =~= before.push(conditional_block(*c, a)) + sequence_rows(
                    c.id,
                    ss.subrange(0, j as int),
                    a,
                ));
            }
            assert(ss.subrange(0, j as int) =~= ss);
            assert(cs.subrange(0, i + 1).drop_last() =~= cs.subrange(0, i as int));
            assert(cs.subrange(0, i + 1).last() == *c);
            i = i + 1;
            assert(out.deep_view() =~= conditional_rows(cs.subrange(0, i as int), a));
        }
        assert(cs.subrange(0, i as int) =~= cs);
        let ghost before = out.deep_view();
        out.push(SequenceListRow::Divider);
        assert(out.deep_view() =~= before.push(SequenceListRowModel::Divider));
        out
    }
}

/// What the right-hand panel of the funnel editor shows.
#[derive(Debug)]
pub enum RightPanel<'a> {
    /// The funnel's own fields.
    Funnel,
    /// The sequence builder, on the selected sequence.
    SequenceBuilder,
    /// A conditional sequence: its name (`debug` where no conditional
    /// sequence has the selected id) and its conditions (none where not found).
    Conditions(String, Option<&'a Vec<Condition>>),
}

impl CRUDFunnel {
    /// The panel for the selected element; a selected conditional sequence
    /// is the first with the selected id.
    pub fn right_panel(&self) -> (r: RightPanel<'_>)
        ensures
            match self.active_element {
                ActiveElement::Funnel => r is Funnel,
                ActiveElement::DefaultSequence(_) => r is SequenceBuilder,
                ActiveElement::ConditionalSequence(_, Some(_)) => r is SequenceBuilder,
                ActiveElement::ConditionalSequence(c, None) => match cond_pos(
                    self.conditional_sequences@,
                    c,
                ) {
                    Some(i) => r matches RightPanel::Conditions(name, Some(cs)) && name
                        == self.conditional_sequences@[i].name && cs
                        == &self.conditional_sequences@[i].condition_set,
                    None => r matches RightPanel::Conditions(name, None) && name@ == "debug"@,
                },
            },
    {
        match self.active_element {
            ActiveElement::Funnel => RightPanel::Funnel,
            ActiveElement::DefaultSequence(_) => RightPanel::SequenceBuilder,
            ActiveElement::ConditionalSequence(_, Some(_)) => RightPanel::SequenceBuilder,
            ActiveElement::ConditionalSequence(c, None) => match find_conditional_sequence(
                &self.conditional_sequences,
                c,
            ) {
                Some(i) => RightPanel::Conditions(
                    self.conditional_sequences[i].name.clone(),
                    Some(&self.conditional_sequences[i].condition_set),
                ),
                None => RightPanel::Conditions(String::from_str("debug"), None),
            },
        }
    }
}

/// What is sent when a funnel is saved.
#[derive(Debug)]
pub struct FunnelDraft<'a> {
    /// Whether the request creates the funnel or updates the saved one.
    pub request: ModalType,
    pub funnel_id: u128,
    pub account_id: u128,
    pub clearance: Clearance,
    pub redirect_option: RedirectOption,
    pub archived: bool,
    pub country: Country,
    pub name: &'a String,
    pub referrer_handling: &'a ReferrerHandling,
    pub notes: &'a String,
    pub conditional_sequences: &'a Vec<ConditionalSequence>,
    pub default_sequences: &'a Vec<Sequence>,
    /// Milliseconds since the Unix epoch.
    pub last_updated: i64,
}

impl CRUDFunnel {
    /// `d` carries the editor's fields for account `account_id`, as a
    /// request of kind `modal_type`: name, country, referrer handling, notes
    /// and both sequence lists, visible to everyone, redirecting, and not
    /// archived.
    pub open spec fn is_draft_of(self, d: FunnelDraft, modal_type: ModalType, account_id: u128) -> bool {
        &&& d.request == modal_type
        &&& d.account_id == account_id
        &&& d.clearance == Clearance::Everyone
        &&& d.redirect_option == RedirectOption::Redirect
        &&& !d.archived
        &&& d.country == self.country
        &&& d.name == &self.funnel_name
        &&& d.referrer_handling == &self.default_referrer_handling
        &&& d.notes == &self.notes
        &&& d.conditional_sequences == &self.conditional_sequences
        &&& d.default_sequences == &self.default_sequences
    }

    /// The funnel to send for account `account_id`: the editor's fields (see
    /// `is_draft_of`), under `fresh_id` for a new funnel or under the saved
    /// funnel's id for an update, stamped `now`.
    pub fn build_draft(
        &self,
        modal_type: ModalType,
        restored: &Option<FunnelRecord>,
        account_id: u128,
        fresh_id: u128,
        now: i64,
    ) -> (d: FunnelDraft<'_>)
        requires
            modal_type == ModalType::Update ==> restored is Some,
        ensures
            self.is_draft_of(d, modal_type, account_id),
            d.funnel_id == (match modal_type {
                ModalType::Create => fresh_id,
                ModalType::Update => restored.unwrap().funnel_id,
            }),
            d.last_updated == now,
    {
        let funnel_id = match modal_type {
            ModalType::Create => fresh_id,
            ModalType::Update => restored.as_ref().unwrap().funnel_id,
        };
        FunnelDraft {
            request: modal_type,
            funnel_id,
            account_id,
            clearance: Clearance::Everyone,
            redirect_option: RedirectOption::Redirect,
            archived: false,
            country: self.country,
            name: &self.funnel_name,
            referrer_handling: &self.default_referrer_handling,
            notes: &self.notes,
            conditional_sequences: &self.conditional_sequences,
            default_sequences: &self.default_sequences,
            last_updated: now,
        }
    }

    /// The funnel to send on save: a new funnel gets a random id; every
    /// draft is stamped with the current time.
    pub fn fetch(&self, modal_type: ModalType, restored: &Option<FunnelRecord>, account_id: u128) -> (d:
        FunnelDraft<'_>)
        requires
            modal_type == ModalType::Update ==> restored is Some,
        ensures
            self.is_draft_of(d, modal_type, account_id),
            modal_type == ModalType::Update ==> d.funnel_id == restored.unwrap().funnel_id,
            d.last_updated >= 0,
    {
        let id = new_uuid();
        let now = now_millis();
        self.build_draft(modal_type, restored, account_id, id, now)
    }
}

} // verus!
