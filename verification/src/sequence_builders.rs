//! The smaller editors around a funnel's sequences: the sequence builder that
//! edits a sequence of its own, and the weight field of the sequence lists.

use vstd::prelude::*;
use crate::crud_funnels::FunnelNotice;
use crate::model::{ReferrerHandling, Sequence, SequenceType, WeightedLandingPage, WeightedOffer};
use crate::text::{parse_u8, spec_parse_u8};

verus! {

/// The weight typed into a sequence list; reports text that is not a number
/// from 0 to 255.
pub fn weight_from_input(input: &str) -> (r: Result<u8, FunnelNotice>)
    ensures
        match spec_parse_u8(input@) {
            Some(w) => r == Ok::<u8, FunnelNotice>(w),
            None => r == Err::<u8, FunnelNotice>(FunnelNotice::InvalidWeight),
        },
{
    match parse_u8(input) {
        Some(w) => Ok(w),
        None => Err(FunnelNotice::InvalidWeight),
    }
}

impl ReferrerHandling {
    /// A copy of this handling.
    pub fn duplicate(&self) -> (r: ReferrerHandling)
        ensures
            r == *self,
    {
        match self {
            ReferrerHandling::DoNothing => ReferrerHandling::DoNothing,
            ReferrerHandling::RemoveAll => ReferrerHandling::RemoveAll,
            ReferrerHandling::Replace(list) => ReferrerHandling::Replace(list.duplicate()),
        }
    }
}

/// The sequence builder that edits one sequence handed to it: the referrer
/// handling and sequence type picked so far.
#[derive(Debug)]
pub struct MiniSequenceBuilder {
    pub referrer_handling: ReferrerHandling,
    pub sequence_type: SequenceType,
}

/// The referrer handling the builder starts from: the sequence's, or none.
pub open spec fn initial_referrer_handling(restored: Option<Sequence>) -> ReferrerHandling {
    match restored {
        Some(s) => s.referrer_handling,
        None => ReferrerHandling::DoNothing,
    }
}

/// The sequence type the builder starts from: the sequence's, or offers only.
pub open spec fn initial_sequence_type(restored: Option<Sequence>) -> SequenceType {
    match restored {
        Some(s) => s.sequence_type,
        None => SequenceType::OffersOnly,
    }
}

/// A builder opened on a sequence starts from that sequence's own type and
/// referrer handling, whatever they are; one opened on no sequence starts
/// from offers only, leaving the referrer alone.
pub proof fn lemma_builder_starts_from_sequence(s: Sequence)
    ensures
        initial_referrer_handling(Some(s)) == s.referrer_handling,
        initial_sequence_type(Some(s)) == s.sequence_type,
        initial_referrer_handling(None) == ReferrerHandling::DoNothing,
        initial_sequence_type(None) == SequenceType::OffersOnly,
{
}

impl MiniSequenceBuilder {
    /// A builder for the sequence `restored`, if any.
    pub fn create(restored: &Option<Sequence>) -> (r: MiniSequenceBuilder)
        ensures
            r.referrer_handling == initial_referrer_handling(*restored),
            r.sequence_type == initial_sequence_type(*restored),
    {
        match restored {
            Some(s) => MiniSequenceBuilder {
                referrer_handling: s.referrer_handling.duplicate(),
                sequence_type: s.sequence_type,
            },
            None => MiniSequenceBuilder {
                referrer_handling: ReferrerHandling::DoNothing,
                sequence_type: SequenceType::OffersOnly,
            },
        }
    }

    /// Starts over from a newly handed sequence.
    pub fn change(&mut self, restored: &Option<Sequence>)
        ensures
            final(self).referrer_handling == initial_referrer_handling(*restored),
            final(self).sequence_type == initial_sequence_type(*restored),
    {
        *self = MiniSequenceBuilder::create(restored);
    }

    /// Picks a sequence type.
    pub fn update_sequence_type(&mut self, sequence_type: SequenceType)
        ensures
            final(self).sequence_type == sequence_type,
            final(self).referrer_handling == old(self).referrer_handling,
    {
        self.sequence_type = sequence_type;
    }

    /// Picks a referrer handling.
    pub fn update_referrer_handling(&mut self, referrer_handling: ReferrerHandling)
        ensures
            final(self).referrer_handling == referrer_handling,
            final(self).sequence_type == old(self).sequence_type,
    {
        self.referrer_handling = referrer_handling;
    }

    /// The handed sequence with the landing pages `lps`; reports that there
    /// is no sequence to edit.
    pub fn with_landing_pages(restored: Option<Sequence>, lps: Vec<WeightedLandingPage>) -> (r:
        Result<Sequence, FunnelNotice>)
        ensures
            match restored {
                Some(s) => r == Ok::<Sequence, FunnelNotice>(Sequence { landing_pages: lps, ..s }),
                None => r == Err::<Sequence, FunnelNotice>(FunnelNotice::ActiveSequenceMissing),
            },
    {
        match restored {
            Some(mut s) => {
                s.landing_pages = lps;
                Ok(s)
            },
            None => Err(FunnelNotice::ActiveSequenceMissing),
        }
    }

    /// The handed sequence with the offer groups `offers`; reports that there
    /// is no sequence to edit.
    pub fn with_offers(restored: Option<Sequence>, offers: Vec<Vec<WeightedOffer>>) -> (r: Result<
        Sequence,
        FunnelNotice,
    >)
        ensures
            match restored {
                Some(s) => r == Ok::<Sequence, FunnelNotice>(Sequence { offers: offers, ..s }),
                None => r == Err::<Sequence, FunnelNotice>(FunnelNotice::ActiveSequenceMissing),
            },
    {
        match restored {
            Some(mut s) => {
                s.offers = offers;
                Ok(s)
            },
            None => Err(FunnelNotice::ActiveSequenceMissing),
        }
    }
}

} // verus!
