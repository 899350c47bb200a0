//! The elements that the editors build: landing pages, offers, sequences,
//! referrer handling and countries.

use vstd::prelude::*;
use crate::condition_view::ItemCode;

verus! {

/// Whether an editor creates an element or updates a saved one.
#[derive(Clone, Copy, Debug, PartialEq, Eq, Structural)]
pub enum ModalType {
    Create,
    Update,
}

/// Who may see a saved element. The editors save every element for
/// everyone, the one clearance they use.
#[derive(Clone, Copy, Debug, PartialEq, Eq, Structural)]
pub enum Clearance {
    Everyone,
}

/// How the visitor is passed on. The editors make every funnel, sequence and
/// campaign redirect, the one option they use.
#[derive(Clone, Copy, Debug, PartialEq, Eq, Structural)]
pub enum RedirectOption {
    Redirect,
}

/// How the conversions of an offer are reported. The offer editor saves
/// every offer with a postback URL, the one method it uses.
#[derive(Clone, Copy, Debug, PartialEq, Eq, Structural)]
pub enum ConversionTrackingMethod {
    PostbackURL,
}

/// The language an offer is meant for. The offer editor saves every offer
/// for any language.
#[derive(Clone, Copy, Debug, PartialEq, Eq, Structural)]
pub enum Language {
    Any,
}

/// The vertical an offer belongs to. The offer editor saves every offer
/// under many verticals.
#[derive(Clone, Copy, Debug, PartialEq, Eq, Structural)]
pub enum Vertical {
    Many,
}

/// How the visitor is sent on from a sequence.
#[derive(Clone, Copy, Debug, PartialEq, Eq, Structural)]
pub enum SequenceType {
    OffersOnly,
    LandingPageAndOffers,
    Listicle,
    Matrix,
}

/// A named list of referrers to put in place of the visitor's referrer.
#[derive(Debug)]
pub struct ReplaceReferrerList {
    pub name_of_list: String,
}

/// What is done with the visitor's referrer on redirect.
#[derive(Debug)]
pub enum ReferrerHandling {
    DoNothing,
    RemoveAll,
    Replace(ReplaceReferrerList),
}

/// Whether the referrer handling replaces the referrer from a list.
pub open spec fn is_replace(r: ReferrerHandling) -> bool {
    r is Replace
}

/// A landing page, by what the editors read of it.
#[derive(Debug)]
pub struct LandingPage {
    pub landing_page_id: u128,
    pub name: String,
    /// How many click-through links the page carries.
    pub number_of_calls_to_action: u8,
    /// Whether the page is a pre-sell page placed before other landing pages.
    pub is_pre_landing_page: bool,
}

/// An offer, by what the editors read of it.
#[derive(Debug)]
pub struct Offer {
    pub offer_id: u128,
    pub name: String,
}

/// A landing page with its share of the traffic.
#[derive(Debug)]
pub struct WeightedLandingPage {
    pub weight: u8,
    pub landing_page: LandingPage,
}

/// An offer with its share of the traffic.
#[derive(Debug)]
pub struct WeightedOffer {
    pub weight: u8,
    pub offer: Offer,
}

/// A landing page of a listicle with the offer behind each of its links.
#[derive(Debug)]
pub struct ListiclePair {
    pub landing_page: LandingPage,
    pub offers: Vec<Offer>,
}

/// The country a funnel or campaign is meant for.
#[derive(Clone, Copy, Debug, PartialEq, Eq, Structural)]
pub enum Country {
    Global,
    ISOCountry(ItemCode),
}

/// A decimal number: `mantissa / 10^scale`.
#[derive(Clone, Copy, Debug, PartialEq, Eq, Structural)]
pub struct DecimalValue {
    pub mantissa: i128,
    pub scale: u32,
}

/// A traffic source, as far as a campaign reads it.
#[derive(Debug)]
pub struct TrafficSourceRef {
    pub traffic_source_id: u128,
    pub name: String,
    /// The currency its costs are in.
    pub currency: ItemCode,
}

/// A sequence: a path of landing pages and offers that a visitor is sent along.
#[derive(Debug)]
pub struct Sequence {
    pub id: u128,
    pub name: String,
    pub weight: u8,
    pub sequence_type: SequenceType,
    pub redirect_option: RedirectOption,
    pub referrer_handling: ReferrerHandling,
    pub pre_landing_page: Option<LandingPage>,
    pub listicle_pairs: Vec<ListiclePair>,
    pub landing_pages: Vec<WeightedLandingPage>,
    pub offers: Vec<Vec<WeightedOffer>>,
    pub weight_optimization_active: bool,
    pub sequence_is_active: bool,
}


impl LandingPage {
    /// A copy of this landing page.
    pub fn duplicate(&self) -> (r: LandingPage)
        ensures
            r == *self,
    {
        LandingPage {
            landing_page_id: self.landing_page_id,
            name: self.name.clone(),
            number_of_calls_to_action: self.number_of_calls_to_action,
            is_pre_landing_page: self.is_pre_landing_page,
        }
    }
}

impl Offer {
    /// A copy of this offer.
    pub fn duplicate(&self) -> (r: Offer)
        ensures
            r == *self,
    {
        Offer { offer_id: self.offer_id, name: self.name.clone() }
    }
}

/// What an editor makes of the answer to its save request.
#[derive(Debug)]
pub enum SaveOutcome<T> {
    /// The saved elements came back.
    FetchData(T),
    /// The request succeeded but its body did not read.
    DeserializationFailed,
    /// The request failed.
    FetchFailed,
}

/// The outcome of a save request, from whether its status is a success and
/// whether its body read: the body where both hold, a deserialization
/// failure where only the status is a success, a fetch failure otherwise.
pub fn save_outcome<T, E>(status_is_success: bool, body: Result<T, E>) -> (r: SaveOutcome<T>)
    ensures
        r == (if !status_is_success {
            SaveOutcome::FetchFailed
        } else {
            match body {
                Ok(t) => SaveOutcome::FetchData(t),
                Err(_) => SaveOutcome::DeserializationFailed,
            }
        }),
{
    if !status_is_success {
        SaveOutcome::FetchFailed
    } else {
        match body {
            Ok(t) => SaveOutcome::FetchData(t),
            Err(_) => SaveOutcome::DeserializationFailed,
        }
    }
}

} // verus!
