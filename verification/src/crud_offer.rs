//! The offer editor: the fields of an offer, what is checked before it is
//! saved, and what is sent.

use vstd::prelude::*;
use crate::condition_view::ItemCode;
use crate::model::{
    Clearance, ConversionTrackingMethod, Country, DecimalValue, Language, ModalType, Vertical,
};
use crate::outside::{decimal_from_str, new_uuid, now_millis, parse_decimal};

verus! {

/// How the payout of an offer is set: counted by the tracker, or entered.
#[derive(Clone, Copy, Debug, PartialEq, Eq, Structural)]
pub enum PayoutType {
    Auto,
    Manual,
}

/// An offer source, as far as an offer reads it.
#[derive(Debug)]
pub struct OfferSourceRef {
    pub offer_source_id: u128,
    pub name: String,
}

/// Why an offer cannot be saved, or a payout not taken.
#[derive(Clone, Copy, Debug, PartialEq, Eq, Structural)]
pub enum OfferNotice {
    /// "Please link an Offer Source."
    NoOfferSource,
    /// "Please enter a valid Offer URL."
    NoOfferUrl,
    /// "Please Enter Only Numbers"
    InvalidPayoutValue,
}

/// A saved offer, as far as the editor reads it back.
#[derive(Debug)]
pub struct OfferRecord {
    pub offer_id: u128,
    pub name: String,
    pub tags: Vec<String>,
    pub offer_source: OfferSourceRef,
    /// The offer's URL, serialized.
    pub url: String,
    pub offer_tokens: Vec<ItemCode>,
    pub payout_type: PayoutType,
    pub payout_value: DecimalValue,
    pub currency: ItemCode,
    pub country: Country,
    pub notes: String,
    /// Whether the offer caps its conversions.
    pub has_conversion_cap: bool,
}

/// The state of the offer editor.
#[derive(Debug)]
pub struct CRUDOffer {
    pub name: String,
    pub offer_source: Option<OfferSourceRef>,
    pub country: Country,
    pub tags: Vec<String>,
    /// The URL as shown in its field.
    pub offer_url_string: String,
    /// The URL taken from the field, serialized; none until one parses.
    pub offer_url: Option<String>,
    pub offer_url_tokens: Vec<ItemCode>,
    pub payout_type: PayoutType,
    pub payout_value: DecimalValue,
    pub payout_currency: ItemCode,
    pub notes: String,
    pub conversion_cap_active: bool,
}

/// A change that a field of the offer editor hands over.
#[derive(Debug)]
pub enum Msg {
    UpdateName(String),
    UpdatePayoutCurrency(ItemCode),
    UpdateNotes(String),
    UpdateOfferURLTokens(Vec<ItemCode>),
    UpdateOfferSource(OfferSourceRef),
    UpdateCountry(Country),
    UpdateTags(Vec<String>),
    UpdateUrl(String),
    UpdatePayoutType(PayoutType),
    UpdatePayoutValue(DecimalValue),
}

/// What is sent when an offer is saved. Every saved offer is tracked by
/// postback URL, for any language, under many verticals, visible to
/// everyone and not archived; it is sent without manual payout settings and
/// without a conversion cap.
#[derive(Debug)]
pub struct OfferDraft<'a> {
    /// Whether the request creates the offer or updates the saved one.
    pub request: ModalType,
    pub offer_id: u128,
    pub account_id: u128,
    pub conversion_tracking_method: ConversionTrackingMethod,
    pub language: Language,
    pub vertical: Vertical,
    pub clearance: Clearance,
    pub archived: bool,
    pub name: &'a String,
    pub tags: &'a Vec<String>,
    pub url: &'a String,
    pub offer_tokens: &'a Vec<ItemCode>,
    pub payout_type: PayoutType,
    pub payout_value: DecimalValue,
    pub currency: ItemCode,
    pub offer_source: &'a OfferSourceRef,
    pub notes: &'a String,
    pub country: Country,
    /// Milliseconds since the Unix epoch.
    pub last_updated: i64,
}

/// The payout typed into the payout field, as a decimal; reports text that
/// is not a number.
pub fn parse_payout_value(input: &str) -> (r: Result<DecimalValue, OfferNotice>)
    ensures
        match decimal_from_str(input@) {
            Some(d) => r == Ok::<DecimalValue, OfferNotice>(d),
            None => r == Err::<DecimalValue, OfferNotice>(OfferNotice::InvalidPayoutValue),
        },
{
    match parse_decimal(input) {
        Some(d) => Ok(d),
        None => Err(OfferNotice::InvalidPayoutValue),
    }
}

impl CRUDOffer {
    /// The editor after the field change `msg`.
    pub open spec fn after(self, msg: Msg) -> CRUDOffer {
        match msg {
            Msg::UpdateName(v) => CRUDOffer { name: v, ..self },
            Msg::UpdatePayoutCurrency(v) => CRUDOffer { payout_currency: v, ..self },
            Msg::UpdateNotes(v) => CRUDOffer { notes: v, ..self },
            Msg::UpdateOfferURLTokens(v) => CRUDOffer { offer_url_tokens: v, ..self },
            Msg::UpdateOfferSource(v) => CRUDOffer { offer_source: Some(v), ..self },
            Msg::UpdateCountry(v) => CRUDOffer { country: v, ..self },
            Msg::UpdateTags(v) => CRUDOffer { tags: v, ..self },
            Msg::UpdateUrl(v) => CRUDOffer { offer_url: Some(v), ..self },
            Msg::UpdatePayoutType(v) => CRUDOffer { payout_type: v, ..self },
            Msg::UpdatePayoutValue(v) => CRUDOffer { payout_value: v, ..self },
        }
    }

    /// The editor as it opens: no offer source, all countries, an automatic
    /// payout of zero in US dollars (`usd`), and empty texts.
    pub fn create(usd: ItemCode) -> (r: CRUDOffer)
        ensures
            r.name@.len() == 0,
            r.offer_source is None,
            r.country == Country::Global,
            r.tags@.len() == 0,
            r.offer_url_string@.len() == 0,
            r.offer_url is None,
            r.offer_url_tokens@.len() == 0,
            r.payout_type == PayoutType::Auto,
            r.payout_value == (DecimalValue { mantissa: 0, scale: 0 }),
            r.payout_currency == usd,
            r.notes@.len() == 0,
            !r.conversion_cap_active,
    {
        CRUDOffer {
            name: String::new(),
            offer_source: None,
            country: Country::Global,
            tags: Vec::new(),
            offer_url_string: String::new(),
            offer_url: None,
            offer_url_tokens: Vec::new(),
            payout_type: PayoutType::Auto,
            payout_value: DecimalValue { mantissa: 0, scale: 0 },
            payout_currency: usd,
            notes: String::new(),
            conversion_cap_active: false,
        }
    }

    /// Takes a field change.
    pub fn update(&mut self, msg: Msg)
        ensures
            *final(self) == old(self).after(msg),
    {
        match msg {
            Msg::UpdateName(v) => self.name = v,
            Msg::UpdatePayoutCurrency(v) => self.payout_currency = v,
            Msg::UpdateNotes(v) => self.notes = v,
            Msg::UpdateOfferURLTokens(v) => self.offer_url_tokens = v,
            Msg::UpdateOfferSource(v) => self.offer_source = Some(v),
            Msg::UpdateCountry(v) => self.country = v,
            Msg::UpdateTags(v) => self.tags = v,
            Msg::UpdateUrl(v) => self.offer_url = Some(v),
            Msg::UpdatePayoutType(v) => self.payout_type = v,
            Msg::UpdatePayoutValue(v) => self.payout_value = v,
        }
    }

    /// Loads a saved offer into the editor, or empties it (payout back to
    /// automatic, zero, in US dollars `usd`). The country is left as it is.
    pub fn change(&mut self, restored: Option<OfferRecord>, usd: ItemCode)
        ensures
            final(self).country == old(self).country,
            match restored {
                Some(o) => {
                    &&& final(self).name == o.name
                    &&& final(self).notes == o.notes
                    &&& final(self).offer_source == Some(o.offer_source)
                    &&& final(self).tags == o.tags
                    &&& final(self).offer_url_string == o.url
                    &&& final(self).offer_url == Some(o.url)
                    &&& final(self).offer_url_tokens == o.offer_tokens
                    &&& final(self).payout_type == o.payout_type
                    &&& final(self).payout_value == o.payout_value
                    &&& final(self).payout_currency == o.currency
                    &&& final(self).conversion_cap_active == o.has_conversion_cap
                },
                None => {
                    &&& final(self).name@.len() == 0
                    &&& final(self).notes@.len() == 0
                    &&& final(self).offer_source is None
                    &&& final(self).tags@.len() == 0
                    &&& final(self).offer_url_string@.len() == 0
                    &&& final(self).offer_url is None
                    &&& final(self).offer_url_tokens@.len() == 0
                    &&& final(self).payout_type == PayoutType::Auto
                    &&& final(self).payout_value == (DecimalValue { mantissa: 0, scale: 0 })
                    &&& final(self).payout_currency == usd
                    &&& !final(self).conversion_cap_active
                },
            },
    {
        match restored {
            Some(o) => {
                let url = o.url;
                self.name = o.name;
                self.notes = o.notes;
                self.offer_source = Some(o.offer_source);
                self.tags = o.tags;
                self.offer_url_string = url.clone();
                self.offer_url = Some(url);
                self.offer_url_tokens = o.offer_tokens;
                self.payout_type = o.payout_type;
                self.payout_value = o.payout_value;
                self.payout_currency = o.currency;
                self.conversion_cap_active = o.has_conversion_cap;
            },
            None => {
                self.name = String::new();
                self.notes = String::new();
                self.offer_source = None;
                self.tags = Vec::new();
                self.offer_url_string = String::new();
                self.offer_url = None;
                self.offer_url_tokens = Vec::new();
                self.payout_type = PayoutType::Auto;
                self.payout_value = DecimalValue { mantissa: 0, scale: 0 };
                self.payout_currency = usd;
                self.conversion_cap_active = false;
            },
        }
    }

    /// `d` carries the editor's fields, under the id `id`, stamped `now`.
    pub open spec fn is_draft_of(
        self,
        d: OfferDraft,
        modal_type: ModalType,
        account_id: u128,
        id: u128,
        now: i64,
    ) -> bool {
        &&& d.request == modal_type
        &&& d.offer_id == id
        &&& d.account_id == account_id
        &&& d.conversion_tracking_method == ConversionTrackingMethod::PostbackURL
        &&& d.language == Language::Any
        &&& d.vertical == Vertical::Many
        &&& d.clearance == Clearance::Everyone
        &&& !d.archived
        &&& d.name == &self.name
        &&& d.tags == &self.tags
        &&& self.offer_url == Some(*d.url)
        &&& d.offer_tokens == &self.offer_url_tokens
        &&& d.payout_type == self.payout_type
        &&& d.payout_value == self.payout_value
        &&& d.currency == self.payout_currency
        &&& self.offer_source == Some(*d.offer_source)
        &&& d.notes == &self.notes
        &&& d.country == self.country
        &&& d.last_updated == now
    }

    /// The offer to send for account `account_id`, under `fresh_id` for a
    /// new offer or under the saved offer's id for an update, stamped `now`.
    pub fn build_draft(
        &self,
        modal_type: ModalType,
        restored: &Option<OfferRecord>,
        account_id: u128,
        fresh_id: u128,
        now: i64,
    ) -> (d: OfferDraft<'_>)
        requires
            self.offer_source is Some,
            self.offer_url is Some,
            modal_type == ModalType::Update ==> restored is Some,
        ensures
            self.is_draft_of(
                d,
                modal_type,
                account_id,
                match modal_type {
                    ModalType::Create => fresh_id,
                    ModalType::Update => restored.unwrap().offer_id,
                },
                now,
            ),
    {
        let offer_id = match modal_type {
            ModalType::Create => fresh_id,
            ModalType::Update => restored.as_ref().unwrap().offer_id,
        };
        let url = self.offer_url.as_ref().unwrap();
        let offer_source = self.offer_source.as_ref().unwrap();
        OfferDraft {
            request: modal_type,
            offer_id,
            account_id,
            conversion_tracking_method: ConversionTrackingMethod::PostbackURL,
            language: Language::Any,
            vertical: Vertical::Many,
            clearance: Clearance::Everyone,
            archived: false,
            name: &self.name,
            tags: &self.tags,
            url,
            offer_tokens: &self.offer_url_tokens,
            payout_type: self.payout_type,
            payout_value: self.payout_value,
            currency: self.payout_currency,
            offer_source,
            notes: &self.notes,
            country: self.country,
            last_updated: now,
        }
    }

    /// The offer to send on save: a new offer gets a random id; every draft
    /// is stamped with the current time.
    pub fn fetch(&self, modal_type: ModalType, restored: &Option<OfferRecord>, account_id: u128) -> (d:
        OfferDraft<'_>)
        requires
            self.offer_source is Some,
            self.offer_url is Some,
            modal_type == ModalType::Update ==> restored is Some,
        ensures
            self.is_draft_of(
                d,
                modal_type,
                account_id,
                match modal_type {
                    ModalType::Create => d.offer_id,
                    ModalType::Update => restored.unwrap().offer_id,
                },
                d.last_updated,
            ),
            d.last_updated >= 0,
    {
        let id = new_uuid();
        let now = now_millis();
        self.build_draft(modal_type, restored, account_id, id, now)
    }

    /// Saving: reports a missing offer source first, then a missing URL;
    /// otherwise the offer to send (see `fetch`).
    pub fn click(&self, modal_type: ModalType, restored: &Option<OfferRecord>, account_id: u128) -> (r:
        Result<OfferDraft<'_>, OfferNotice>)
        requires
            self.offer_source is Some && self.offer_url is Some && modal_type == ModalType::Update
                ==> restored is Some,
        ensures
            self.offer_source is None ==> r == Err::<OfferDraft<'_>, OfferNotice>(
                OfferNotice::NoOfferSource,
            ),
            self.offer_source is Some && self.offer_url is None ==> r == Err::<
                OfferDraft<'_>,
                OfferNotice,
            >(OfferNotice::NoOfferUrl),
            self.offer_source is Some && self.offer_url is Some ==> (r matches Ok(d)
                && self.is_draft_of(
                d,
                modal_type,
                account_id,
                match modal_type {
                    ModalType::Create => d.offer_id,
                    ModalType::Update => restored.unwrap().offer_id,
                },
                d.last_updated,
            )),
    {
        if self.offer_source.is_none() {
            return Err(OfferNotice::NoOfferSource);
        }
        if self.offer_url.is_none() {
            return Err(OfferNotice::NoOfferUrl);
        }
        Ok(self.fetch(modal_type, restored, account_id))
    }
}

/// Each field change sets the one field it names to the value it carries
/// and leaves every other field as it was: a picked payout currency, for
/// one, is the currency the offer then has and is saved in.
pub proof fn lemma_update_sets_named_field(o: CRUDOffer, msg: Msg)
    ensures
        o.after(msg).name == (match msg {
            Msg::UpdateName(v) => v,
            _ => o.name,
        }),
        o.after(msg).payout_currency == (match msg {
            Msg::UpdatePayoutCurrency(v) => v,
            _ => o.payout_currency,
        }),
        o.after(msg).notes == (match msg {
            Msg::UpdateNotes(v) => v,
            _ => o.notes,
        }),
        o.after(msg).offer_url_tokens == (match msg {
            Msg::UpdateOfferURLTokens(v) => v,
            _ => o.offer_url_tokens,
        }),
        o.after(msg).country == (match msg {
            Msg::UpdateCountry(v) => v,
            _ => o.country,
        }),
        o.after(msg).tags == (match msg {
            Msg::UpdateTags(v) => v,
            _ => o.tags,
        }),
        o.after(msg).payout_type == (match msg {
            Msg::UpdatePayoutType(v) => v,
            _ => o.payout_type,
        }),
        o.after(msg).payout_value == (match msg {
            Msg::UpdatePayoutValue(v) => v,
            _ => o.payout_value,
        }),
        o.after(msg).offer_source == (match msg {
            Msg::UpdateOfferSource(v) => Some(v),
            _ => o.offer_source,
        }),
        o.after(msg).offer_url == (match msg {
            Msg::UpdateUrl(v) => Some(v),
            _ => o.offer_url,
        }),
        o.after(msg).offer_url_string == o.offer_url_string,
        o.after(msg).conversion_cap_active == o.conversion_cap_active,
{
}

/// A payout currency picked in the editor is the currency of the offer it
/// sends.
pub proof fn lemma_picked_currency_is_sent(
    o: CRUDOffer,
    c: ItemCode,
    d: OfferDraft,
    modal_type: ModalType,
    account_id: u128,
    id: u128,
    now: i64,
)
    requires
        o.after(Msg::UpdatePayoutCurrency(c)).is_draft_of(d, modal_type, account_id, id, now),
    ensures
        d.currency == c,
{
}


/// Whatever field is changed, the offer then sent carries the new value of
/// that field, with the id and time it is sent under.
pub proof fn lemma_edited_field_is_sent(
    o: CRUDOffer,
    msg: Msg,
    d: OfferDraft,
    modal_type: ModalType,
    account_id: u128,
    id: u128,
    now: i64,
)
    requires
        o.after(msg).is_draft_of(d, modal_type, account_id, id, now),
    ensures
        d.offer_id == id,
        d.account_id == account_id,
        d.request == modal_type,
        d.last_updated == now,
        match msg {
            Msg::UpdateName(v) => *d.name == v,
            Msg::UpdatePayoutCurrency(v) => d.currency == v,
            Msg::UpdateNotes(v) => *d.notes == v,
            Msg::UpdateOfferURLTokens(v) => *d.offer_tokens == v,
            Msg::UpdateOfferSource(v) => *d.offer_source == v,
            Msg::UpdateCountry(v) => d.country == v,
            Msg::UpdateTags(v) => *d.tags == v,
            Msg::UpdateUrl(v) => *d.url == v,
            Msg::UpdatePayoutType(v) => d.payout_type == v,
            Msg::UpdatePayoutValue(v) => d.payout_value == v,
        },
{
}

} // verus!
