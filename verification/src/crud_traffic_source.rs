//! The traffic source editor: the URL parameters a traffic source passes, its
//! postback URL, and what is sent when it is saved.

use vstd::prelude::*;
use crate::condition_view::ItemCode;
use crate::model::{Clearance, ModalType};
use crate::outside::{new_uuid, now_millis};
use crate::selectors::{CustomParameter, TokenParameter};

verus! {

/// A saved traffic source, as far as the editor reads it back.
#[derive(Debug)]
pub struct TrafficSourceRecord {
    pub traffic_source_id: u128,
    pub name: String,
    pub notes: String,
    pub external_id_token_data: TokenParameter,
    pub cost_token_data: TokenParameter,
    pub custom_token_data: Vec<CustomParameter>,
    pub currency: ItemCode,
    /// The postback URL, serialized.
    pub traffic_source_postback_url: Option<String>,
}

/// The state of the traffic source editor.
#[derive(Debug)]
pub struct CRUDTrafficSource {
    pub name: String,
    pub external_id_token_data: TokenParameter,
    pub cost_token_data: TokenParameter,
    pub custom_token_data: Vec<CustomParameter>,
    pub currency: ItemCode,
    /// The postback URL, serialized.
    pub traffic_source_postback_url: Option<String>,
    pub traffic_source_postback_url_tokens: Vec<ItemCode>,
    pub notes: String,
    pub traffic_source_postback_url_is_active: bool,
    pub traffic_source_postback_url_for_each_event_is_active: bool,
    pub pixel_redirect_url_is_active: bool,
    pub impression_tracking_is_active: bool,
    pub direct_tracking_is_active: bool,
}

/// A change that a field of the traffic source editor hands over.
#[derive(Debug)]
pub enum Msg {
    UpdateName(String),
    UpdateNotes(String),
    UpdateDataURLTokens(Vec<ItemCode>),
    UpdateExternalID(TokenParameter),
    UpdateCost(TokenParameter),
    UpdateCustom(Vec<CustomParameter>),
    UpdateCurrency(ItemCode),
    ToggleTrafficSourcePostbackURL,
    UpdateUrl(String),
}

/// What is sent when a traffic source is saved. Every saved traffic source
/// is visible to everyone, has no pixel redirect, tracks neither impressions
/// nor direct visits, is not archived, and is sent with no postback per
/// custom event.
#[derive(Debug)]
pub struct TrafficSourceDraft<'a> {
    /// Whether the request creates the traffic source or updates the saved one.
    pub request: ModalType,
    pub traffic_source_id: u128,
    pub account_id: u128,
    pub clearance: Clearance,
    /// The pixel redirect URL, serialized.
    pub pixel_redirect_url: Option<String>,
    pub track_impressions: bool,
    pub direct_tracking: bool,
    pub archived: bool,
    pub name: &'a String,
    pub external_id_token_data: &'a TokenParameter,
    pub cost_token_data: &'a TokenParameter,
    pub custom_token_data: &'a Vec<CustomParameter>,
    pub currency: ItemCode,
    pub traffic_source_postback_url: &'a Option<String>,
    pub notes: &'a String,
    /// Milliseconds since the Unix epoch.
    pub last_updated: i64,
}

/// `t` has empty texts.
pub open spec fn is_blank_token(t: TokenParameter) -> bool {
    t.parameter@.len() == 0 && t.placeholder@.len() == 0
}

/// A parameter with empty texts.
fn blank_token() -> (t: TokenParameter)
    ensures
        is_blank_token(t),
{
    TokenParameter { parameter: String::new(), placeholder: String::new() }
}

impl CRUDTrafficSource {
    /// The editor after the field change `msg`.
    pub open spec fn after(self, msg: Msg) -> CRUDTrafficSource {
        match msg {
            Msg::UpdateName(v) => CRUDTrafficSource { name: v, ..self },
            Msg::UpdateNotes(v) => CRUDTrafficSource { notes: v, ..self },
            Msg::UpdateDataURLTokens(v) => CRUDTrafficSource {
                traffic_source_postback_url_tokens: v,
                ..self
            },
            Msg::UpdateExternalID(v) => CRUDTrafficSource { external_id_token_data: v, ..self },
            Msg::UpdateCost(v) => CRUDTrafficSource { cost_token_data: v, ..self },
            Msg::UpdateCustom(v) => CRUDTrafficSource { custom_token_data: v, ..self },
            Msg::UpdateCurrency(v) => CRUDTrafficSource { currency: v, ..self },
            Msg::ToggleTrafficSourcePostbackURL => CRUDTrafficSource {
                traffic_source_postback_url_is_active: !self.traffic_source_postback_url_is_active,
                ..self
            },
            Msg::UpdateUrl(v) => CRUDTrafficSource { traffic_source_postback_url: Some(v), ..self },
        }
    }

    /// The editor as it opens: empty texts and parameters, no postback URL,
    /// costs in US dollars (`usd`), every switch off.
    pub fn create(usd: ItemCode) -> (r: CRUDTrafficSource)
        ensures
            r.name@.len() == 0,
            is_blank_token(r.external_id_token_data),
            is_blank_token(r.cost_token_data),
            r.custom_token_data@.len() == 0,
            r.currency == usd,
            r.traffic_source_postback_url is None,
            r.traffic_source_postback_url_tokens@.len() == 0,
            r.notes@.len() == 0,
            !r.traffic_source_postback_url_is_active,
            !r.traffic_source_postback_url_for_each_event_is_active,
            !r.pixel_redirect_url_is_active,
            !r.impression_tracking_is_active,
            !r.direct_tracking_is_active,
    {
        CRUDTrafficSource {
            name: String::new(),
            external_id_token_data: blank_token(),
            cost_token_data: blank_token(),
            custom_token_data: Vec::new(),
            currency: usd,
            traffic_source_postback_url: None,
            traffic_source_postback_url_tokens: Vec::new(),
            notes: String::new(),
            traffic_source_postback_url_is_active: false,
            traffic_source_postback_url_for_each_event_is_active: false,
            pixel_redirect_url_is_active: false,
            impression_tracking_is_active: false,
            direct_tracking_is_active: false,
        }
    }

    /// Takes a field change.
    pub fn update(&mut self, msg: Msg)
        ensures
            *final(self) == old(self).after(msg),
    {
        match msg {
            Msg::UpdateName(v) => self.name = v,
            Msg::UpdateNotes(v) => self.notes = v,
            Msg::UpdateDataURLTokens(v) => self.traffic_source_postback_url_tokens = v,
            Msg::UpdateExternalID(v) => self.external_id_token_data = v,
            Msg::UpdateCost(v) => self.cost_token_data = v,
            Msg::UpdateCustom(v) => self.custom_token_data = v,
            Msg::UpdateCurrency(v) => self.currency = v,
            Msg::ToggleTrafficSourcePostbackURL => {
                self.traffic_source_postback_url_is_active =
                !self.traffic_source_postback_url_is_active;
            },
            Msg::UpdateUrl(v) => self.traffic_source_postback_url = Some(v),
        }
    }

    /// Loads a saved traffic source into the editor (its postback tokens and
    /// switches stay as they are), or empties it, costs back in US dollars
    /// (`usd`); the switches stay as they are either way.
    pub fn change(&mut self, restored: Option<TrafficSourceRecord>, usd: ItemCode)
        ensures
            final(self).traffic_source_postback_url_is_active
                == old(self).traffic_source_postback_url_is_active,
            final(self).traffic_source_postback_url_for_each_event_is_active
                == old(self).traffic_source_postback_url_for_each_event_is_active,
            final(self).pixel_redirect_url_is_active == old(self).pixel_redirect_url_is_active,
            final(self).impression_tracking_is_active == old(self).impression_tracking_is_active,
            final(self).direct_tracking_is_active == old(self).direct_tracking_is_active,
            match restored {
                Some(t) => {
                    &&& final(self).name == t.name
                    &&& final(self).notes == t.notes
                    &&& final(self).external_id_token_data == t.external_id_token_data
                    &&& final(self).cost_token_data == t.cost_token_data
                    &&& final(self).custom_token_data == t.custom_token_data
                    &&& final(self).currency == t.currency
                    &&& final(self).traffic_source_postback_url == t.traffic_source_postback_url
                    &&& final(self).traffic_source_postback_url_tokens
                        == old(self).traffic_source_postback_url_tokens
                },
                None => {
                    &&& final(self).name@.len() == 0
                    &&& final(self).notes@.len() == 0
                    &&& is_blank_token(final(self).external_id_token_data)
                    &&& is_blank_token(final(self).cost_token_data)
                    &&& final(self).custom_token_data@.len() == 0
                    &&& final(self).currency == usd
                    &&& final(self).traffic_source_postback_url is None
                    &&& final(self).traffic_source_postback_url_tokens@.len() == 0
                },
            },
    {
        match restored {
            Some(t) => {
                self.name = t.name;
                self.notes = t.notes;
                self.external_id_token_data = t.external_id_token_data;
                self.cost_token_data = t.cost_token_data;
                self.custom_token_data = t.custom_token_data;
                self.currency = t.currency;
                self.traffic_source_postback_url = t.traffic_source_postback_url;
            },
            None => {
                self.name = String::new();
                self.notes = String::new();
                self.external_id_token_data = blank_token();
                self.cost_token_data = blank_token();
                self.custom_token_data = Vec::new();
                self.currency = usd;
                self.traffic_source_postback_url = None;
                self.traffic_source_postback_url_tokens = Vec::new();
            },
        }
    }

    /// `d` carries the editor's fields, under the id `id`, stamped `now`.
    pub open spec fn is_draft_of(
        self,
        d: TrafficSourceDraft,
        modal_type: ModalType,
        account_id: u128,
        id: u128,
        now: i64,
    ) -> bool {
        &&& d.request == modal_type
        &&& d.traffic_source_id == id
        &&& d.account_id == account_id
        &&& d.clearance == Clearance::Everyone
        &&& d.pixel_redirect_url is None
        &&& !d.track_impressions
        &&& !d.direct_tracking
        &&& !d.archived
        &&& d.name == &self.name
        &&& d.external_id_token_data == &self.external_id_token_data
        &&& d.cost_token_data == &self.cost_token_data
        &&& d.custom_token_data == &self.custom_token_data
        &&& d.currency == self.currency
        &&& d.traffic_source_postback_url == &self.traffic_source_postback_url
        &&& d.notes == &self.notes
        &&& d.last_updated == now
    }

    /// The traffic source to send for account `account_id`, under `fresh_id`
    /// when new or under the saved traffic source's id for an update, stamped
    /// `now`.
    pub fn build_draft(
        &self,
        modal_type: ModalType,
        restored: &Option<TrafficSourceRecord>,
        account_id: u128,
        fresh_id: u128,
        now: i64,
    ) -> (d: TrafficSourceDraft<'_>)
        requires
            modal_type == ModalType::Update ==> restored is Some,
        ensures
            self.is_draft_of(
                d,
                modal_type,
                account_id,
                match modal_type {
                    ModalType::Create => fresh_id,
                    ModalType::Update => restored.unwrap().traffic_source_id,
                },
                now,
            ),
    {
        let traffic_source_id = match modal_type {
            ModalType::Create => fresh_id,
            ModalType::Update => restored.as_ref().unwrap().traffic_source_id,
        };
        TrafficSourceDraft {
            request: modal_type,
            traffic_source_id,
            account_id,
            clearance: Clearance::Everyone,
            pixel_redirect_url: None,
            track_impressions: false,
            direct_tracking: false,
            archived: false,
            name: &self.name,
            external_id_token_data: &self.external_id_token_data,
            cost_token_data: &self.cost_token_data,
            custom_token_data: &self.custom_token_data,
            currency: self.currency,
            traffic_source_postback_url: &self.traffic_source_postback_url,
            notes: &self.notes,
            last_updated: now,
        }
    }

    /// The traffic source to send on save: a new one gets a random id; every
    /// draft is stamped with the current time.
    pub fn fetch(&self, modal_type: ModalType, restored: &Option<TrafficSourceRecord>, account_id: u128) -> (d:
        TrafficSourceDraft<'_>)
        requires
            modal_type == ModalType::Update ==> restored is Some,
        ensures
            self.is_draft_of(
                d,
                modal_type,
                account_id,
                match modal_type {
                    ModalType::Create => d.traffic_source_id,
                    ModalType::Update => restored.unwrap().traffic_source_id,
                },
                d.last_updated,
            ),
            d.last_updated >= 0,
    {
        let id = new_uuid();
        let now = now_millis();
        self.build_draft(modal_type, restored, account_id, id, now)
    }
}

/// Each field change sets the one field it names to the value it carries
/// (the postback switch flips) and leaves every other field as it was: a
/// picked cost currency, for one, is the currency the traffic source then
/// has and is saved in.
pub proof fn lemma_update_sets_named_field(t: CRUDTrafficSource, msg: Msg)
    ensures
        t.after(msg).name == (match msg {
            Msg::UpdateName(v) => v,
            _ => t.name,
        }),
        t.after(msg).notes == (match msg {
            Msg::UpdateNotes(v) => v,
            _ => t.notes,
        }),
        t.after(msg).traffic_source_postback_url_tokens == (match msg {
            Msg::UpdateDataURLTokens(v) => v,
            _ => t.traffic_source_postback_url_tokens,
        }),
        t.after(msg).external_id_token_data == (match msg {
            Msg::UpdateExternalID(v) => v,
            _ => t.external_id_token_data,
        }),
        t.after(msg).cost_token_data == (match msg {
            Msg::UpdateCost(v) => v,
            _ => t.cost_token_data,
        }),
        t.after(msg).custom_token_data == (match msg {
            Msg::UpdateCustom(v) => v,
            _ => t.custom_token_data,
        }),
        t.after(msg).currency == (match msg {
            Msg::UpdateCurrency(v) => v,
            _ => t.currency,
        }),
        t.after(msg).traffic_source_postback_url == (match msg {
            Msg::UpdateUrl(v) => Some(v),
            _ => t.traffic_source_postback_url,
        }),
        t.after(msg).traffic_source_postback_url_is_active == (match msg {
            Msg::ToggleTrafficSourcePostbackURL => !t.traffic_source_postback_url_is_active,
            _ => t.traffic_source_postback_url_is_active,
        }),
        t.after(msg).traffic_source_postback_url_for_each_event_is_active == t.traffic_source_postback_url_for_each_event_is_active,
        t.after(msg).pixel_redirect_url_is_active == t.pixel_redirect_url_is_active,
        t.after(msg).impression_tracking_is_active == t.impression_tracking_is_active,
        t.after(msg).direct_tracking_is_active == t.direct_tracking_is_active,
{
}

/// A cost currency picked in the editor is the currency of the traffic
/// source it sends.
pub proof fn lemma_picked_currency_is_sent(
    t: CRUDTrafficSource,
    c: ItemCode,
    d: TrafficSourceDraft,
    modal_type: ModalType,
    account_id: u128,
    id: u128,
    now: i64,
)
    requires
        t.after(Msg::UpdateCurrency(c)).is_draft_of(d, modal_type, account_id, id, now),
    ensures
        d.currency == c,
{
}

/// Switching the postback URL on or off twice gives the editor back as it
/// was.
pub proof fn lemma_postback_switch_twice(t: CRUDTrafficSource)
    ensures
        t.after(Msg::ToggleTrafficSourcePostbackURL).after(Msg::ToggleTrafficSourcePostbackURL) == t,
{
}


/// Whatever field is changed, the traffic source then sent carries the new
/// value of that field, with the id and time it is sent under.
pub proof fn lemma_edited_field_is_sent(
    t: CRUDTrafficSource,
    msg: Msg,
    d: TrafficSourceDraft,
    modal_type: ModalType,
    account_id: u128,
    id: u128,
    now: i64,
)
    requires
        t.after(msg).is_draft_of(d, modal_type, account_id, id, now),
    ensures
        d.traffic_source_id == id,
        d.account_id == account_id,
        d.request == modal_type,
        d.last_updated == now,
        match msg {
            Msg::UpdateName(v) => *d.name == v,
            Msg::UpdateNotes(v) => *d.notes == v,
            Msg::UpdateExternalID(v) => *d.external_id_token_data == v,
            Msg::UpdateCost(v) => *d.cost_token_data == v,
            Msg::UpdateCustom(v) => *d.custom_token_data == v,
            Msg::UpdateCurrency(v) => d.currency == v,
            Msg::UpdateUrl(v) => *d.traffic_source_postback_url == Some(v),
            _ => true,
        },
{
}

} // verus!
