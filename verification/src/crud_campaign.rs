//! The campaign editor: where a campaign's traffic goes (a funnel or a single
//! sequence), what it costs, and what is sent when it is saved.

use vstd::prelude::*;
use crate::crud_funnels::FunnelRecord;
use crate::model::{
    Clearance, Country, DecimalValue, ModalType, RedirectOption, Sequence, TrafficSourceRef,
};
use crate::outside::{decimal_from_str, new_uuid, now_millis, parse_decimal};

verus! {

/// How the cost of a campaign is counted.
#[derive(Clone, Copy, Debug, PartialEq, Eq, Structural)]
pub enum CostModel {
    NotTracked,
    CPC,
    CPA,
    CPM,
    RevShare,
}

/// Whether a campaign sends its traffic to a funnel or to one sequence.
#[derive(Clone, Copy, Debug, PartialEq, Eq, Structural)]
pub enum CampaignDestinationType {
    Funnel,
    Sequence,
}

/// The two tabs of a saved campaign.
#[derive(Clone, Copy, Debug, PartialEq, Eq, Structural)]
pub enum Tab {
    Build,
    Info,
}

/// Why a campaign cannot be saved or edited.
#[derive(Clone, Copy, Debug, PartialEq, Eq, Structural)]
pub enum CampaignNotice {
    NoFunnelSelected,
    NoSequenceSelected,
    NoTrafficSourceSelected,
    /// The typed cost is not a number.
    InvalidCostValue,
}

/// A saved campaign, as far as the editor reads it back.
#[derive(Debug)]
pub struct CampaignRecord {
    pub campaign_id: u128,
    pub name: String,
    pub notes: String,
    pub country: Country,
    pub traffic_source: TrafficSourceRef,
    pub campaign_destination: CampaignDestinationType,
    pub cost_value: DecimalValue,
    pub cost_model: CostModel,
    /// Where the traffic goes: a funnel, or a sequence.
    pub campaign_core: CampaignCoreOwned,
    pub last_clicked: i64,
}

/// Where a saved campaign's traffic goes.
#[derive(Debug)]
pub enum CampaignCoreOwned {
    Funnel(FunnelRecord),
    Sequence(Sequence),
}

/// The state of the campaign editor.
#[derive(Debug)]
pub struct CRUDCampaign {
    pub name: String,
    pub country: Country,
    pub traffic_source: Option<TrafficSourceRef>,
    /// The tracking domain, as a URL serialization.
    pub tracking_domain: String,
    pub destination_type: CampaignDestinationType,
    pub funnel: Option<FunnelRecord>,
    pub sequence: Option<Sequence>,
    pub cost_model: CostModel,
    pub cost_value: DecimalValue,
    pub is_saved: bool,
    pub tab: Tab,
    pub notes: String,
}

/// Where a campaign about to be saved sends its traffic.
#[derive(Debug)]
pub enum CampaignCore<'a> {
    Funnel(&'a FunnelRecord),
    Sequence(&'a Sequence),
}

/// What is sent when a campaign is saved.
#[derive(Debug)]
pub struct CampaignDraft<'a> {
    /// Whether the request creates the campaign or updates the saved one.
    pub request: ModalType,
    pub campaign_id: u128,
    pub account_id: u128,
    pub clearance: Clearance,
    pub redirect_option: RedirectOption,
    pub archived: bool,
    /// The hosts the campaign serves, sent empty.
    pub hosts: Vec<String>,
    pub name: &'a String,
    pub country: Country,
    pub cost_model: CostModel,
    pub traffic_source: &'a TrafficSourceRef,
    pub campaign_destination: CampaignDestinationType,
    pub campaign_core: CampaignCore<'a>,
    pub notes: &'a String,
    pub cost_value: DecimalValue,
    pub last_updated: i64,
    pub last_clicked: i64,
}

/// What a cost field asks for.
#[derive(Clone, Copy, Debug, PartialEq, Eq, Structural)]
pub enum CostField {
    /// A cost in the traffic source's currency.
    Cost,
    /// A percentage of revenue.
    PercentageShare,
    /// No field.
    Hidden,
}

/// The zero decimal.
pub open spec fn zero_decimal() -> DecimalValue {
    DecimalValue { mantissa: 0, scale: 0 }
}

impl CRUDCampaign {
    /// The destination that the destination type asks for is picked.
    pub open spec fn has_destination(self) -> bool {
        match self.destination_type {
            CampaignDestinationType::Funnel => self.funnel is Some,
            CampaignDestinationType::Sequence => self.sequence is Some,
        }
    }

    /// At most one destination is held: a funnel or a sequence, not both.
    pub open spec fn one_destination(self) -> bool {
        !(self.funnel is Some && self.sequence is Some)
    }

    /// The campaign can be saved: its destination and traffic source are
    /// picked.
    pub open spec fn can_save(self) -> bool {
        self.has_destination() && self.traffic_source is Some
    }

    /// What is reported when the campaign cannot be saved: the missing
    /// destination first, then the missing traffic source.
    pub open spec fn save_notice(self) -> CampaignNotice {
        if !self.has_destination() {
            self.missing_destination()
        } else {
            CampaignNotice::NoTrafficSourceSelected
        }
    }

    /// `d` carries the editor's fields for account `account_id`, as a
    /// request of kind `modal_type`: its name, country, cost model and value,
    /// notes, traffic source, destination type, and the funnel or sequence
    /// that the destination type picks; visible to everyone, redirecting, not
    /// archived, and with no hosts.
    pub open spec fn is_draft_of(self, d: CampaignDraft, modal_type: ModalType, account_id: u128) -> bool {
        &&& d.request == modal_type
        &&& d.account_id == account_id
        &&& d.clearance == Clearance::Everyone
        &&& d.redirect_option == RedirectOption::Redirect
        &&& !d.archived
        &&& d.hosts@.len() == 0
        &&& self.traffic_source matches Some(ts) && d.traffic_source == &ts
        &&& d.name == &self.name
        &&& d.notes == &self.notes
        &&& d.country == self.country
        &&& d.cost_model == self.cost_model
        &&& d.cost_value == self.cost_value
        &&& d.campaign_destination == self.destination_type
        &&& d.campaign_core == match self.destination_type {
            CampaignDestinationType::Funnel => CampaignCore::Funnel(&self.funnel.unwrap()),
            CampaignDestinationType::Sequence => CampaignCore::Sequence(&self.sequence.unwrap()),
        }
    }

    /// What is reported when the destination is not picked.
    pub open spec fn missing_destination(self) -> CampaignNotice {
        match self.destination_type {
            CampaignDestinationType::Funnel => CampaignNotice::NoFunnelSelected,
            CampaignDestinationType::Sequence => CampaignNotice::NoSequenceSelected,
        }
    }

    /// The editor as it opens, for the account's main domain.
    pub fn create(main_domain: String) -> (r: CRUDCampaign)
        ensures
            r.one_destination(),
            r.name@ == "New Campaign"@,
            r.country == Country::Global,
            r.traffic_source is None,
            r.tracking_domain == main_domain,
            r.destination_type == CampaignDestinationType::Funnel,
            r.funnel is None,
            r.sequence is None,
            r.cost_model == CostModel::NotTracked,
            r.cost_value == zero_decimal(),
            r.notes@.len() == 0,
            !r.is_saved,
            r.tab == Tab::Build,
    {
        CRUDCampaign {
            name: String::from_str("New Campaign"),
            country: Country::Global,
            traffic_source: None,
            tracking_domain: main_domain,
            destination_type: CampaignDestinationType::Funnel,
            funnel: None,
            sequence: None,
            cost_model: CostModel::NotTracked,
            cost_value: DecimalValue { mantissa: 0, scale: 0 },
            notes: String::new(),
            is_saved: false,
            tab: Tab::Build,
        }
    }

    /// Reads the typed cost; keeps the old one where it is not a number.
    pub fn update_cost_value(&mut self, input: &str) -> (r: Result<(), CampaignNotice>)
        ensures
            old(self).one_destination() ==> final(self).one_destination(),
            match decimal_from_str(input@) {
                Some(d) => r is Ok && *final(self) == (CRUDCampaign { cost_value: d, ..*old(self) }),
                None => r == Err::<(), CampaignNotice>(CampaignNotice::InvalidCostValue)
                    && *final(self) == *old(self),
            },
    {
        match parse_decimal(input) {
            Some(d) => {
                self.cost_value = d;
                Ok(())
            },
            None => Err(CampaignNotice::InvalidCostValue),
        }
    }

    /// Picks a single sequence as destination, dropping any funnel.
    pub fn update_sequence(&mut self, seq: Sequence)
        ensures
            final(self).one_destination(),
            *final(self) == (CRUDCampaign { funnel: None, sequence: Some(seq), ..*old(self) }),
    {
        self.funnel = None;
        self.sequence = Some(seq);
    }

    /// Picks a funnel as destination, dropping any sequence.
    pub fn select_funnel(&mut self, funnel: FunnelRecord)
        ensures
            final(self).one_destination(),
            *final(self) == (CRUDCampaign { sequence: None, funnel: Some(funnel), ..*old(self) }),
    {
        self.sequence = None;
        self.funnel = Some(funnel);
    }

    /// Picks the kind of destination.
    pub fn select_destination_type(&mut self, dest: CampaignDestinationType)
        ensures
            old(self).one_destination() ==> final(self).one_destination(),
            *final(self) == (CRUDCampaign { destination_type: dest, ..*old(self) }),
    {
        self.destination_type = dest;
    }

    /// Picks the traffic source.
    pub fn select_traffic_source(&mut self, ts: TrafficSourceRef)
        ensures
            old(self).one_destination() ==> final(self).one_destination(),
            *final(self) == (CRUDCampaign { traffic_source: Some(ts), ..*old(self) }),
    {
        self.traffic_source = Some(ts);
    }

    /// Picks the country.
    pub fn select_country(&mut self, c: Country)
        ensures
            old(self).one_destination() ==> final(self).one_destination(),
            *final(self) == (CRUDCampaign { country: c, ..*old(self) }),
    {
        self.country = c;
    }

    /// Picks the cost model.
    pub fn select_cost_model(&mut self, cm: CostModel)
        ensures
            old(self).one_destination() ==> final(self).one_destination(),
            *final(self) == (CRUDCampaign { cost_model: cm, ..*old(self) }),
    {
        self.cost_model = cm;
    }

    /// Picks the tracking domain.
    pub fn tracking_domain(&mut self, url: String)
        ensures
            old(self).one_destination() ==> final(self).one_destination(),
            *final(self) == (CRUDCampaign { tracking_domain: url, ..*old(self) }),
    {
        self.tracking_domain = url;
    }

    /// Shows a tab.
    pub fn switch(&mut self, tab: Tab)
        ensures
            old(self).one_destination() ==> final(self).one_destination(),
            *final(self) == (CRUDCampaign { tab, ..*old(self) }),
    {
        self.tab = tab;
    }

    /// Sets the name.
    pub fn update_name(&mut self, name: String)
        ensures
            old(self).one_destination() ==> final(self).one_destination(),
            *final(self) == (CRUDCampaign { name, ..*old(self) }),
    {
        self.name = name;
    }

    /// Sets the notes.
    pub fn update_notes(&mut self, notes: String)
        ensures
            old(self).one_destination() ==> final(self).one_destination(),
            *final(self) == (CRUDCampaign { notes, ..*old(self) }),
    {
        self.notes = notes;
    }

    /// Records that the campaign was saved: the info tab shows.
    pub fn saved(&mut self)
        ensures
            old(self).one_destination() ==> final(self).one_destination(),
            *final(self) == (CRUDCampaign { tab: Tab::Info, is_saved: true, ..*old(self) }),
    {
        self.tab = Tab::Info;
        self.is_saved = true;
    }

    /// Loads a saved campaign (its info tab showing), or resets the editor
    /// to a new campaign (build tab, cost per click); the tracking domain is
    /// the account's main domain either way.
    pub fn change(&mut self, restored: Option<CampaignRecord>, main_domain: String)
        ensures
            final(self).one_destination(),
            final(self).tracking_domain == main_domain,
            match restored {
                Some(c) => {
                    &&& final(self).tab == Tab::Info
                    &&& final(self).is_saved
                    &&& final(self).name == c.name
                    &&& final(self).notes == c.notes
                    &&& final(self).country == c.country
                    &&& final(self).traffic_source == Some(c.traffic_source)
                    &&& final(self).destination_type == c.campaign_destination
                    &&& final(self).cost_value == c.cost_value
                    &&& final(self).cost_model == c.cost_model
                    &&& match c.campaign_core {
                        CampaignCoreOwned::Funnel(f) => final(self).funnel == Some(f)
                            && final(self).sequence is None,
                        CampaignCoreOwned::Sequence(s) => final(self).sequence == Some(s)
                            && final(self).funnel is None,
                    }
                },
                None => {
                    &&& final(self).tab == Tab::Build
                    &&& !final(self).is_saved
                    &&& final(self).name@ == "New Campaign"@
                    &&& final(self).traffic_source is None
                    &&& final(self).country == Country::Global
                    &&& final(self).notes@.len() == 0
                    &&& final(self).destination_type == CampaignDestinationType::Funnel
                    &&& final(self).funnel is None
                    &&& final(self).sequence is None
                    &&& final(self).cost_model == CostModel::CPC
                    &&& final(self).cost_value == zero_decimal()
                },
            },
    {
        match restored {
            Some(c) => {
                self.tab = Tab::Info;
                self.is_saved = true;
                self.name = c.name;
                self.notes = c.notes;
                self.country = c.country;
                self.traffic_source = Some(c.traffic_source);
                self.tracking_domain = main_domain;
                self.destination_type = c.campaign_destination;
                self.cost_value = c.cost_value;
                match c.campaign_core {
                    CampaignCoreOwned::Funnel(f) => {
                        self.funnel = Some(f);
                        self.sequence = None;
                    },
                    CampaignCoreOwned::Sequence(s) => {
                        self.sequence = Some(s);
                        self.funnel = None;
                    },
                }
                self.cost_model = c.cost_model;
            },
            None => {
                self.tab = Tab::Build;
                self.is_saved = false;
                self.name = String::from_str("New Campaign");
                self.traffic_source = None;
                self.country = Country::Global;
                self.notes = String::new();
                self.tracking_domain = main_domain;
                self.destination_type = CampaignDestinationType::Funnel;
                self.funnel = None;
                self.sequence = None;
                self.cost_model = CostModel::CPC;
                self.cost_value = DecimalValue { mantissa: 0, scale: 0 };
            },
        }
    }

    /// The cost field the form shows for the cost model.
    pub fn render_cost_value(&self) -> (r: CostField)
        ensures
            r == (if self.cost_model == CostModel::CPC || self.cost_model == CostModel::CPA
                || self.cost_model == CostModel::CPM {
                CostField::Cost
            } else if self.cost_model == CostModel::RevShare {
                CostField::PercentageShare
            } else {
                CostField::Hidden
            }),
    {
        if self.cost_model == CostModel::CPC || self.cost_model == CostModel::CPA
            || self.cost_model == CostModel::CPM {
            CostField::Cost
        } else if self.cost_model == CostModel::RevShare {
            CostField::PercentageShare
        } else {
            CostField::Hidden
        }
    }

    /// The currency the cost is shown in: the traffic source's, or US dollars
    /// (`usd`) where none is picked.
    pub fn cost_currency(&self, usd: u32) -> (r: u32)
        ensures
            r == (match self.traffic_source {
                Some(ts) => ts.currency,
                None => usd,
            }),
    {
        match &self.traffic_source {
            Some(ts) => ts.currency,
            None => usd,
        }
    }

    /// Where the traffic goes, as the destination type asks; reports the
    /// missing pick.
    pub fn campaign_core(&self) -> (r: Result<CampaignCore<'_>, CampaignNotice>)
        ensures
            match self.destination_type {
                CampaignDestinationType::Funnel => match self.funnel {
                    Some(f) => r == Ok::<CampaignCore<'_>, CampaignNotice>(CampaignCore::Funnel(&f)),
                    None => r == Err::<CampaignCore<'_>, CampaignNotice>(CampaignNotice::NoFunnelSelected),
                },
                CampaignDestinationType::Sequence => match self.sequence {
                    Some(s) => r == Ok::<CampaignCore<'_>, CampaignNotice>(CampaignCore::Sequence(&s)),
                    None => r == Err::<CampaignCore<'_>, CampaignNotice>(CampaignNotice::NoSequenceSelected),
                },
            },
    {
        match self.destination_type {
            CampaignDestinationType::Funnel => match &self.funnel {
                Some(f) => Ok(CampaignCore::Funnel(f)),
                None => Err(CampaignNotice::NoFunnelSelected),
            },
            CampaignDestinationType::Sequence => match &self.sequence {
                Some(s) => Ok(CampaignCore::Sequence(s)),
                None => Err(CampaignNotice::NoSequenceSelected),
            },
        }
    }

    /// What is sent on save, given a fresh id and the time: a created
    /// campaign takes the fresh id and is last clicked now; an updated one
    /// keeps the saved id and last click. Reports a missing destination first,
    /// then a missing traffic source.
    pub fn build_draft(
        &self,
        modal_type: ModalType,
        restored: &Option<CampaignRecord>,
        account_id: u128,
        fresh_id: u128,
        now: i64,
    ) -> (r: Result<CampaignDraft<'_>, CampaignNotice>)
        requires
            self.can_save() && modal_type == ModalType::Update ==> restored is Some,
        ensures
            match r {
                Ok(d) => {
                    &&& self.can_save()
                    &&& self.is_draft_of(d, modal_type, account_id)
                    &&& d.last_updated == now
                    &&& match modal_type {
                        ModalType::Create => d.campaign_id == fresh_id && d.last_clicked == now,
                        ModalType::Update => d.campaign_id == restored.unwrap().campaign_id
                            && d.last_clicked == restored.unwrap().last_clicked,
                    }
                },
                Err(e) => !self.can_save() && e == self.save_notice(),
            },
    {
        let core = match self.campaign_core() {
            Ok(c) => c,
            Err(e) => return Err(e),
        };
        let ts = match &self.traffic_source {
            Some(ts) => ts,
            None => return Err(CampaignNotice::NoTrafficSourceSelected),
        };
        let (campaign_id, last_clicked) = match modal_type {
            ModalType::Create => (fresh_id, now),
            ModalType::Update => {
                let c = restored.as_ref().unwrap();
                (c.campaign_id, c.last_clicked)
            },
        };
        Ok(
            CampaignDraft {
                request: modal_type,
                campaign_id,
                account_id,
                clearance: Clearance::Everyone,
                redirect_option: RedirectOption::Redirect,
                archived: false,
                hosts: Vec::new(),
                name: &self.name,
                country: self.country,
                cost_model: self.cost_model,
                traffic_source: ts,
                campaign_destination: self.destination_type,
                campaign_core: core,
                notes: &self.notes,
                cost_value: self.cost_value,
                last_updated: now,
                last_clicked,
            },
        )
    }

    /// What is sent on save (see `build_draft`), under a random id for a new
    /// campaign and stamped with the current time.
    pub fn fetch(&self, modal_type: ModalType, restored: &Option<CampaignRecord>, account_id: u128) -> (r: Result<
        CampaignDraft<'_>,
        CampaignNotice,
    >)
        requires
            self.can_save() && modal_type == ModalType::Update ==> restored is Some,
        ensures
            match r {
                Ok(d) => {
                    &&& self.can_save()
                    &&& self.is_draft_of(d, modal_type, account_id)
                    &&& d.last_updated >= 0
                    &&& modal_type == ModalType::Update ==> d.campaign_id == restored.unwrap().campaign_id
                        && d.last_clicked == restored.unwrap().last_clicked
                    &&& modal_type == ModalType::Create ==> d.last_clicked == d.last_updated
                },
                Err(e) => !self.can_save() && e == self.save_notice(),
            },
    {
        let id = new_uuid();
        let now = now_millis();
        self.build_draft(modal_type, restored, account_id, id, now)
    }
}


/// A campaign that cannot be saved is answered with what is missing: the
/// funnel or sequence that its destination type asks for, before the
/// traffic source; a campaign with both picked can be saved.
pub proof fn lemma_save_notice_names_missing(c: CRUDCampaign)
    ensures
        c.can_save() <==> (c.has_destination() && c.traffic_source is Some),
        !c.has_destination() && c.destination_type == CampaignDestinationType::Funnel ==> c.funnel is None
            && c.save_notice() == CampaignNotice::NoFunnelSelected,
        !c.has_destination() && c.destination_type == CampaignDestinationType::Sequence ==> c.sequence
            is None && c.save_notice() == CampaignNotice::NoSequenceSelected,
        c.has_destination() && c.traffic_source is None ==> c.save_notice()
            == CampaignNotice::NoTrafficSourceSelected,
{
}

/// A saved campaign sends its traffic where its destination type says: to
/// the picked funnel, or to the picked sequence, with the picked traffic
/// source and the editor's name, notes, country and costs.
pub proof fn lemma_draft_follows_destination(
    c: CRUDCampaign,
    d: CampaignDraft,
    modal_type: ModalType,
    account_id: u128,
)
    requires
        c.can_save(),
        c.is_draft_of(d, modal_type, account_id),
    ensures
        c.destination_type == CampaignDestinationType::Funnel ==> d.campaign_core == CampaignCore::Funnel(
            &c.funnel->Some_0,
        ),
        c.destination_type == CampaignDestinationType::Sequence ==> d.campaign_core
            == CampaignCore::Sequence(&c.sequence->Some_0),
        d.campaign_destination == c.destination_type,
        *d.traffic_source == c.traffic_source->Some_0,
        *d.name == c.name,
        *d.notes == c.notes,
        d.country == c.country,
        d.cost_model == c.cost_model,
        d.cost_value == c.cost_value,
{
}

} // verus!
