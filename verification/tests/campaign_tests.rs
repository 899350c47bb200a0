use abe_frontend::crud_campaign::{
    CRUDCampaign, CampaignCore, CampaignDestinationType, CampaignNotice, CostField, CostModel, Tab,
};
use abe_frontend::crud_funnels::FunnelRecord;
use abe_frontend::model::{Country, DecimalValue, ModalType, ReferrerHandling, TrafficSourceRef};

fn traffic_source() -> TrafficSourceRef {
    TrafficSourceRef { traffic_source_id: 8, name: "ts".to_string(), currency: 3 }
}

fn funnel_record() -> FunnelRecord {
    FunnelRecord {
        funnel_id: 5,
        name: "f".to_string(),
        country: Country::Global,
        referrer_handling: ReferrerHandling::DoNothing,
        notes: String::new(),
        conditional_sequences: vec![],
        default_sequences: vec![],
    }
}

#[test]
fn campaign_opens_empty() {
    let c = CRUDCampaign::create("https://track.example.com/".to_string());
    assert_eq!(c.name, "New Campaign");
    assert_eq!(c.tracking_domain, "https://track.example.com/");
    assert_eq!(c.destination_type, CampaignDestinationType::Funnel);
    assert_eq!(c.cost_model, CostModel::NotTracked);
    assert_eq!(c.tab, Tab::Build);
    assert!(!c.is_saved);
}

#[test]
fn cost_value_is_parsed_as_decimal() {
    let mut c = CRUDCampaign::create(String::new());
    assert_eq!(c.update_cost_value("1.50"), Ok(()));
    assert_eq!(c.cost_value, DecimalValue { mantissa: 150, scale: 2 });
    assert_eq!(c.update_cost_value("abc"), Err(CampaignNotice::InvalidCostValue));
    assert_eq!(c.cost_value, DecimalValue { mantissa: 150, scale: 2 });
    assert_eq!(c.update_cost_value("-3"), Ok(()));
    assert_eq!(c.cost_value, DecimalValue { mantissa: -3, scale: 0 });
}

#[test]
fn cost_field_follows_cost_model() {
    let mut c = CRUDCampaign::create(String::new());
    assert_eq!(c.render_cost_value(), CostField::Hidden);
    c.select_cost_model(CostModel::CPM);
    assert_eq!(c.render_cost_value(), CostField::Cost);
    c.select_cost_model(CostModel::RevShare);
    assert_eq!(c.render_cost_value(), CostField::PercentageShare);
    assert_eq!(c.cost_currency(1), 1);
    c.select_traffic_source(traffic_source());
    assert_eq!(c.cost_currency(1), 3);
}

#[test]
fn missing_picks_are_reported_in_order() {
    let mut c = CRUDCampaign::create(String::new());
    assert_eq!(c.build_draft(ModalType::Create, &None, 42, 1, 2).unwrap_err(), CampaignNotice::NoFunnelSelected);
    c.select_destination_type(CampaignDestinationType::Sequence);
    assert_eq!(
        c.build_draft(ModalType::Create, &None, 42, 1, 2).unwrap_err(),
        CampaignNotice::NoSequenceSelected
    );
    c.select_destination_type(CampaignDestinationType::Funnel);
    c.select_funnel(funnel_record());
    assert_eq!(
        c.build_draft(ModalType::Create, &None, 42, 1, 2).unwrap_err(),
        CampaignNotice::NoTrafficSourceSelected
    );
    c.select_traffic_source(traffic_source());
    let d = c.build_draft(ModalType::Create, &None, 42, 1, 2).unwrap();
    assert_eq!(d.campaign_id, 1);
    assert_eq!(d.last_updated, 2);
    assert_eq!(d.last_clicked, 2);
    assert!(matches!(d.campaign_core, CampaignCore::Funnel(f) if f.funnel_id == 5));
    let d = c.fetch(ModalType::Create, &None, 42).unwrap();
    assert_ne!(d.campaign_id, 1);
}

#[test]
fn saving_shows_the_info_tab() {
    let mut c = CRUDCampaign::create(String::new());
    c.saved();
    assert!(c.is_saved);
    assert_eq!(c.tab, Tab::Info);
    c.change(None, "d".to_string());
    assert_eq!(c.tab, Tab::Build);
    assert_eq!(c.cost_model, CostModel::CPC);
    assert_eq!(c.tracking_domain, "d");
}

#[test]
fn draft_carries_the_chosen_destination_and_fields() {
    let mut c = CRUDCampaign::create(String::new());
    assert_eq!(c.fetch(ModalType::Update, &None, 42).unwrap_err(), CampaignNotice::NoFunnelSelected);
    c.select_funnel(funnel_record());
    assert_eq!(c.fetch(ModalType::Update, &None, 42).unwrap_err(), CampaignNotice::NoTrafficSourceSelected);
    c.select_traffic_source(traffic_source());
    c.select_country(Country::ISOCountry(9));
    c.select_cost_model(CostModel::CPA);
    c.update_cost_value("2.5").unwrap();
    c.update_notes("n".to_string());
    let d = c.fetch(ModalType::Create, &None, 42).unwrap();
    assert_eq!(d.country, Country::ISOCountry(9));
    assert_eq!(d.cost_model, CostModel::CPA);
    assert_eq!(d.cost_value, DecimalValue { mantissa: 25, scale: 1 });
    assert_eq!(d.notes, "n");
    assert!(matches!(d.campaign_core, CampaignCore::Funnel(_)));
}

#[test]
fn campaign_draft_fixed_fields_and_one_destination() {
    let mut c = CRUDCampaign::create(String::new());
    c.select_funnel(funnel_record());
    c.select_traffic_source(traffic_source());
    let d = c.build_draft(ModalType::Create, &None, 42, 1, 2).unwrap();
    assert_eq!(d.request, ModalType::Create);
    assert_eq!(d.account_id, 42);
    assert!(!d.archived);
    assert!(d.hosts.is_empty());
    assert_eq!(d.clearance, abe_frontend::model::Clearance::Everyone);
    assert_eq!(d.redirect_option, abe_frontend::model::RedirectOption::Redirect);
    assert!(c.funnel.is_some() && c.sequence.is_none());
}
