use abe_frontend::crud_traffic_source::{CRUDTrafficSource, Msg, TrafficSourceRecord};
use abe_frontend::model::{save_outcome, ModalType, SaveOutcome};
use abe_frontend::selectors::TokenParameter;

fn token(p: &str) -> TokenParameter {
    TokenParameter { parameter: p.to_string(), placeholder: format!("{{{}}}", p) }
}

#[test]
fn traffic_source_opens_empty() {
    let t = CRUDTrafficSource::create(0);
    assert_eq!(t.name, "");
    assert_eq!(t.cost_token_data.parameter, "");
    assert!(t.custom_token_data.is_empty());
    assert!(t.traffic_source_postback_url.is_none());
    assert!(!t.traffic_source_postback_url_is_active);
}

#[test]
fn postback_switch_toggles() {
    let mut t = CRUDTrafficSource::create(0);
    t.update(Msg::ToggleTrafficSourcePostbackURL);
    assert!(t.traffic_source_postback_url_is_active);
    t.update(Msg::ToggleTrafficSourcePostbackURL);
    assert!(!t.traffic_source_postback_url_is_active);
}

#[test]
fn traffic_source_draft() {
    let mut t = CRUDTrafficSource::create(0);
    t.update(Msg::UpdateName("Ads".to_string()));
    t.update(Msg::UpdateCost(token("cost")));
    t.update(Msg::UpdateUrl("https://pb.example.com/".to_string()));
    let d = t.build_draft(ModalType::Create, &None, 42, 3, 4);
    assert_eq!(d.traffic_source_id, 3);
    assert_eq!(d.name, "Ads");
    assert_eq!(d.cost_token_data.placeholder, "{cost}");
    assert_eq!(d.traffic_source_postback_url.as_deref(), Some("https://pb.example.com/"));
    let saved = Some(TrafficSourceRecord {
        traffic_source_id: 11,
        name: "S".to_string(),
        notes: String::new(),
        external_id_token_data: token("id"),
        cost_token_data: token("c"),
        custom_token_data: vec![],
        currency: 2,
        traffic_source_postback_url: None,
    });
    assert_eq!(t.build_draft(ModalType::Update, &saved, 42, 3, 4).traffic_source_id, 11);
    assert_eq!(t.fetch(ModalType::Update, &saved, 42).traffic_source_id, 11);
}

#[test]
fn traffic_source_change_loads_or_resets() {
    let mut t = CRUDTrafficSource::create(0);
    t.update(Msg::UpdateDataURLTokens(vec![5]));
    t.change(
        Some(TrafficSourceRecord {
            traffic_source_id: 11,
            name: "S".to_string(),
            notes: "n".to_string(),
            external_id_token_data: token("id"),
            cost_token_data: token("c"),
            custom_token_data: vec![],
            currency: 2,
            traffic_source_postback_url: Some("https://p/".to_string()),
        }),
        0,
    );
    assert_eq!(t.name, "S");
    assert_eq!(t.currency, 2);
    assert_eq!(t.traffic_source_postback_url_tokens, vec![5]);
    t.change(None, 1);
    assert_eq!(t.currency, 1);
    assert!(t.traffic_source_postback_url_tokens.is_empty());
    assert_eq!(t.external_id_token_data.parameter, "");
}

#[test]
fn save_response_outcomes() {
    assert!(matches!(save_outcome::<u8, ()>(true, Ok(3)), SaveOutcome::FetchData(3)));
    assert!(matches!(save_outcome::<u8, ()>(true, Err(())), SaveOutcome::DeserializationFailed));
    assert!(matches!(save_outcome::<u8, ()>(false, Ok(3)), SaveOutcome::FetchFailed));
    assert!(matches!(save_outcome::<u8, ()>(false, Err(())), SaveOutcome::FetchFailed));
}
