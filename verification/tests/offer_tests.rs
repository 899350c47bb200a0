use abe_frontend::crud_offer::{
    parse_payout_value, CRUDOffer, Msg, OfferNotice, OfferRecord, OfferSourceRef, PayoutType,
};
use abe_frontend::model::{
    Clearance, ConversionTrackingMethod, Country, DecimalValue, Language, ModalType, Vertical,
};

fn source() -> OfferSourceRef {
    OfferSourceRef { offer_source_id: 4, name: "src".to_string() }
}

fn record() -> OfferRecord {
    OfferRecord {
        offer_id: 9,
        name: "Saved".to_string(),
        tags: vec!["a".to_string()],
        offer_source: source(),
        url: "https://offer.example.com/".to_string(),
        offer_tokens: vec![1, 2],
        payout_type: PayoutType::Manual,
        payout_value: DecimalValue { mantissa: 25, scale: 1 },
        currency: 7,
        country: Country::ISOCountry(3),
        notes: "n".to_string(),
        has_conversion_cap: true,
    }
}

#[test]
fn offer_opens_empty() {
    let o = CRUDOffer::create(0);
    assert_eq!(o.payout_type, PayoutType::Auto);
    assert_eq!(o.payout_value, DecimalValue { mantissa: 0, scale: 0 });
    assert_eq!(o.payout_currency, 0);
    assert!(o.offer_source.is_none());
    assert!(o.offer_url.is_none());
    assert_eq!(o.country, Country::Global);
}

#[test]
fn payout_value_is_parsed() {
    assert_eq!(parse_payout_value("12.50"), Ok(DecimalValue { mantissa: 1250, scale: 2 }));
    assert_eq!(parse_payout_value("7"), Ok(DecimalValue { mantissa: 7, scale: 0 }));
    assert_eq!(parse_payout_value("seven"), Err(OfferNotice::InvalidPayoutValue));
    assert_eq!(parse_payout_value(""), Err(OfferNotice::InvalidPayoutValue));
}

#[test]
fn saving_needs_source_then_url() {
    let mut o = CRUDOffer::create(0);
    assert_eq!(o.click(ModalType::Create, &None, 42).unwrap_err(), OfferNotice::NoOfferSource);
    o.update(Msg::UpdateOfferSource(source()));
    assert_eq!(o.click(ModalType::Create, &None, 42).unwrap_err(), OfferNotice::NoOfferUrl);
    o.update(Msg::UpdateUrl("https://o.example.com/".to_string()));
    o.update(Msg::UpdateName("Offer".to_string()));
    o.update(Msg::UpdatePayoutValue(DecimalValue { mantissa: 3, scale: 0 }));
    let d = o.click(ModalType::Create, &None, 42).unwrap();
    assert_eq!(d.name, "Offer");
    assert_eq!(d.url, "https://o.example.com/");
    assert_eq!(d.offer_source.offer_source_id, 4);
    assert_eq!(d.payout_value, DecimalValue { mantissa: 3, scale: 0 });
}

#[test]
fn offer_draft_ids() {
    let mut o = CRUDOffer::create(0);
    o.change(Some(record()), 0);
    let saved = Some(record());
    assert_eq!(o.build_draft(ModalType::Create, &saved, 42, 100, 5).offer_id, 100);
    let d = o.build_draft(ModalType::Update, &saved, 42, 100, 5);
    assert_eq!(d.offer_id, 9);
    assert_eq!(d.last_updated, 5);
    assert_eq!(o.fetch(ModalType::Update, &saved, 42).offer_id, 9);
}

#[test]
fn offer_change_loads_or_resets() {
    let mut o = CRUDOffer::create(0);
    o.update(Msg::UpdateCountry(Country::ISOCountry(1)));
    o.change(Some(record()), 0);
    assert_eq!(o.name, "Saved");
    assert_eq!(o.offer_url_string, "https://offer.example.com/");
    assert_eq!(o.offer_url.as_deref(), Some("https://offer.example.com/"));
    assert_eq!(o.payout_type, PayoutType::Manual);
    assert_eq!(o.payout_currency, 7);
    assert!(o.conversion_cap_active);
    assert_eq!(o.country, Country::ISOCountry(1));
    o.change(None, 2);
    assert!(o.offer_source.is_none());
    assert_eq!(o.payout_currency, 2);
    assert_eq!(o.payout_type, PayoutType::Auto);
    assert!(!o.conversion_cap_active);
    assert_eq!(o.country, Country::ISOCountry(1));
}

#[test]
fn update_click_reports_missing_picks_before_needing_the_saved_offer() {
    let mut o = CRUDOffer::create(0);
    assert_eq!(o.click(ModalType::Update, &None, 42).unwrap_err(), OfferNotice::NoOfferSource);
    o.update(Msg::UpdateOfferSource(source()));
    assert_eq!(o.click(ModalType::Update, &None, 42).unwrap_err(), OfferNotice::NoOfferUrl);
}

#[test]
fn offer_draft_carries_the_fixed_fields() {
    let mut o = CRUDOffer::create(0);
    o.update(Msg::UpdateOfferSource(source()));
    o.update(Msg::UpdateUrl("https://o.example.com/".to_string()));
    let d = o.build_draft(ModalType::Create, &None, 42, 100, 5);
    assert_eq!(d.request, ModalType::Create);
    assert_eq!(d.account_id, 42);
    assert_eq!(d.conversion_tracking_method, ConversionTrackingMethod::PostbackURL);
    assert_eq!(d.clearance, Clearance::Everyone);
    assert_eq!(d.language, Language::Any);
    assert_eq!(d.vertical, Vertical::Many);
    assert!(!d.archived);
}
