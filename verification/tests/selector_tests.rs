use abe_frontend::model::{LandingPage, Offer, ReferrerHandling, ReplaceReferrerList, WeightedOffer};
use abe_frontend::seqs::{find_code, toggle_code};
use abe_frontend::selectors::{
    highlighted_choice, CheckBox, CustomField, LanderURLTokenSelector, LandingPageSelector,
    OfferSelector, ReferrerHandlingChoice, ReferrerHandlingDropdown, SelectorNotice, TagsSelector,
    TrafficSourceUrlParameterConfig, MAX_CUSTOM_PARAMETERS,
};

fn offer(id: u128) -> WeightedOffer {
    WeightedOffer { weight: 100, offer: Offer { offer_id: id, name: format!("o{}", id) } }
}

fn page(id: u128) -> LandingPage {
    LandingPage { landing_page_id: id, name: "lp".to_string(), number_of_calls_to_action: 1, is_pre_landing_page: false }
}

#[test]
fn toggling_codes_twice_restores() {
    let mut v = vec![3, 1];
    toggle_code(&mut v, 2);
    assert_eq!(v, vec![3, 1, 2]);
    toggle_code(&mut v, 2);
    assert_eq!(v, vec![3, 1]);
    toggle_code(&mut v, 3);
    assert_eq!(v, vec![1]);
    assert_eq!(find_code(&v, 1), Some(0));
    assert_eq!(find_code(&v, 3), None);
}

#[test]
fn token_selector_toggles() {
    let mut t = LanderURLTokenSelector { selected: vec![] };
    t.on_select(4);
    t.on_select(5);
    t.on_select(4);
    assert_eq!(t.selected, vec![5]);
}

#[test]
fn offer_weights() {
    let mut s = OfferSelector::create(vec![vec![offer(1), offer(2)]]);
    assert_eq!(s.update_weight(0, 1, "30"), Ok(()));
    assert_eq!(s.offers[0][1].weight, 30);
    assert_eq!(s.update_weight(0, 1, "300"), Err(SelectorNotice::InvalidWeight));
    assert_eq!(s.update_weight(1, 0, "3"), Err(SelectorNotice::GroupNotFound));
    assert_eq!(s.update_weight(0, 5, "3"), Err(SelectorNotice::OfferNotFound));
    assert!(s.header_is_single_group());
    assert_eq!(s.offer_group_label(0), None);
    s.remove_offer(0, 0);
    assert_eq!(s.offers[0].len(), 1);
    assert_eq!(s.offers[0][0].offer.offer_id, 2);
}

#[test]
fn landing_page_weights() {
    let mut s = LandingPageSelector::create();
    s.select(page(1));
    assert_eq!(s.landing_pages[0].weight, 100);
    assert_eq!(s.update_weight(0, "5"), Ok(()));
    assert_eq!(s.landing_pages[0].weight, 5);
    assert_eq!(s.update_weight(0, "five"), Err(SelectorNotice::InvalidWeight));
    s.remove_landing_page(0);
    assert!(s.landing_pages.is_empty());
}

#[test]
fn tags_are_typed_then_entered() {
    let mut t = TagsSelector::create();
    t.on_input("blue".to_string());
    t.on_enter();
    assert_eq!(t.tags, vec!["blue".to_string()]);
    assert_eq!(t.tag, "");
    t.remove(0);
    assert!(t.tags.is_empty());
}

#[test]
fn custom_parameters_stop_at_ten() {
    let mut c = TrafficSourceUrlParameterConfig::create();
    for _ in 0..MAX_CUSTOM_PARAMETERS {
        assert_eq!(c.add_custom_variable(), Ok(()));
    }
    assert_eq!(c.add_custom_variable(), Err(SelectorNotice::TooManyCustomParameters));
    assert_eq!(c.custom.len(), 10);
    c.update_custom_variable(2, CustomField::Name, "sub".to_string());
    assert_eq!(c.custom[2].name, "sub");
    c.toggle_custom_variable_is_active(2);
    assert!(c.custom[2].is_tracked);
    c.remove_custom_variable(2);
    assert_eq!(c.custom.len(), 9);
    c.update_cost_parameter("cost".to_string());
    assert_eq!(c.cost.parameter, "cost");
}

#[test]
fn referrer_handling_picker() {
    assert_eq!(highlighted_choice(&None), ReferrerHandlingChoice::DoNothing);
    assert_eq!(highlighted_choice(&Some(ReferrerHandling::RemoveAll)), ReferrerHandlingChoice::RemoveAll);
    let list = ReplaceReferrerList { name_of_list: "L".to_string() };
    let mut d = ReferrerHandlingDropdown::create(&Some(ReferrerHandling::Replace(list.duplicate())));
    assert_eq!(d.list_name, "L");
    let r = d.select(ReferrerHandling::DoNothing);
    assert!(matches!(r, ReferrerHandling::DoNothing));
    let r = d.select_list(ReplaceReferrerList { name_of_list: "M".to_string() });
    assert!(matches!(r, ReferrerHandling::Replace(l) if l.name_of_list == "M"));
}

#[test]
fn check_box_flips() {
    let mut b = CheckBox { checked: false };
    assert!(b.toggle());
    assert!(!b.toggle());
}

#[test]
fn parameter_config_takes_owner_values() {
    let mut c = TrafficSourceUrlParameterConfig::create();
    c.change(
        abe_frontend::selectors::TokenParameter { parameter: "id".to_string(), placeholder: "{id}".to_string() },
        abe_frontend::selectors::TokenParameter { parameter: "c".to_string(), placeholder: "{c}".to_string() },
        vec![],
    );
    assert_eq!(c.external_id.parameter, "id");
    assert_eq!(c.cost.placeholder, "{c}");
}
