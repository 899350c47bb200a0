use abe_frontend::crud_funnels::{
    row_is_selected, ActiveElement, CRUDFunnel, FunnelNotice, FunnelRecord, RightPanel,
    SequenceListRow,
};
use abe_frontend::model::{RedirectOption, Country, ModalType, ReferrerHandling, Sequence, SequenceType};
use abe_frontend::sequence_builders::{weight_from_input, MiniSequenceBuilder};

fn sequence(id: u128, name: &str) -> Sequence {
    Sequence {
        id,
        name: name.to_string(),
        weight: 100,
        sequence_type: SequenceType::OffersOnly,
        redirect_option: RedirectOption::Redirect,
        referrer_handling: ReferrerHandling::DoNothing,
        pre_landing_page: None,
        listicle_pairs: vec![],
        landing_pages: vec![],
        offers: vec![],
        weight_optimization_active: false,
        sequence_is_active: true,
    }
}

fn funnel() -> CRUDFunnel {
    CRUDFunnel::create_with_id(1)
}

#[test]
fn funnel_opens_with_one_default_sequence() {
    let f = funnel();
    assert_eq!(f.funnel_name, "New Funnel");
    assert_eq!(f.country, Country::Global);
    assert!(matches!(f.default_referrer_handling, ReferrerHandling::DoNothing));
    assert_eq!(f.default_sequences.len(), 1);
    let s = &f.default_sequences[0];
    assert_eq!(s.id, 1);
    assert_eq!(s.name, "New Default Sequence");
    assert_eq!(s.weight, 100);
    assert_eq!(s.sequence_type, SequenceType::OffersOnly);
    assert!(s.sequence_is_active);
    assert!(f.conditional_sequences.is_empty());
    assert_eq!(f.active_element, ActiveElement::Funnel);
}

#[test]
fn random_ids_differ() {
    let f = CRUDFunnel::create();
    let g = CRUDFunnel::create();
    assert_ne!(f.default_sequences[0].id, g.default_sequences[0].id);
}

#[test]
fn created_sequence_is_selected() {
    let mut f = funnel();
    f.create_sequence_with_id(ActiveElement::DefaultSequence(1), 2);
    assert_eq!(f.active_element, ActiveElement::DefaultSequence(2));
    assert_eq!(f.active_sequence().unwrap().id, 2);
    f.create_sequence_with_id(ActiveElement::Funnel, 10);
    assert_eq!(f.active_element, ActiveElement::ConditionalSequence(10, None));
    assert_eq!(f.conditional_sequences[0].name, "New Conditional Sequence");
    f.create_sequence_with_id(ActiveElement::ConditionalSequence(10, None), 11);
    assert_eq!(f.active_element, ActiveElement::ConditionalSequence(10, Some(11)));
    let s = f.active_sequence().unwrap();
    assert_eq!(s.id, 11);
    assert_eq!(s.name, "New Sequence");
}

#[test]
fn toggling_twice_restores() {
    let mut f = funnel();
    f.toggle_sequence_active(ActiveElement::DefaultSequence(1));
    assert!(!f.default_sequences[0].sequence_is_active);
    f.toggle_sequence_active(ActiveElement::DefaultSequence(1));
    assert!(f.default_sequences[0].sequence_is_active);
    f.create_sequence_with_id(ActiveElement::Funnel, 10);
    f.toggle_sequence_active(ActiveElement::ConditionalSequence(10, None));
    assert!(!f.conditional_sequences[0].conditional_sequence_is_active);
    f.toggle_sequence_active(ActiveElement::ConditionalSequence(10, None));
    assert!(f.conditional_sequences[0].conditional_sequence_is_active);
}

#[test]
fn removing_leaves_no_sequence_with_the_id() {
    let mut f = funnel();
    f.create_sequence_with_id(ActiveElement::DefaultSequence(1), 2);
    f.create_sequence_with_id(ActiveElement::DefaultSequence(1), 2);
    assert_eq!(f.default_sequences.len(), 3);
    f.remove_sequence(ActiveElement::DefaultSequence(2));
    assert_eq!(f.default_sequences.len(), 1);
    assert!(f.default_sequences.iter().all(|s| s.id != 2));
    f.create_sequence_with_id(ActiveElement::Funnel, 10);
    f.create_sequence_with_id(ActiveElement::ConditionalSequence(10, None), 11);
    f.remove_sequence(ActiveElement::ConditionalSequence(10, Some(11)));
    assert!(f.conditional_sequences[0].sequences.is_empty());
    f.remove_sequence(ActiveElement::ConditionalSequence(10, None));
    assert!(f.conditional_sequences.is_empty());
}

#[test]
fn edits_reach_the_selected_sequence() {
    let mut f = funnel();
    f.set_active_element(ActiveElement::DefaultSequence(1));
    f.update_weight(40);
    f.update_name("Main".to_string());
    f.update_sequence_type(SequenceType::Listicle);
    let s = f.active_sequence().unwrap();
    assert_eq!(s.weight, 40);
    assert_eq!(s.name, "Main");
    assert_eq!(s.sequence_type, SequenceType::Listicle);
    assert_eq!(f.set_selected_offers(vec![]), Ok(()));
}

#[test]
fn missing_selection_is_reported() {
    let mut f = funnel();
    assert!(f.active_sequence().is_none());
    assert_eq!(f.set_selected_offers(vec![]), Err(FunnelNotice::ActiveSequenceMissing));
    assert_eq!(f.set_selected_landing_pages(vec![]), Err(FunnelNotice::ActiveSequenceMissing));
    f.set_active_element(ActiveElement::DefaultSequence(9));
    assert_eq!(f.update_sequence(sequence(9, "x")), vec![FunnelNotice::SequenceNotFound]);
    f.set_active_element(ActiveElement::ConditionalSequence(5, Some(9)));
    assert_eq!(f.update_sequence(sequence(9, "x")), vec![FunnelNotice::ConditionalSequenceNotFound]);
    f.create_sequence_with_id(ActiveElement::Funnel, 5);
    f.set_active_element(ActiveElement::ConditionalSequence(5, Some(9)));
    assert_eq!(
        f.update_sequence(sequence(9, "x")),
        vec![FunnelNotice::SequenceNotInConditionalSequence]
    );
}

#[test]
fn update_sequence_replaces_by_id() {
    let mut f = funnel();
    f.set_active_element(ActiveElement::DefaultSequence(1));
    assert!(f.update_sequence(sequence(1, "Renamed")).is_empty());
    assert_eq!(f.default_sequences[0].name, "Renamed");
}

#[test]
fn conditions_go_to_the_selected_conditional_sequence() {
    let mut f = funnel();
    f.create_sequence_with_id(ActiveElement::Funnel, 5);
    f.update_sequence_conditions(vec![]);
    assert!(f.conditional_sequences[0].condition_set.is_empty());
}

#[test]
fn funnel_draft_takes_ids_by_modal_type() {
    let mut f = funnel();
    f.update_notes("n".to_string());
    f.update_country(Country::ISOCountry(4));
    let d = f.build_draft(ModalType::Create, &None, 42, 77, 1000);
    assert_eq!(d.funnel_id, 77);
    assert_eq!(d.last_updated, 1000);
    assert_eq!(d.notes, "n");
    assert_eq!(d.country, Country::ISOCountry(4));
    let saved = Some(FunnelRecord {
        funnel_id: 5,
        name: "Saved".to_string(),
        country: Country::Global,
        referrer_handling: ReferrerHandling::RemoveAll,
        notes: String::new(),
        conditional_sequences: vec![],
        default_sequences: vec![],
    });
    let d = f.build_draft(ModalType::Update, &saved, 42, 77, 1000);
    assert_eq!(d.funnel_id, 5);
    let d = f.fetch(ModalType::Update, &saved, 42);
    assert_eq!(d.funnel_id, 5);
    assert!(d.last_updated > 1_600_000_000_000);
}

#[test]
fn funnel_change_loads_a_saved_funnel() {
    let mut f = funnel();
    f.change(Some(FunnelRecord {
        funnel_id: 5,
        name: "Saved".to_string(),
        country: Country::ISOCountry(2),
        referrer_handling: ReferrerHandling::RemoveAll,
        notes: "x".to_string(),
        conditional_sequences: vec![],
        default_sequences: vec![sequence(3, "d")],
    }));
    assert_eq!(f.funnel_name, "Saved");
    assert_eq!(f.default_sequences[0].id, 3);
    assert_eq!(f.active_element, ActiveElement::Funnel);
}

#[test]
fn weight_input_is_a_byte() {
    assert_eq!(weight_from_input("42"), Ok(42));
    assert_eq!(weight_from_input("256"), Err(FunnelNotice::InvalidWeight));
    assert_eq!(weight_from_input("x"), Err(FunnelNotice::InvalidWeight));
}

#[test]
fn mini_builder_starts_from_the_handed_sequence() {
    let mut s = sequence(3, "s");
    s.sequence_type = SequenceType::Matrix;
    s.referrer_handling = ReferrerHandling::RemoveAll;
    let restored = Some(s);
    let mut b = MiniSequenceBuilder::create(&restored);
    assert_eq!(b.sequence_type, SequenceType::Matrix);
    assert!(matches!(b.referrer_handling, ReferrerHandling::RemoveAll));
    b.change(&None);
    assert_eq!(b.sequence_type, SequenceType::OffersOnly);
    assert!(matches!(b.referrer_handling, ReferrerHandling::DoNothing));
    assert_eq!(
        MiniSequenceBuilder::with_offers(None, vec![]).unwrap_err(),
        FunnelNotice::ActiveSequenceMissing
    );
    let r = MiniSequenceBuilder::with_landing_pages(restored, vec![]).unwrap();
    assert_eq!(r.id, 3);
}

#[test]
fn selected_rows_and_panels() {
    let cs = ActiveElement::ConditionalSequence(5, None);
    let seq = ActiveElement::ConditionalSequence(5, Some(6));
    assert!(row_is_selected(cs, cs));
    assert!(!row_is_selected(seq, cs));
    assert!(row_is_selected(seq, seq));
    assert!(!row_is_selected(ActiveElement::ConditionalSequence(5, Some(7)), seq));
    assert!(!row_is_selected(ActiveElement::Funnel, ActiveElement::Funnel));
    let mut f = funnel();
    assert!(matches!(f.right_panel(), RightPanel::Funnel));
    f.set_active_element(ActiveElement::DefaultSequence(1));
    assert!(matches!(f.right_panel(), RightPanel::SequenceBuilder));
    f.set_active_element(ActiveElement::ConditionalSequence(5, None));
    assert!(matches!(f.right_panel(), RightPanel::Conditions(n, None) if n == "debug"));
    f.create_sequence_with_id(ActiveElement::Funnel, 5);
    assert!(matches!(f.right_panel(), RightPanel::Conditions(n, Some(c)) if n == "New Conditional Sequence" && c.is_empty()));
}

#[test]
fn conditional_sequence_list_rows() {
    let mut f = funnel();
    f.create_sequence_with_id(ActiveElement::Funnel, 5);
    f.create_sequence_with_id(ActiveElement::ConditionalSequence(5, None), 6);
    f.create_sequence_with_id(ActiveElement::Funnel, 7);
    f.set_active_element(ActiveElement::ConditionalSequence(5, Some(6)));
    let rows = f.conditional_sequence_rows();
    assert_eq!(rows.len(), 4);
    assert!(matches!(&rows[0], SequenceListRow::Block { id: 5, conditions: 0, highlighted: false, .. }));
    assert!(matches!(&rows[1], SequenceListRow::Row { parent: 5, id: 6, weight: 100, highlighted: true, name, .. } if name == "New Sequence"));
    assert!(matches!(&rows[2], SequenceListRow::Block { id: 7, highlighted: false, name, .. } if name == "New Conditional Sequence"));
    assert!(matches!(&rows[3], SequenceListRow::Divider));
    f.set_active_element(ActiveElement::ConditionalSequence(7, None));
    let rows = f.conditional_sequence_rows();
    assert!(matches!(&rows[2], SequenceListRow::Block { id: 7, highlighted: true, .. }));
}

#[test]
fn funnel_draft_fixed_fields_and_redirecting_sequences() {
    let f = funnel();
    assert_eq!(f.default_sequences[0].redirect_option, RedirectOption::Redirect);
    let d = f.build_draft(ModalType::Create, &None, 42, 77, 1000);
    assert_eq!(d.request, ModalType::Create);
    assert_eq!(d.account_id, 42);
    assert_eq!(d.clearance, abe_frontend::model::Clearance::Everyone);
    assert_eq!(d.redirect_option, RedirectOption::Redirect);
    assert!(!d.archived);
}
