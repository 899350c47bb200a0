use abe_frontend::listicle_builder::{ListicleNotice, MatrixBuilder};
use abe_frontend::model::{RedirectOption, LandingPage, ListiclePair, Offer, ReferrerHandling, Sequence, SequenceType};

fn page(id: u128, links: u8, pre: bool) -> LandingPage {
    LandingPage { landing_page_id: id, name: format!("p{}", id), number_of_calls_to_action: links, is_pre_landing_page: pre }
}

fn offer(id: u128) -> Offer {
    Offer { offer_id: id, name: format!("o{}", id) }
}

fn sequence() -> Sequence {
    Sequence {
        id: 1,
        name: "s".to_string(),
        weight: 100,
        sequence_type: SequenceType::Listicle,
        redirect_option: RedirectOption::Redirect,
        referrer_handling: ReferrerHandling::DoNothing,
        pre_landing_page: None,
        listicle_pairs: vec![],
        landing_pages: vec![],
        offers: vec![],
        weight_optimization_active: false,
        sequence_is_active: true,
    }
}

#[test]
fn listicle_is_saved_once_every_slot_is_filled() {
    let mut b = MatrixBuilder::create(None, vec![]);
    assert!(!b.pre_lander_ready());
    assert_eq!(b.submit(sequence()).unwrap_err(), ListicleNotice::FieldsMissing);
    b.select_pre_landing_page(page(1, 2, true));
    assert_eq!(b.pairs.len(), 2);
    assert!(!b.landers_are_ready());
    assert_eq!(b.select_landing_page(0, page(2, 1, false)), Ok(()));
    assert_eq!(b.select_landing_page(1, page(3, 2, false)), Ok(()));
    assert_eq!(b.select_landing_page(2, page(4, 1, false)), Err(ListicleNotice::PairNotFound));
    assert!(b.landers_are_ready());
    assert!(!b.offers_are_ready());
    assert_eq!(b.select_offer(0, 0, offer(10)), Ok(()));
    assert_eq!(b.select_offer(1, 0, offer(11)), Ok(()));
    assert_eq!(b.select_offer(1, 2, offer(12)), Err(ListicleNotice::OfferNotFound));
    assert_eq!(b.select_offer(5, 0, offer(12)), Err(ListicleNotice::PairNotFound));
    assert!(!b.all_fields_filled_out());
    assert_eq!(b.select_offer(1, 1, offer(12)), Ok(()));
    assert!(b.all_fields_filled_out());
    let s = b.submit(sequence()).unwrap();
    assert_eq!(s.pre_landing_page.as_ref().unwrap().landing_page_id, 1);
    assert_eq!(s.listicle_pairs.len(), 2);
    assert_eq!(s.listicle_pairs[1].landing_page.landing_page_id, 3);
    assert_eq!(s.listicle_pairs[1].offers.iter().map(|o| o.offer_id).collect::<Vec<_>>(), vec![11, 12]);
    assert_eq!(s.name, "s");
    assert_eq!(b.remove_offer(1, 1), Ok(()));
    assert!(!b.offers_are_ready());
    assert_eq!(b.remove_offer(1, 9), Err(ListicleNotice::OfferNotFound));
}

#[test]
fn loaded_listicle_saves_back() {
    let mut b = MatrixBuilder::create(None, vec![]);
    let pairs = vec![
        ListiclePair { landing_page: page(2, 2, false), offers: vec![offer(10), offer(11)] },
        ListiclePair { landing_page: page(3, 1, false), offers: vec![offer(12)] },
    ];
    b.change(Some(page(1, 2, true)), pairs);
    assert!(b.all_fields_filled_out());
    let s = b.submit(sequence()).unwrap();
    assert_eq!(s.listicle_pairs.len(), 2);
    assert_eq!(s.listicle_pairs[0].landing_page.landing_page_id, 2);
    assert_eq!(s.listicle_pairs[0].offers.iter().map(|o| o.offer_id).collect::<Vec<_>>(), vec![10, 11]);
    assert_eq!(s.listicle_pairs[1].offers[0].offer_id, 12);
    b.change(None, vec![]);
    assert_eq!(b.submit(sequence()).unwrap_err(), ListicleNotice::FieldsMissing);
}
