use abe_frontend::matrix_builder::{
    color_depth_border, hide_children, remove_child, table_body, table_head, table_rows, DepthColor,
    Matrix, MatrixBuilder, MatrixData, MatrixNotice, MatrixRow, TableHead, TableLayout, Transform,
};
use abe_frontend::model::{Offer, SequenceType, WeightedOffer};

fn root() -> Matrix {
    Matrix { id: 1, depth: 0, group_idx: 0, item_idx: 0, data: MatrixData::Source, children_groups: vec![vec![]] }
}

fn offer(w: u8) -> WeightedOffer {
    WeightedOffer { weight: w, offer: Offer { offer_id: 3, name: "o".to_string() } }
}

#[test]
fn children_are_added_and_removed() {
    let mut b = MatrixBuilder::create(root());
    assert_eq!(b.weight_buff, 100);
    b.add_child_with_id(0, 10);
    b.add_child_with_id(0, 11);
    let g = &b.local_matrix.children_groups[0];
    assert_eq!(g.len(), 2);
    assert_eq!(g[0].id, 11);
    assert_eq!(g[0].depth, 1);
    assert_eq!(g[0].item_idx, 1);
    assert!(matches!(g[0].data, MatrixData::Void));
    b.add_child_with_id(4, 12);
    assert_eq!(b.local_matrix.children_groups.len(), 1);
    assert_eq!(remove_child(&mut b.local_matrix, 0, 11), Ok(()));
    assert_eq!(b.local_matrix.children_groups[0].len(), 1);
    assert_eq!(b.local_matrix.children_groups[0][0].id, 10);
    assert_eq!(remove_child(&mut b.local_matrix, 3, 10), Err(MatrixNotice::GroupNotFound));
    let id = b.add_child(0);
    assert!(b.local_matrix.children_groups[0].iter().any(|m| m.id == id));
}

#[test]
fn weights_are_typed_then_committed() {
    let node = Matrix { id: 2, depth: 1, group_idx: 0, item_idx: 0, data: MatrixData::Void, children_groups: vec![] };
    let mut b = MatrixBuilder::create(node);
    b.fill_void(Transform::Offer(offer(60)));
    assert_eq!(b.update_weight_input("25"), Ok(()));
    assert_eq!(b.update_weight_input("x"), Err(MatrixNotice::InvalidWeight));
    assert_eq!(b.weight_buff, 25);
    b.commit_weight();
    assert!(matches!(&b.local_matrix.data, MatrixData::Offer(o) if o.weight == 25));
    let b2 = MatrixBuilder::create(b.local_matrix);
    assert_eq!(b2.weight_buff, 25);
}

#[test]
fn depth_colours_and_layout() {
    assert_eq!(color_depth_border(0), DepthColor::Depth0);
    assert_eq!(color_depth_border(9), DepthColor::Depth9);
    assert_eq!(color_depth_border(10), DepthColor::Depth0);
    let deep = Matrix { id: 2, depth: 9, group_idx: 0, item_idx: 0, data: MatrixData::Void, children_groups: vec![] };
    assert_eq!(
        table_body(SequenceType::Matrix, &deep),
        TableLayout::OfferPicker { depth_border: Some(DepthColor::Depth9) }
    );
    assert!(hide_children(&deep));
    assert!(!hide_children(&root()));
    assert_eq!(table_body(SequenceType::OffersOnly, &root()), TableLayout::OfferTable);
    assert_eq!(table_head(SequenceType::Matrix, &root()), TableHead::MatrixColumns);
    assert_eq!(table_head(SequenceType::Matrix, &deep), TableHead::NoHead);
}

#[test]
fn removing_an_added_child_gives_back_the_group() {
    let mut b = MatrixBuilder::create(root());
    b.add_child_with_id(0, 10);
    b.add_child_with_id(0, 11);
    let before: Vec<u128> = b.local_matrix.children_groups[0].iter().map(|m| m.id).collect();
    b.add_child_with_id(0, 12);
    assert_eq!(remove_child(&mut b.local_matrix, 0, 12), Ok(()));
    let after: Vec<u128> = b.local_matrix.children_groups[0].iter().map(|m| m.id).collect();
    assert_eq!(before, after);
}

fn void(id: u128) -> Matrix {
    Matrix { id, depth: 1, group_idx: 0, item_idx: 0, data: MatrixData::Void, children_groups: vec![] }
}

#[test]
fn table_rows_by_sequence_type() {
    let node = Matrix {
        id: 1,
        depth: 0,
        group_idx: 0,
        item_idx: 0,
        data: MatrixData::Source,
        children_groups: vec![vec![void(2), void(3)], vec![void(4)]],
    };
    assert_eq!(
        table_rows(SequenceType::OffersOnly, &node),
        vec![MatrixRow::AddButton(0), MatrixRow::Child(0, 0), MatrixRow::Child(0, 1)]
    );
    assert_eq!(
        table_rows(SequenceType::Matrix, &node),
        vec![
            MatrixRow::AddButton(0),
            MatrixRow::Child(0, 0),
            MatrixRow::Child(0, 1),
            MatrixRow::AddButton(1),
            MatrixRow::Child(1, 0),
        ]
    );
    assert_eq!(
        table_rows(SequenceType::LandingPageAndOffers, &node),
        vec![
            MatrixRow::AddButton(0),
            MatrixRow::Child(0, 0),
            MatrixRow::Child(0, 1),
            MatrixRow::Divider,
            MatrixRow::AddButton(1),
            MatrixRow::Child(1, 0),
        ]
    );
    assert!(table_rows(SequenceType::Listicle, &node).is_empty());
    assert_eq!(table_rows(SequenceType::Matrix, &void(9)), vec![MatrixRow::NodeRow]);
}
