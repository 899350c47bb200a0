//! The matrix builder: a tree of landing pages and offers in which each
//! landing page leads on to groups of further elements, edited node by node.

use vstd::prelude::*;
use crate::model::{SequenceType, WeightedLandingPage, WeightedOffer};
use crate::outside::new_uuid;
use crate::text::{parse_u8, spec_parse_u8};

verus! {

/// What a node of the matrix holds.
#[derive(Debug)]
pub enum MatrixData {
    /// Not filled yet.
    Void,
    /// The root of the tree.
    Source,
    Offer(WeightedOffer),
    LandingPage(WeightedLandingPage),
}

/// What fills a void node.
#[derive(Debug)]
pub enum Transform {
    Offer(WeightedOffer),
    Lander(WeightedLandingPage),
}

/// A node of the matrix and its groups of children.
#[derive(Debug)]
pub struct Matrix {
    pub id: u128,
    /// Distance from the root.
    pub depth: usize,
    /// Which group of its parent the node stands in.
    pub group_idx: usize,
    /// The node's position in that group when it was made.
    pub item_idx: usize,
    pub data: MatrixData,
    pub children_groups: Vec<Vec<Matrix>>,
}

/// What the matrix builder reports to the user.
#[derive(Clone, Copy, Debug, PartialEq, Eq, Structural)]
pub enum MatrixNotice {
    /// The typed weight is not a number from 0 to 255.
    InvalidWeight,
    /// The parent has no group at the node's group index.
    GroupNotFound,
}

/// `m` is a new void node with id `id`.
pub open spec fn is_void_node(m: Matrix, id: u128, group_idx: usize, item_idx: usize, depth: int) -> bool {
    &&& m.id == id
    &&& m.depth == depth
    &&& m.group_idx == group_idx
    &&& m.item_idx == item_idx
    &&& m.data is Void
    &&& m.children_groups@.len() == 0
}

/// `s` without the nodes with id `id`.
pub open spec fn without_node(s: Seq<Matrix>, id: u128) -> Seq<Matrix>
    decreases s.len(),
{
    if s.len() == 0 {
        s
    } else {
        let r = without_node(s.drop_last(), id);
        if s.last().id == id {
            r
        } else {
            r.push(s.last())
        }
    }
}

/// Removing an id that no node has changes nothing.
proof fn lemma_without_node_absent(s: Seq<Matrix>, id: u128)
    requires
        forall|k: int| 0 <= k < s.len() ==> (#[trigger] s[k]).id != id,
    ensures
        without_node(s, id) == s,
    decreases s.len(),
{
    if s.len() > 0 {
        assert forall|k: int| 0 <= k < s.drop_last().len() implies (#[trigger] s.drop_last()[k]).id
            != id by {
            assert(s.drop_last()[k] == s[k]);
        }
        lemma_without_node_absent(s.drop_last(), id);
        assert(s[s.len() - 1].id != id);
        assert(s.drop_last().push(s.last()) =~= s);
    }
}

/// Removing from two lists run together removes from each.
proof fn lemma_without_node_append(p: Seq<Matrix>, q: Seq<Matrix>, id: u128)
    ensures
        without_node(p + q, id) == without_node(p, id) + without_node(q, id),
    decreases q.len(),
{
    if q.len() == 0 {
        assert(p + q =~= p);
        assert(without_node(p, id) + without_node(q, id) =~= without_node(p, id));
    } else {
        lemma_without_node_append(p, q.drop_last(), id);
        assert((p + q).drop_last() =~= p + q.drop_last());
        assert((p + q).last() == q.last());
        if q.last().id != id {
            assert((without_node(p, id) + without_node(q.drop_last(), id)).push(q.last())
                =~= without_node(p, id) + without_node(q.drop_last(), id).push(q.last()));
        }
    }
}

/// Removing a child just added to a group (see
/// `MatrixBuilder::add_child_with_id`) by its id, where no other child of the
/// group had that id, gives back the group as it was.
pub proof fn lemma_remove_added_child(g: Seq<Matrix>, ng: Seq<Matrix>, group_idx: int, new_id: u128)
    requires
        0 <= group_idx <= g.len(),
        forall|k: int| 0 <= k < g.len() ==> (#[trigger] g[k]).id != new_id,
        ng.len() == g.len() + 1,
        ng.subrange(0, group_idx) == g.subrange(0, group_idx),
        ng.subrange(group_idx + 1, ng.len() as int) == g.subrange(group_idx, g.len() as int),
        ng[group_idx].id == new_id,
    ensures
        without_node(ng, new_id) == g,
{
    let a = g.subrange(0, group_idx);
    let b = g.subrange(group_idx, g.len() as int);
    let x = seq![ng[group_idx]];
    assert(ng =~= a + x + b);
    lemma_without_node_append(a + x, b, new_id);
    lemma_without_node_append(a, x, new_id);
    assert forall|k: int| 0 <= k < a.len() implies (#[trigger] a[k]).id != new_id by {
        assert(a[k] == g[k]);
    }
    assert forall|k: int| 0 <= k < b.len() implies (#[trigger] b[k]).id != new_id by {
        assert(b[k] == g[group_idx + k]);
    }
    lemma_without_node_absent(a, new_id);
    lemma_without_node_absent(b, new_id);
    assert(x.drop_last() =~= Seq::<Matrix>::empty());
    assert(without_node(x.drop_last(), new_id) == x.drop_last());
    assert(x.last().id == new_id);
    assert(without_node(x, new_id) =~= Seq::<Matrix>::empty());
    assert(a + Seq::<Matrix>::empty() + b =~= g);
}

/// `v` without the nodes with id `id`, in order.
pub fn remove_nodes(v: Vec<Matrix>, id: u128) -> (r: Vec<Matrix>)
    ensures
        r@ == without_node(v@, id),
{
    let ghost orig = v@;
    let n = v.len();
    let mut rest = v;
    let mut out: Vec<Matrix> = Vec::new();
    let mut k: usize = 0;
    assert(orig.subrange(0, 0) =~= Seq::<Matrix>::empty());
    while rest.len() > 0
        invariant
            k + rest.len() == orig.len(),
            orig.len() == n,
            rest@ == orig.subrange(k as int, orig.len() as int),
            out@ == without_node(orig.subrange(0, k as int), id),
        decreases rest.len(),
    {
        let x = rest.remove(0);
        assert(orig.subrange(0, k + 1).drop_last() =~= orig.subrange(0, k as int));
        assert(orig.subrange(0, k + 1).last() == x);
        if x.id != id {
            out.push(x);
        }
        k = k + 1;
        assert(rest@ =~= orig.subrange(k as int, orig.len() as int));
    }
    assert(orig.subrange(0, k as int) =~= orig);
    out
}

/// The weight held by an offer or landing page node; 100 for other nodes.
pub open spec fn spec_initial_weight(d: MatrixData) -> u8 {
    match d {
        MatrixData::Offer(o) => o.weight,
        MatrixData::LandingPage(lp) => lp.weight,
        _ => 100,
    }
}

/// The editing state of one node: the node and the weight being typed.
#[derive(Debug)]
pub struct MatrixBuilder {
    pub local_matrix: Matrix,
    pub weight_buff: u8,
}

impl MatrixBuilder {
    /// Opens a node for editing; the weight field starts at its weight.
    pub fn create(local_matrix: Matrix) -> (r: MatrixBuilder)
        ensures
            r.local_matrix == local_matrix,
            r.weight_buff == spec_initial_weight(local_matrix.data),
    {
        let wb = match &local_matrix.data {
            MatrixData::Offer(o) => o.weight,
            MatrixData::LandingPage(lp) => lp.weight,
            _ => 100,
        };
        MatrixBuilder { local_matrix, weight_buff: wb }
    }

    /// Reads the typed weight into the weight field.
    pub fn update_weight_input(&mut self, input: &str) -> (r: Result<(), MatrixNotice>)
        ensures
            final(self).local_matrix == old(self).local_matrix,
            match spec_parse_u8(input@) {
                Some(w) => r is Ok && final(self).weight_buff == w,
                None => r == Err::<(), MatrixNotice>(MatrixNotice::InvalidWeight)
                    && final(self).weight_buff == old(self).weight_buff,
            },
    {
        match parse_u8(input) {
            Some(w) => {
                self.weight_buff = w;
                Ok(())
            },
            None => Err(MatrixNotice::InvalidWeight),
        }
    }

    /// Fills the node with an offer or a landing page.
    pub fn fill_void(&mut self, transform: Transform)
        ensures
            final(self).weight_buff == old(self).weight_buff,
            final(self).local_matrix == (Matrix {
                data: match transform {
                    Transform::Offer(o) => MatrixData::Offer(o),
                    Transform::Lander(lp) => MatrixData::LandingPage(lp),
                },
                ..old(self).local_matrix
            }),
    {
        self.local_matrix.data = match transform {
            Transform::Offer(o) => MatrixData::Offer(o),
            Transform::Lander(lp) => MatrixData::LandingPage(lp),
        };
    }

    /// `b` is `self` with the weight field written into the node, where the
    /// node holds an offer or a landing page.
    pub open spec fn weight_committed(self, b: MatrixBuilder) -> bool {
        &&& b.weight_buff == self.weight_buff
        &&& b.local_matrix == (Matrix {
            data: match self.local_matrix.data {
                MatrixData::Offer(o) => MatrixData::Offer(
                    WeightedOffer { weight: self.weight_buff, ..o },
                ),
                MatrixData::LandingPage(lp) => MatrixData::LandingPage(
                    WeightedLandingPage { weight: self.weight_buff, ..lp },
                ),
                d => d,
            },
            ..self.local_matrix
        })
    }

    /// Writes the weight field into the node, where it holds an offer or a
    /// landing page.
    pub fn commit_weight(&mut self)
        ensures
            old(self).weight_committed(*final(self)),
    {
        let w = self.weight_buff;
        match &mut self.local_matrix.data {
            MatrixData::Offer(o) => {
                o.weight = w;
            },
            MatrixData::LandingPage(lp) => {
                lp.weight = w;
            },
            _ => {},
        }
    }

    /// Adds a void child with id `new_id` to group `group_idx` of the node,
    /// at position `group_idx` of that group (the position the editor uses),
    /// its item index the group's length before. Nothing happens where the
    /// node has no such group.
    pub fn add_child_with_id(&mut self, group_idx: usize, new_id: u128)
        requires
            group_idx < old(self).local_matrix.children_groups@.len() ==> group_idx
                <= old(self).local_matrix.children_groups@[group_idx as int]@.len(),
            old(self).local_matrix.depth < usize::MAX,
        ensures
            final(self).weight_buff == old(self).weight_buff,
            final(self).local_matrix.id == old(self).local_matrix.id,
            final(self).local_matrix.depth == old(self).local_matrix.depth,
            final(self).local_matrix.group_idx == old(self).local_matrix.group_idx,
            final(self).local_matrix.item_idx == old(self).local_matrix.item_idx,
            final(self).local_matrix.data == old(self).local_matrix.data,
            if group_idx < old(self).local_matrix.children_groups@.len() {
                let g = old(self).local_matrix.children_groups@[group_idx as int]@;
                let ng = final(self).local_matrix.children_groups@[group_idx as int]@;
                &&& final(self).local_matrix.children_groups@.len()
                    == old(self).local_matrix.children_groups@.len()
                &&& forall|k: int|
                    0 <= k < old(self).local_matrix.children_groups@.len() && k != group_idx
                        ==> #[trigger] final(self).local_matrix.children_groups@[k]
                        == old(self).local_matrix.children_groups@[k]
                &&& ng.len() == g.len() + 1
                &&& ng.subrange(0, group_idx as int) == g.subrange(0, group_idx as int)
                &&& ng.subrange(group_idx + 1, ng.len() as int) == g.subrange(
                    group_idx as int,
                    g.len() as int,
                )
                &&& is_void_node(
                    ng[group_idx as int],
                    new_id,
                    group_idx,
                    g.len() as usize,
                    old(self).local_matrix.depth + 1,
                )
            } else {
                final(self).local_matrix.children_groups == old(self).local_matrix.children_groups
            },
    {
        let depth = self.local_matrix.depth;
        if group_idx < self.local_matrix.children_groups.len() {
            let ghost g = self.local_matrix.children_groups@[group_idx as int]@;
            let len = self.local_matrix.children_groups[group_idx].len();
            let node = Matrix {
                id: new_id,
                depth: depth + 1,
                group_idx,
                item_idx: len,
                data: MatrixData::Void,
                children_groups: Vec::new(),
            };
            self.local_matrix.children_groups[group_idx].insert(group_idx, node);
            let ghost ng = self.local_matrix.children_groups@[group_idx as int]@;
            assert(ng.subrange(0, group_idx as int) =~= g.subrange(0, group_idx as int));
            assert(ng.subrange(group_idx + 1, ng.len() as int) =~= g.subrange(
                group_idx as int,
                g.len() as int,
            ));
        }
    }

    /// Adds a void child under a random id (see `add_child_with_id`) and
    /// gives back the id.
    pub fn add_child(&mut self, group_idx: usize) -> (new_id: u128)
        requires
            group_idx < old(self).local_matrix.children_groups@.len() ==> group_idx
                <= old(self).local_matrix.children_groups@[group_idx as int]@.len(),
            old(self).local_matrix.depth < usize::MAX,
        ensures
            final(self).weight_buff == old(self).weight_buff,
            final(self).local_matrix.id == old(self).local_matrix.id,
            final(self).local_matrix.depth == old(self).local_matrix.depth,
            final(self).local_matrix.group_idx == old(self).local_matrix.group_idx,
            final(self).local_matrix.item_idx == old(self).local_matrix.item_idx,
            final(self).local_matrix.data == old(self).local_matrix.data,
            if group_idx < old(self).local_matrix.children_groups@.len() {
                let g = old(self).local_matrix.children_groups@[group_idx as int]@;
                let ng = final(self).local_matrix.children_groups@[group_idx as int]@;
                &&& final(self).local_matrix.children_groups@.len()
                    == old(self).local_matrix.children_groups@.len()
                &&& forall|k: int|
                    0 <= k < old(self).local_matrix.children_groups@.len() && k != group_idx
                        ==> #[trigger] final(self).local_matrix.children_groups@[k]
                        == old(self).local_matrix.children_groups@[k]
                &&& ng.len() == g.len() + 1
                &&& ng.subrange(0, group_idx as int) == g.subrange(0, group_idx as int)
                &&& ng.subrange(group_idx + 1, ng.len() as int) == g.subrange(
                    group_idx as int,
                    g.len() as int,
                )
                &&& is_void_node(
                    ng[group_idx as int],
                    new_id,
                    group_idx,
                    g.len() as usize,
                    old(self).local_matrix.depth + 1,
                )
            } else {
                final(self).local_matrix.children_groups == old(self).local_matrix.children_groups
            },
    {
        let id = new_uuid();
        self.add_child_with_id(group_idx, id);
        id
    }
}

/// Removes the node with id `target_id` (and any other with that id) from
/// group `group_idx` of `parent`.
pub fn remove_child(parent: &mut Matrix, group_idx: usize, target_id: u128) -> (r: Result<(), MatrixNotice>)
    ensures
        final(parent).id == old(parent).id,
        final(parent).depth == old(parent).depth,
        final(parent).data == old(parent).data,
        if group_idx < old(parent).children_groups@.len() {
            &&& r is Ok
            &&& final(parent).children_groups@ == old(parent).children_groups@.update(
                group_idx as int,
                final(parent).children_groups@[group_idx as int],
            )
            &&& final(parent).children_groups@[group_idx as int]@ == without_node(
                old(parent).children_groups@[group_idx as int]@,
                target_id,
            )
        } else {
            &&& r == Err::<(), MatrixNotice>(MatrixNotice::GroupNotFound)
            &&& *final(parent) == *old(parent)
        },
{
    if group_idx >= parent.children_groups.len() {
        return Err(MatrixNotice::GroupNotFound);
    }
    let mut group: Vec<Matrix> = Vec::new();
    std::mem::swap(&mut group, &mut parent.children_groups[group_idx]);
    parent.children_groups[group_idx] = remove_nodes(group, target_id);
    Ok(())
}

/// Whether a node's children start folded: all but the root's.
pub fn hide_children(local_matrix: &Matrix) -> (r: bool)
    ensures
        r == (local_matrix.depth != 0),
{
    local_matrix.depth != 0
}

/// The ten colours that mark the depth of a matrix row.
#[derive(Clone, Copy, Debug, PartialEq, Eq, Structural)]
pub enum DepthColor {
    Depth0,
    Depth1,
    Depth2,
    Depth3,
    Depth4,
    Depth5,
    Depth6,
    Depth7,
    Depth8,
    Depth9,
}

/// The colour of the border of a row at `depth`: one per depth up to 9, the
/// depth-0 colour beyond.
pub fn color_depth_border(depth: usize) -> (c: DepthColor)
    ensures
        c == spec_depth_color(depth),
{
    match depth {
        1 => DepthColor::Depth1,
        2 => DepthColor::Depth2,
        3 => DepthColor::Depth3,
        4 => DepthColor::Depth4,
        5 => DepthColor::Depth5,
        6 => DepthColor::Depth6,
        7 => DepthColor::Depth7,
        8 => DepthColor::Depth8,
        9 => DepthColor::Depth9,
        _ => DepthColor::Depth0,
    }
}


/// The layout of the rows that a node shows in the sequence table.
#[derive(Clone, Copy, Debug, PartialEq, Eq, Structural)]
pub enum TableLayout {
    /// A void node: a picker for an offer only.
    OfferPicker { depth_border: Option<DepthColor> },
    /// A void node: pickers for an offer or a landing page.
    OfferOrLanderPicker { depth_border: Option<DepthColor> },
    /// The root of an offers-only sequence: its offers, with an add button.
    OfferTable,
    /// An offer of an offers-only sequence: name, weight, remove.
    OfferRow,
    /// The root of a landing-page sequence: its first group, then the others.
    ElementTable,
    /// A landing page of a landing-page sequence: name, type, links, weight.
    LanderElementRow,
    /// An offer of a landing-page sequence: name, type, weight.
    OfferElementRow,
    /// The root of a matrix: every group, each with an add button.
    MatrixTable,
    /// An offer in a matrix, at a depth.
    MatrixOfferRow { border: DepthColor },
    /// A landing page in a matrix, at a depth, followed by its groups.
    MatrixLanderRow { border: DepthColor },
    /// Nothing is shown.
    Empty,
}

/// The table header that a node shows.
#[derive(Clone, Copy, Debug, PartialEq, Eq, Structural)]
pub enum TableHead {
    /// Name, weight, remove.
    OfferColumns,
    /// Name, type, links, weight, remove.
    ElementColumns,
    /// Depth, type, name, weight, links, remove.
    MatrixColumns,
    /// No header.
    NoHead,
}

/// The colour that `color_depth_border` gives.
pub open spec fn spec_depth_color(depth: usize) -> DepthColor {
    match depth {
        1 => DepthColor::Depth1,
        2 => DepthColor::Depth2,
        3 => DepthColor::Depth3,
        4 => DepthColor::Depth4,
        5 => DepthColor::Depth5,
        6 => DepthColor::Depth6,
        7 => DepthColor::Depth7,
        8 => DepthColor::Depth8,
        9 => DepthColor::Depth9,
        _ => DepthColor::Depth0,
    }
}

/// The layout for a node holding `data` at `depth` in a sequence of `seq_type`.
pub open spec fn spec_table_layout(seq_type: SequenceType, data: MatrixData, depth: usize) -> TableLayout {
    match data {
        MatrixData::Void => match seq_type {
            SequenceType::OffersOnly => TableLayout::OfferPicker { depth_border: None },
            SequenceType::LandingPageAndOffers => TableLayout::OfferOrLanderPicker { depth_border: None },
            SequenceType::Matrix => if depth < 9 {
                TableLayout::OfferOrLanderPicker { depth_border: Some(spec_depth_color(depth)) }
            } else {
                TableLayout::OfferPicker { depth_border: Some(spec_depth_color(depth)) }
            },
            SequenceType::Listicle => TableLayout::Empty,
        },
        MatrixData::Source => match seq_type {
            SequenceType::OffersOnly => TableLayout::OfferTable,
            SequenceType::LandingPageAndOffers => TableLayout::ElementTable,
            SequenceType::Matrix => TableLayout::MatrixTable,
            SequenceType::Listicle => TableLayout::Empty,
        },
        MatrixData::Offer(_) => match seq_type {
            SequenceType::OffersOnly => TableLayout::OfferRow,
            SequenceType::LandingPageAndOffers => TableLayout::OfferElementRow,
            SequenceType::Matrix => TableLayout::MatrixOfferRow { border: spec_depth_color(depth) },
            SequenceType::Listicle => TableLayout::Empty,
        },
        MatrixData::LandingPage(_) => match seq_type {
            SequenceType::LandingPageAndOffers => TableLayout::LanderElementRow,
            SequenceType::Matrix => TableLayout::MatrixLanderRow { border: spec_depth_color(depth) },
            _ => TableLayout::Empty,
        },
    }
}

/// How the sequence table shows `node` in a sequence of `seq_type`.
pub fn table_body(seq_type: SequenceType, node: &Matrix) -> (r: TableLayout)
    ensures
        r == spec_table_layout(seq_type, node.data, node.depth),
{
    let depth = node.depth;
    match &node.data {
        MatrixData::Void => match seq_type {
            SequenceType::OffersOnly => TableLayout::OfferPicker { depth_border: None },
            SequenceType::LandingPageAndOffers => TableLayout::OfferOrLanderPicker { depth_border: None },
            SequenceType::Matrix => if depth < 9 {
                TableLayout::OfferOrLanderPicker { depth_border: Some(color_depth_border(depth)) }
            } else {
                TableLayout::OfferPicker { depth_border: Some(color_depth_border(depth)) }
            },
            SequenceType::Listicle => TableLayout::Empty,
        },
        MatrixData::Source => match seq_type {
            SequenceType::OffersOnly => TableLayout::OfferTable,
            SequenceType::LandingPageAndOffers => TableLayout::ElementTable,
            SequenceType::Matrix => TableLayout::MatrixTable,
            SequenceType::Listicle => TableLayout::Empty,
        },
        MatrixData::Offer(_) => match seq_type {
            SequenceType::OffersOnly => TableLayout::OfferRow,
            SequenceType::LandingPageAndOffers => TableLayout::OfferElementRow,
            SequenceType::Matrix => TableLayout::MatrixOfferRow { border: color_depth_border(depth) },
            SequenceType::Listicle => TableLayout::Empty,
        },
        MatrixData::LandingPage(_) => match seq_type {
            SequenceType::LandingPageAndOffers => TableLayout::LanderElementRow,
            SequenceType::Matrix => TableLayout::MatrixLanderRow { border: color_depth_border(depth) },
            _ => TableLayout::Empty,
        },
    }
}

/// A row of the sequence table, in the order the table shows them.
#[derive(Clone, Copy, Debug, PartialEq, Eq, Structural)]
pub enum MatrixRow {
    /// A button that adds a void child to group `0` of the node.
    AddButton(usize),
    /// The nested editor of child `1` of group `0`, in the same sequence type.
    Child(usize, usize),
    /// A divider line.
    Divider,
    /// The node's own row (its pickers, or its name, weight and remove button).
    NodeRow,
}

/// The lengths of a node's groups of children.
pub open spec fn group_lens(groups: Seq<Vec<Matrix>>) -> Seq<nat> {
    groups.map_values(|g: Vec<Matrix>| g@.len())
}

/// The nested editors of the `n` children of group `g`, in order.
pub open spec fn child_rows(g: int, n: nat) -> Seq<MatrixRow> {
    Seq::new(n, |k: int| MatrixRow::Child(g as usize, k as usize))
}

/// For each group from `lo` up to (not including) `hi`: its add button, then
/// its children.
pub open spec fn add_group_rows(lens: Seq<nat>, lo: int, hi: int) -> Seq<MatrixRow>
    decreases hi - lo,
{
    if hi <= lo {
        Seq::empty()
    } else {
        add_group_rows(lens, lo, hi - 1) + seq![MatrixRow::AddButton((hi - 1) as usize)]
            + child_rows(hi - 1, lens[hi - 1])
    }
}

/// For each of the first `hi` groups: a divider, then its children.
pub open spec fn divided_group_rows(lens: Seq<nat>, hi: int) -> Seq<MatrixRow>
    decreases hi,
{
    if hi <= 0 {
        Seq::empty()
    } else {
        divided_group_rows(lens, hi - 1) + seq![MatrixRow::Divider] + child_rows(hi - 1, lens[hi - 1])
    }
}

/// The rows that a node holding `data`, with groups of the lengths `lens`,
/// shows in a sequence of `seq_type`: the root of an offers-only sequence
/// shows the add button of group 0 and group 0's children only; the root of a
/// landing-page sequence shows group 0 the same way, a divider, then each
/// later group with its add button; the root of a matrix shows every group
/// with its add button; a landing page in a matrix shows a divider, its own
/// row, each group after a divider, and a last divider; other nodes show
/// their own row, or nothing where the layout is empty.
pub open spec fn spec_table_rows(seq_type: SequenceType, data: MatrixData, lens: Seq<nat>) -> Seq<
    MatrixRow,
> {
    match data {
        MatrixData::Source => match seq_type {
            SequenceType::OffersOnly => seq![MatrixRow::AddButton(0)] + child_rows(0, lens[0]),
            SequenceType::LandingPageAndOffers => add_group_rows(lens, 0, 1) + seq![MatrixRow::Divider]
                + add_group_rows(lens, 1, lens.len() as int),
            SequenceType::Matrix => add_group_rows(lens, 0, lens.len() as int),
            SequenceType::Listicle => Seq::empty(),
        },
        MatrixData::LandingPage(_) => match seq_type {
            SequenceType::Matrix => seq![MatrixRow::Divider, MatrixRow::NodeRow] + divided_group_rows(
                lens,
                lens.len() as int,
            ) + seq![MatrixRow::Divider],
            SequenceType::LandingPageAndOffers => seq![MatrixRow::NodeRow],
            _ => Seq::empty(),
        },
        _ => match seq_type {
            SequenceType::Listicle => Seq::empty(),
            _ => seq![MatrixRow::NodeRow],
        },
    }
}

/// Appends the nested editors of the `n` children of group `g`.
fn push_child_rows(out: &mut Vec<MatrixRow>, g: usize, n: usize)
    ensures
        final(out)@ == old(out)@ + child_rows(g as int, n as nat),
{
    let ghost start = out@;
    let mut k: usize = 0;
    while k < n
        invariant
            k <= n,
            out@ == start + child_rows(g as int, k as nat),
        decreases n - k,
    {
        out.push(MatrixRow::Child(g, k));
        k = k + 1;
        assert(out@ =~= start + child_rows(g as int, k as nat));
    }
}

/// Appends, for groups `lo` up to `hi`, the add button and the children.
fn push_add_group_rows(out: &mut Vec<MatrixRow>, groups: &Vec<Vec<Matrix>>, lo: usize, hi: usize)
    requires
        lo <= hi <= groups@.len(),
    ensures
        final(out)@ == old(out)@ + add_group_rows(group_lens(groups@), lo as int, hi as int),
{
    let ghost start = out@;
    let ghost lens = group_lens(groups@);
    let mut g: usize = lo;
    assert(add_group_rows(lens, lo as int, lo as int) =~= Seq::<MatrixRow>::empty());
    assert(out@ =~= start + add_group_rows(lens, lo as int, lo as int));
    while g < hi
        invariant
            lo <= g <= hi <= groups@.len(),
            lens == group_lens(groups@),
            out@ == start + add_group_rows(lens, lo as int, g as int),
        decreases hi - g,
    {
        let ghost before = out@;
        out.push(MatrixRow::AddButton(g));
        push_child_rows(out, g, groups[g].len());
        assert(lens[g as int] == groups@[g as int]@.len());
        g = g + 1;
        assert(out@ =~= start + add_group_rows(lens, lo as int, g as int));
    }
}

/// Appends, for every group, a divider and the children.
fn push_divided_group_rows(out: &mut Vec<MatrixRow>, groups: &Vec<Vec<Matrix>>)
    ensures
        final(out)@ == old(out)@ + divided_group_rows(group_lens(groups@), groups@.len() as int),
{
    let ghost start = out@;
    let ghost lens = group_lens(groups@);
    let mut g: usize = 0;
    assert(out@ =~= start + divided_group_rows(lens, 0));
    while g < groups.len()
        invariant
            g <= groups@.len(),
            lens == group_lens(groups@),
            out@ == start + divided_group_rows(lens, g as int),
        decreases groups@.len() - g,
    {
        out.push(MatrixRow::Divider);
        push_child_rows(out, g, groups[g].len());
        assert(lens[g as int] == groups@[g as int]@.len());
        g = g + 1;
        assert(out@ =~= start + divided_group_rows(lens, g as int));
    }
}

/// The rows that `node` shows in the sequence table of a sequence of
/// `seq_type` (see `spec_table_rows`). The root of an offers-only or
/// landing-page sequence must have a first group.
pub fn table_rows(seq_type: SequenceType, node: &Matrix) -> (r: Vec<MatrixRow>)
    requires
        node.data is Source && (seq_type == SequenceType::OffersOnly || seq_type
            == SequenceType::LandingPageAndOffers) ==> node.children_groups@.len() >= 1,
    ensures
        r@ == spec_table_rows(seq_type, node.data, group_lens(node.children_groups@)),
{
    let ghost lens = group_lens(node.children_groups@);
    let groups = &node.children_groups;
    let mut out: Vec<MatrixRow> = Vec::new();
    match &node.data {
        MatrixData::Source => match seq_type {
            SequenceType::OffersOnly => {
                out.push(MatrixRow::AddButton(0));
                push_child_rows(&mut out, 0, groups[0].len());
            },
            SequenceType::LandingPageAndOffers => {
                push_add_group_rows(&mut out, groups, 0, 1);
                out.push(MatrixRow::Divider);
                push_add_group_rows(&mut out, groups, 1, groups.len());
            },
            SequenceType::Matrix => {
                push_add_group_rows(&mut out, groups, 0, groups.len());
            },
            SequenceType::Listicle => {},
        },
        MatrixData::LandingPage(_) => match seq_type {
            SequenceType::Matrix => {
                out.push(MatrixRow::Divider);
                out.push(MatrixRow::NodeRow);
                push_divided_group_rows(&mut out, groups);
                out.push(MatrixRow::Divider);
            },
            SequenceType::LandingPageAndOffers => {
                out.push(MatrixRow::NodeRow);
            },
            _ => {},
        },
        _ => match seq_type {
            SequenceType::Listicle => {},
            _ => {
                out.push(MatrixRow::NodeRow);
            },
        },
    }
    proof {
        assert(lens.len() == node.children_groups@.len());
    }
    assert(out@ =~= spec_table_rows(seq_type, node.data, lens));
    out
}

/// The header a node shows: only the root has one, by sequence type.
pub fn table_head(seq_type: SequenceType, node: &Matrix) -> (r: TableHead)
    ensures
        r == (match node.data {
            MatrixData::Source => match seq_type {
                SequenceType::OffersOnly => TableHead::OfferColumns,
                SequenceType::LandingPageAndOffers => TableHead::ElementColumns,
                SequenceType::Matrix => TableHead::MatrixColumns,
                SequenceType::Listicle => TableHead::NoHead,
            },
            _ => TableHead::NoHead,
        }),
{
    match &node.data {
        MatrixData::Source => match seq_type {
            SequenceType::OffersOnly => TableHead::OfferColumns,
            SequenceType::LandingPageAndOffers => TableHead::ElementColumns,
            SequenceType::Matrix => TableHead::MatrixColumns,
            SequenceType::Listicle => TableHead::NoHead,
        },
        _ => TableHead::NoHead,
    }
}

/// Opening a node and writing the weight field straight back leaves the node
/// as it was: the weight field starts at the weight of the offer or landing
/// page that the node holds.
pub proof fn lemma_open_then_commit_keeps_node(m: Matrix, b0: MatrixBuilder, b1: MatrixBuilder)
    requires
        b0.local_matrix == m,
        b0.weight_buff == spec_initial_weight(m.data),
        b0.weight_committed(b1),
    ensures
        b1.local_matrix == m,
{
    match m.data {
        MatrixData::Offer(o) => {
            assert(WeightedOffer { weight: o.weight, ..o } == o);
        },
        MatrixData::LandingPage(lp) => {
            assert(WeightedLandingPage { weight: lp.weight, ..lp } == lp);
        },
        _ => {},
    }
}

/// The sequence table lets a void node be filled with whatever the sequence
/// type shows: wherever landing pages are shown at a depth below the last,
/// a void node at that depth offers a landing-page picker as well as an
/// offer picker; wherever offers are shown, it offers an offer picker.
pub proof fn lemma_void_node_offers_shown_elements(
    seq_type: SequenceType,
    depth: usize,
    lp: WeightedLandingPage,
    o: WeightedOffer,
)
    ensures
        spec_table_layout(seq_type, MatrixData::LandingPage(lp), depth) != TableLayout::Empty
            && depth < 9 ==> spec_table_layout(seq_type, MatrixData::Void, depth) is OfferOrLanderPicker,
        spec_table_layout(seq_type, MatrixData::Offer(o), depth) != TableLayout::Empty ==> (
        spec_table_layout(seq_type, MatrixData::Void, depth) is OfferOrLanderPicker
            || spec_table_layout(seq_type, MatrixData::Void, depth) is OfferPicker),
        spec_table_layout(seq_type, MatrixData::LandingPage(lp), depth) == TableLayout::Empty ==> (
        spec_table_layout(seq_type, MatrixData::Void, depth) is OfferPicker
            || spec_table_layout(seq_type, MatrixData::Void, depth) == TableLayout::Empty),
{
}

/// Whether a table row is a nested child editor.
pub open spec fn is_child_row(r: MatrixRow) -> bool {
    r is Child
}

/// Every child of the first `n` groups, group by group, in order.
pub open spec fn all_children(lens: Seq<nat>, n: int) -> Seq<MatrixRow>
    decreases n,
{
    if n <= 0 {
        Seq::empty()
    } else {
        all_children(lens, n - 1) + child_rows(n - 1, lens[n - 1])
    }
}

/// The child rows of a group are all kept by the child filter.
proof fn lemma_child_rows_filter(g: int, n: nat)
    ensures
        child_rows(g, n).filter(|r: MatrixRow| is_child_row(r)) == child_rows(g, n),
    decreases n,
{
    reveal(Seq::filter);
    if n > 0 {
        lemma_child_rows_filter(g, (n - 1) as nat);
        assert(child_rows(g, n).drop_last() =~= child_rows(g, (n - 1) as nat));
    } else {
        assert(child_rows(g, n) =~= Seq::<MatrixRow>::empty());
    }
}

/// A single row that is not a child editor is dropped by the child filter.
proof fn lemma_single_row_filter(r: MatrixRow)
    requires
        !is_child_row(r),
    ensures
        seq![r].filter(|x: MatrixRow| is_child_row(x)) == Seq::<MatrixRow>::empty(),
{
    reveal_with_fuel(Seq::filter, 2);
    let p = |x: MatrixRow| is_child_row(x);
    assert(seq![r].drop_last() =~= Seq::<MatrixRow>::empty());
    assert(seq![r].last() == r);
    assert(Seq::<MatrixRow>::empty().filter(p) =~= Seq::<MatrixRow>::empty());
    assert(seq![r].filter(p) == seq![r].drop_last().filter(p));
}

/// The child editors of the groups from `lo` up to `hi` with their add
/// buttons are those groups' children in order.
proof fn lemma_add_group_children(lens: Seq<nat>, lo: int, hi: int)
    requires
        0 <= lo <= hi,
    ensures
        all_children(lens, lo) + add_group_rows(lens, lo, hi).filter(|r: MatrixRow| is_child_row(r))
            == all_children(lens, hi),
    decreases hi - lo,
{
    let p = |r: MatrixRow| is_child_row(r);
    if hi == lo {
        reveal(Seq::filter);
        assert(add_group_rows(lens, lo, hi).filter(p) =~= Seq::<MatrixRow>::empty());
        assert(all_children(lens, lo) + Seq::<MatrixRow>::empty() =~= all_children(lens, lo));
    } else {
        lemma_add_group_children(lens, lo, hi - 1);
        let a = add_group_rows(lens, lo, hi - 1);
        let b = seq![MatrixRow::AddButton((hi - 1) as usize)];
        let c = child_rows(hi - 1, lens[hi - 1]);
        Seq::filter_distributes_over_add(a + b, c, p);
        Seq::filter_distributes_over_add(a, b, p);
        lemma_single_row_filter(MatrixRow::AddButton((hi - 1) as usize));
        lemma_child_rows_filter(hi - 1, lens[hi - 1]);
        assert(a.filter(p) + Seq::<MatrixRow>::empty() =~= a.filter(p));
        assert(all_children(lens, lo) + (a.filter(p) + c) =~= (all_children(lens, lo) + a.filter(p))
            + c);
    }
}

/// The child editors of the groups after their dividers are those groups'
/// children in order.
proof fn lemma_divided_group_children(lens: Seq<nat>, n: int)
    requires
        0 <= n,
    ensures
        divided_group_rows(lens, n).filter(|r: MatrixRow| is_child_row(r)) == all_children(lens, n),
    decreases n,
{
    let p = |r: MatrixRow| is_child_row(r);
    if n == 0 {
        reveal(Seq::filter);
    } else {
        lemma_divided_group_children(lens, n - 1);
        let a = divided_group_rows(lens, n - 1);
        let b = seq![MatrixRow::Divider];
        let c = child_rows(n - 1, lens[n - 1]);
        Seq::filter_distributes_over_add(a + b, c, p);
        Seq::filter_distributes_over_add(a, b, p);
        lemma_single_row_filter(MatrixRow::Divider);
        lemma_child_rows_filter(n - 1, lens[n - 1]);
        assert(a.filter(p) + Seq::<MatrixRow>::empty() =~= a.filter(p));
    }
}

/// The root of a sequence and a landing page in a matrix each show a nested
/// editor for every child of every group they show, group by group and in
/// order, and no other nested editor: the root of an offers-only sequence
/// shows its first group, the root of a landing-page sequence or of a matrix
/// and a landing page in a matrix show all groups.
pub proof fn lemma_rows_show_every_child(lens: Seq<nat>, lp: WeightedLandingPage)
    ensures
        lens.len() >= 1 ==> spec_table_rows(SequenceType::OffersOnly, MatrixData::Source, lens).filter(
            |r: MatrixRow| is_child_row(r),
        ) == all_children(lens, 1),
        lens.len() >= 1 ==> spec_table_rows(SequenceType::LandingPageAndOffers, MatrixData::Source, lens).filter(
            |r: MatrixRow| is_child_row(r),
        ) == all_children(lens, lens.len() as int),
        spec_table_rows(SequenceType::Matrix, MatrixData::Source, lens).filter(
            |r: MatrixRow| is_child_row(r),
        ) == all_children(lens, lens.len() as int),
        spec_table_rows(SequenceType::Matrix, MatrixData::LandingPage(lp), lens).filter(
            |r: MatrixRow| is_child_row(r),
        ) == all_children(lens, lens.len() as int),
{
    let p = |r: MatrixRow| is_child_row(r);
    let n = lens.len() as int;
    let e = Seq::<MatrixRow>::empty();
    lemma_add_group_children(lens, 0, n);
    assert(all_children(lens, 0) == e);
    assert(e + add_group_rows(lens, 0, n).filter(p) =~= add_group_rows(lens, 0, n).filter(p));
    lemma_divided_group_children(lens, n);
    lemma_single_row_filter(MatrixRow::Divider);
    lemma_single_row_filter(MatrixRow::NodeRow);
    lemma_single_row_filter(MatrixRow::AddButton(0));
    let head = seq![MatrixRow::Divider, MatrixRow::NodeRow];
    let mid = divided_group_rows(lens, n);
    let tail = seq![MatrixRow::Divider];
    Seq::filter_distributes_over_add(head + mid, tail, p);
    Seq::filter_distributes_over_add(head, mid, p);
    assert(head =~= seq![MatrixRow::Divider] + seq![MatrixRow::NodeRow]);
    Seq::filter_distributes_over_add(seq![MatrixRow::Divider], seq![MatrixRow::NodeRow], p);
    assert(e + e =~= e);
    assert(e + mid.filter(p) =~= mid.filter(p));
    assert(mid.filter(p) + e =~= mid.filter(p));
    if n >= 1 {
        let c0 = child_rows(0, lens[0]);
        Seq::filter_distributes_over_add(seq![MatrixRow::AddButton(0)], c0, p);
        lemma_child_rows_filter(0, lens[0]);
        assert(all_children(lens, 1) == all_children(lens, 0) + c0);
        assert(e + c0 =~= c0);
        lemma_add_group_children(lens, 0, 1);
        lemma_add_group_children(lens, 1, n);
        let x = add_group_rows(lens, 0, 1);
        let y = add_group_rows(lens, 1, n);
        assert(e + x.filter(p) =~= x.filter(p));
        Seq::filter_distributes_over_add(x + tail, y, p);
        Seq::filter_distributes_over_add(x, tail, p);
        assert(x.filter(p) + e =~= x.filter(p));
    }
}

/// Rows at different depths up to 9 get different border colours; deeper
/// rows take the depth-0 colour again.
pub proof fn lemma_depth_colors_distinct(d1: usize, d2: usize)
    ensures
        d1 <= 9 && d2 <= 9 && d1 != d2 ==> spec_depth_color(d1) != spec_depth_color(d2),
        d1 > 9 ==> spec_depth_color(d1) == spec_depth_color(0),
{
}

/// In a matrix, every row at one depth is bordered in that depth's colour,
/// whether it holds an offer, a landing page, or nothing yet.
pub proof fn lemma_matrix_border_by_depth(depth: usize, o: WeightedOffer, lp: WeightedLandingPage)
    ensures
        spec_table_layout(SequenceType::Matrix, MatrixData::Offer(o), depth) == (TableLayout::MatrixOfferRow {
            border: spec_depth_color(depth),
        }),
        spec_table_layout(SequenceType::Matrix, MatrixData::LandingPage(lp), depth) == (
        TableLayout::MatrixLanderRow { border: spec_depth_color(depth) }),
        ({
            let v = spec_table_layout(SequenceType::Matrix, MatrixData::Void, depth);
            ||| v == (TableLayout::OfferOrLanderPicker { depth_border: Some(spec_depth_color(depth)) })
            ||| v == (TableLayout::OfferPicker { depth_border: Some(spec_depth_color(depth)) })
        }),
{
}

} // verus!
