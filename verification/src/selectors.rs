//! The small pickers of the editors: offer and landing page selections with
//! their weights, tags, URL tokens, traffic-source parameters, referrer
//! handling and check boxes.

use vstd::prelude::*;
use crate::condition_view::ItemCode;
use crate::model::{LandingPage, ReferrerHandling, ReplaceReferrerList, WeightedLandingPage, WeightedOffer};
use crate::seqs::{toggle_code, toggled};
use crate::text::{parse_u8, spec_parse_u8};

verus! {

/// What a picker reports to the user.
#[derive(Clone, Copy, Debug, PartialEq, Eq, Structural)]
pub enum SelectorNotice {
    /// The typed weight is not a number from 0 to 255.
    InvalidWeight,
    /// There is no offer group at the given position.
    GroupNotFound,
    /// The group has no offer at the given position.
    OfferNotFound,
    /// No more than ten custom parameters may be defined.
    TooManyCustomParameters,
}

/// The offer groups of a sequence being picked.
#[derive(Debug)]
pub struct OfferSelector {
    pub offers: Vec<Vec<WeightedOffer>>,
}

impl OfferSelector {
    /// A selector over the sequence's offer groups.
    pub fn create(offers: Vec<Vec<WeightedOffer>>) -> (r: OfferSelector)
        ensures
            r.offers == offers,
    {
        OfferSelector { offers }
    }

    /// Sets the weight of offer `pos` of group `group` to the typed number.
    pub fn update_weight(&mut self, group: usize, pos: usize, input: &str) -> (r: Result<(), SelectorNotice>)
        ensures
            match spec_parse_u8(input@) {
                None => r == Err::<(), SelectorNotice>(SelectorNotice::InvalidWeight)
                    && final(self).offers == old(self).offers,
                Some(w) => if group >= old(self).offers@.len() {
                    r == Err::<(), SelectorNotice>(SelectorNotice::GroupNotFound)
                        && final(self).offers == old(self).offers
                } else if pos >= old(self).offers@[group as int]@.len() {
                    r == Err::<(), SelectorNotice>(SelectorNotice::OfferNotFound)
                        && final(self).offers == old(self).offers
                } else {
                    &&& r is Ok
                    &&& final(self).offers@ == old(self).offers@.update(
                        group as int,
                        final(self).offers@[group as int],
                    )
                    &&& final(self).offers@[group as int]@ == old(self).offers@[group as int]@.update(
                        pos as int,
                        WeightedOffer { weight: w, ..old(self).offers@[group as int]@[pos as int] },
                    )
                },
            },
    {
        let w = match parse_u8(input) {
            Some(w) => w,
            None => return Err(SelectorNotice::InvalidWeight),
        };
        if group >= self.offers.len() {
            return Err(SelectorNotice::GroupNotFound);
        }
        if pos >= self.offers[group].len() {
            return Err(SelectorNotice::OfferNotFound);
        }
        let ghost before = self.offers@[group as int]@;
        self.offers[group][pos].weight = w;
        assert(self.offers@[group as int]@ =~= before.update(
            pos as int,
            WeightedOffer { weight: w, ..before[pos as int] },
        ));
        Ok(())
    }

    /// Adds `offer` to the end of group `group`.
    pub fn select(&mut self, group: usize, offer: WeightedOffer) -> (r: Result<(), SelectorNotice>)
        ensures
            if group < old(self).offers@.len() {
                &&& r is Ok
                &&& final(self).offers@ == old(self).offers@.update(
                    group as int,
                    final(self).offers@[group as int],
                )
                &&& final(self).offers@[group as int]@ == old(self).offers@[group as int]@.push(offer)
            } else {
                r == Err::<(), SelectorNotice>(SelectorNotice::GroupNotFound) && final(self).offers
                    == old(self).offers
            },
    {
        if group >= self.offers.len() {
            return Err(SelectorNotice::GroupNotFound);
        }
        self.offers[group].push(offer);
        Ok(())
    }

    /// Removes offer `pos` of group `group`; with no such group nothing happens.
    pub fn remove_offer(&mut self, group: usize, pos: usize)
        requires
            group < old(self).offers@.len() ==> pos < old(self).offers@[group as int]@.len(),
        ensures
            if group < old(self).offers@.len() {
                &&& final(self).offers@ == old(self).offers@.update(
                    group as int,
                    final(self).offers@[group as int],
                )
                &&& final(self).offers@[group as int]@ == old(self).offers@[group as int]@.remove(
                    pos as int,
                )
            } else {
                final(self).offers == old(self).offers
            },
    {
        if group < self.offers.len() {
            self.offers[group].remove(pos);
        }
    }

    /// Whether the header reads "Offers" (a single group) rather than
    /// "Offer Groups".
    pub fn header_is_single_group(&self) -> (r: bool)
        ensures
            r == (self.offers@.len() == 1),
    {
        self.offers.len() == 1
    }

    /// The "Offer Group {n} of {m}" label of group `group_pos`, with the
    /// numbers the editor shows (`m` is one more than the number of groups);
    /// none when there is a single group.
    pub fn offer_group_label(&self, group_pos: usize) -> (r: Option<(usize, usize)>)
        requires
            group_pos < self.offers@.len(),
            self.offers@.len() < usize::MAX,
        ensures
            r == (if self.offers@.len() == 1 {
                None
            } else {
                Some(((group_pos + 1) as usize, (self.offers@.len() + 1) as usize))
            }),
    {
        if self.offers.len() == 1 {
            None
        } else {
            Some((group_pos + 1, self.offers.len() + 1))
        }
    }
}

/// The landing pages of a sequence being picked.
#[derive(Debug)]
pub struct LandingPageSelector {
    pub landing_pages: Vec<WeightedLandingPage>,
}

impl LandingPageSelector {
    /// A selector with no landing page picked.
    pub fn create() -> (r: LandingPageSelector)
        ensures
            r.landing_pages@.len() == 0,
    {
        LandingPageSelector { landing_pages: Vec::new() }
    }

    /// Sets the weight of landing page `pos` to the typed number (nothing
    /// changes where there is no such page).
    pub fn update_weight(&mut self, pos: usize, input: &str) -> (r: Result<(), SelectorNotice>)
        ensures
            match spec_parse_u8(input@) {
                None => r == Err::<(), SelectorNotice>(SelectorNotice::InvalidWeight)
                    && final(self).landing_pages == old(self).landing_pages,
                Some(w) => r is Ok && if pos < old(self).landing_pages@.len() {
                    final(self).landing_pages@ == old(self).landing_pages@.update(
                        pos as int,
                        WeightedLandingPage { weight: w, ..old(self).landing_pages@[pos as int] },
                    )
                } else {
                    final(self).landing_pages == old(self).landing_pages
                },
            },
    {
        let w = match parse_u8(input) {
            Some(w) => w,
            None => return Err(SelectorNotice::InvalidWeight),
        };
        if pos < self.landing_pages.len() {
            let ghost before = self.landing_pages@;
            self.landing_pages[pos].weight = w;
            assert(self.landing_pages@ =~= before.update(
                pos as int,
                WeightedLandingPage { weight: w, ..before[pos as int] },
            ));
        }
        Ok(())
    }

    /// Adds `landing_page` with weight 100.
    pub fn select(&mut self, landing_page: LandingPage)
        ensures
            final(self).landing_pages@ == old(self).landing_pages@.push(
                WeightedLandingPage { weight: 100, landing_page },
            ),
    {
        self.landing_pages.push(WeightedLandingPage { weight: 100, landing_page });
    }

    /// Removes landing page `pos`.
    pub fn remove_landing_page(&mut self, pos: usize)
        requires
            pos < old(self).landing_pages@.len(),
        ensures
            final(self).landing_pages@ == old(self).landing_pages@.remove(pos as int),
    {
        self.landing_pages.remove(pos);
    }
}

/// The tags of an offer being typed.
#[derive(Debug)]
pub struct TagsSelector {
    pub tags: Vec<String>,
    pub tag: String,
}

impl TagsSelector {
    /// A selector with no tags and nothing typed.
    pub fn create() -> (r: TagsSelector)
        ensures
            r.tags@.len() == 0,
            r.tag@ == Seq::<char>::empty(),
    {
        TagsSelector { tags: Vec::new(), tag: String::new() }
    }

    /// Keeps the typed text.
    pub fn on_input(&mut self, value: String)
        ensures
            final(self).tag == value,
            final(self).tags == old(self).tags,
    {
        self.tag = value;
    }

    /// Adds the typed text as a tag and clears the input.
    pub fn on_enter(&mut self)
        ensures
            final(self).tags@ == old(self).tags@.push(old(self).tag),
            final(self).tag@ == Seq::<char>::empty(),
    {
        let t = self.tag.clone();
        self.tags.push(t);
        self.tag = String::new();
    }

    /// Removes tag `pos`.
    pub fn remove(&mut self, pos: usize)
        requires
            pos < old(self).tags@.len(),
        ensures
            final(self).tags@ == old(self).tags@.remove(pos as int),
            final(self).tag == old(self).tag,
    {
        self.tags.remove(pos);
    }

    /// Takes the owner's tags.
    pub fn change(&mut self, tags: Vec<String>)
        ensures
            final(self).tags == tags,
            final(self).tag == old(self).tag,
    {
        self.tags = tags;
    }
}

/// The URL tokens picked for a landing page URL, by code.
#[derive(Debug)]
pub struct LanderURLTokenSelector {
    pub selected: Vec<ItemCode>,
}

impl LanderURLTokenSelector {
    /// Picks `token`, or drops it where it is picked already.
    pub fn on_select(&mut self, token: ItemCode)
        ensures
            final(self).selected@ == toggled(old(self).selected@, token),
    {
        toggle_code(&mut self.selected, token);
    }
}

/// A URL parameter of a traffic source and the token it carries.
#[derive(Debug)]
pub struct TokenParameter {
    pub parameter: String,
    pub placeholder: String,
}

/// A custom URL parameter of a traffic source.
#[derive(Debug)]
pub struct CustomParameter {
    pub name: String,
    pub parameter: String,
    pub placeholder: String,
    pub is_tracked: bool,
}

/// `c` is a new, untracked custom parameter with empty texts.
pub open spec fn is_blank_custom(c: CustomParameter) -> bool {
    &&& c.name@.len() == 0
    &&& c.parameter@.len() == 0
    &&& c.placeholder@.len() == 0
    &&& !c.is_tracked
}

/// Which text of a custom parameter is typed into.
#[derive(Clone, Copy, Debug, PartialEq, Eq, Structural)]
pub enum CustomField {
    Name,
    Parameter,
    Placeholder,
}

/// The URL parameters of a traffic source being configured.
#[derive(Debug)]
pub struct TrafficSourceUrlParameterConfig {
    pub external_id: TokenParameter,
    pub cost: TokenParameter,
    pub custom: Vec<CustomParameter>,
}

/// The most custom parameters a traffic source may have.
pub const MAX_CUSTOM_PARAMETERS: usize = 10;

impl TrafficSourceUrlParameterConfig {
    /// A configuration has at most ten custom parameters.
    pub open spec fn wf(self) -> bool {
        self.custom@.len() <= MAX_CUSTOM_PARAMETERS
    }

    /// A configuration with empty parameters and no custom ones.
    pub fn create() -> (r: TrafficSourceUrlParameterConfig)
        ensures
            r.external_id.parameter@.len() == 0,
            r.external_id.placeholder@.len() == 0,
            r.cost.parameter@.len() == 0,
            r.cost.placeholder@.len() == 0,
            r.custom@.len() == 0,
            r.wf(),
    {
        TrafficSourceUrlParameterConfig {
            external_id: TokenParameter { parameter: String::new(), placeholder: String::new() },
            cost: TokenParameter { parameter: String::new(), placeholder: String::new() },
            custom: Vec::new(),
        }
    }

    /// Adds a blank custom parameter, unless there are ten already.
    pub fn add_custom_variable(&mut self) -> (r: Result<(), SelectorNotice>)
        ensures
            old(self).wf() ==> final(self).wf(),
            final(self).external_id == old(self).external_id,
            final(self).cost == old(self).cost,
            if old(self).custom@.len() >= MAX_CUSTOM_PARAMETERS {
                r == Err::<(), SelectorNotice>(SelectorNotice::TooManyCustomParameters)
                    && final(self).custom == old(self).custom
            } else {
                &&& r is Ok
                &&& final(self).custom@.len() == old(self).custom@.len() + 1
                &&& final(self).custom@.drop_last() == old(self).custom@
                &&& is_blank_custom(final(self).custom@.last())
            },
    {
        if self.custom.len() >= MAX_CUSTOM_PARAMETERS {
            return Err(SelectorNotice::TooManyCustomParameters);
        }
        let ghost before = self.custom@;
        self.custom.push(
            CustomParameter {
                name: String::new(),
                parameter: String::new(),
                placeholder: String::new(),
                is_tracked: false,
            },
        );
        assert(self.custom@.drop_last() =~= before);
        Ok(())
    }

    /// Sets the cost parameter's name.
    pub fn update_cost_parameter(&mut self, value: String)
        ensures
            old(self).wf() ==> final(self).wf(),
            final(self).cost == (TokenParameter { parameter: value, ..old(self).cost }),
            final(self).external_id == old(self).external_id,
            final(self).custom == old(self).custom,
    {
        self.cost.parameter = value;
    }

    /// Sets the cost parameter's token.
    pub fn update_cost_placeholder(&mut self, value: String)
        ensures
            old(self).wf() ==> final(self).wf(),
            final(self).cost == (TokenParameter { placeholder: value, ..old(self).cost }),
            final(self).external_id == old(self).external_id,
            final(self).custom == old(self).custom,
    {
        self.cost.placeholder = value;
    }

    /// Sets the external-id parameter's name.
    pub fn update_external_id_parameter(&mut self, value: String)
        ensures
            old(self).wf() ==> final(self).wf(),
            final(self).external_id == (TokenParameter { parameter: value, ..old(self).external_id }),
            final(self).cost == old(self).cost,
            final(self).custom == old(self).custom,
    {
        self.external_id.parameter = value;
    }

    /// Sets the external-id parameter's token.
    pub fn update_external_id_placeholder(&mut self, value: String)
        ensures
            old(self).wf() ==> final(self).wf(),
            final(self).external_id == (TokenParameter { placeholder: value, ..old(self).external_id }),
            final(self).cost == old(self).cost,
            final(self).custom == old(self).custom,
    {
        self.external_id.placeholder = value;
    }

    /// Sets a text of custom parameter `pos` (nothing changes where there is
    /// no such parameter).
    pub fn update_custom_variable(&mut self, pos: usize, field: CustomField, value: String)
        ensures
            old(self).wf() ==> final(self).wf(),
            final(self).external_id == old(self).external_id,
            final(self).cost == old(self).cost,
            if pos < old(self).custom@.len() {
                final(self).custom@ == old(self).custom@.update(
                    pos as int,
                    match field {
                        CustomField::Name => CustomParameter { name: value, ..old(self).custom@[pos as int] },
                        CustomField::Parameter => CustomParameter {
                            parameter: value,
                            ..old(self).custom@[pos as int]
                        },
                        CustomField::Placeholder => CustomParameter {
                            placeholder: value,
                            ..old(self).custom@[pos as int]
                        },
                    },
                )
            } else {
                final(self).custom == old(self).custom
            },
    {
        if pos < self.custom.len() {
            let ghost before = self.custom@;
            match field {
                CustomField::Name => {
                    self.custom[pos].name = value;
                },
                CustomField::Parameter => {
                    self.custom[pos].parameter = value;
                },
                CustomField::Placeholder => {
                    self.custom[pos].placeholder = value;
                },
            }
            assert(self.custom@ =~= before.update(pos as int, self.custom@[pos as int]));
        }
    }

    /// Switches tracking of custom parameter `pos` on or off.
    pub fn toggle_custom_variable_is_active(&mut self, pos: usize)
        ensures
            old(self).wf() ==> final(self).wf(),
            final(self).external_id == old(self).external_id,
            final(self).cost == old(self).cost,
            if pos < old(self).custom@.len() {
                final(self).custom@ == old(self).custom@.update(
                    pos as int,
                    CustomParameter {
                        is_tracked: !old(self).custom@[pos as int].is_tracked,
                        ..old(self).custom@[pos as int]
                    },
                )
            } else {
                final(self).custom == old(self).custom
            },
    {
        if pos < self.custom.len() {
            let ghost before = self.custom@;
            let t = !self.custom[pos].is_tracked;
            self.custom[pos].is_tracked = t;
            assert(self.custom@ =~= before.update(
                pos as int,
                CustomParameter { is_tracked: t, ..before[pos as int] },
            ));
        }
    }

    /// Takes the parameters handed by the owner; the bound of ten holds
    /// after it where the handed list keeps it.
    pub fn change(&mut self, external_id: TokenParameter, cost: TokenParameter, custom: Vec<CustomParameter>)
        ensures
            final(self).external_id == external_id,
            final(self).cost == cost,
            final(self).custom == custom,
            final(self).wf() == (custom@.len() <= MAX_CUSTOM_PARAMETERS),
    {
        self.external_id = external_id;
        self.cost = cost;
        self.custom = custom;
    }

    /// Removes custom parameter `pos`.
    pub fn remove_custom_variable(&mut self, pos: usize)
        requires
            pos < old(self).custom@.len(),
        ensures
            old(self).wf() ==> final(self).wf(),
            final(self).external_id == old(self).external_id,
            final(self).cost == old(self).cost,
            final(self).custom@ == old(self).custom@.remove(pos as int),
    {
        self.custom.remove(pos);
    }
}

/// Which referrer-handling button is lit.
#[derive(Clone, Copy, Debug, PartialEq, Eq, Structural)]
pub enum ReferrerHandlingChoice {
    DoNothing,
    RemoveAll,
    Replace,
}

/// The referrer-handling picker.
#[derive(Debug)]
pub struct ReferrerHandlingDropdown {
    pub list_name: String,
    pub selected_list: Option<ReplaceReferrerList>,
    pub referrer_replace_list_active: bool,
}

impl ReplaceReferrerList {
    /// A copy of this list.
    pub fn duplicate(&self) -> (r: ReplaceReferrerList)
        ensures
            r == *self,
    {
        ReplaceReferrerList { name_of_list: self.name_of_list.clone() }
    }
}

impl ReferrerHandlingDropdown {
    /// A picker for the current handling: the list name shows where it
    /// replaces from a list.
    pub fn create(selected: &Option<ReferrerHandling>) -> (r: ReferrerHandlingDropdown)
        ensures
            match selected {
                Some(ReferrerHandling::Replace(l)) => r.list_name == l.name_of_list,
                _ => r.list_name@.len() == 0,
            },
            r.selected_list is None,
            !r.referrer_replace_list_active,
    {
        let list_name = match selected {
            Some(ReferrerHandling::Replace(l)) => l.name_of_list.clone(),
            _ => String::new(),
        };
        ReferrerHandlingDropdown { list_name, selected_list: None, referrer_replace_list_active: false }
    }

    /// Picks a replacement list; gives back the handling to pass on.
    pub fn select_list(&mut self, list: ReplaceReferrerList) -> (r: ReferrerHandling)
        ensures
            final(self).list_name == list.name_of_list,
            final(self).selected_list == Some(list),
            final(self).referrer_replace_list_active == old(self).referrer_replace_list_active,
            r == ReferrerHandling::Replace(list),
    {
        self.list_name = list.name_of_list.clone();
        self.selected_list = Some(list.duplicate());
        ReferrerHandling::Replace(list)
    }

    /// Picks a handling; the list picker shows when it replaces from a list.
    /// Gives back the handling to pass on.
    pub fn select(&mut self, data: ReferrerHandling) -> (r: ReferrerHandling)
        ensures
            final(self).referrer_replace_list_active == (data is Replace),
            final(self).list_name == old(self).list_name,
            final(self).selected_list == old(self).selected_list,
            r == data,
    {
        self.referrer_replace_list_active = match &data {
            ReferrerHandling::Replace(_) => true,
            _ => false,
        };
        data
    }
}

/// The button lit for `selected` (doing nothing where none is given).
pub fn highlighted_choice(selected: &Option<ReferrerHandling>) -> (r: ReferrerHandlingChoice)
    ensures
        r == (match selected {
            Some(ReferrerHandling::RemoveAll) => ReferrerHandlingChoice::RemoveAll,
            Some(ReferrerHandling::Replace(_)) => ReferrerHandlingChoice::Replace,
            _ => ReferrerHandlingChoice::DoNothing,
        }),
{
    match selected {
        Some(ReferrerHandling::RemoveAll) => ReferrerHandlingChoice::RemoveAll,
        Some(ReferrerHandling::Replace(_)) => ReferrerHandlingChoice::Replace,
        _ => ReferrerHandlingChoice::DoNothing,
    }
}

/// A check box.
#[derive(Clone, Copy, Debug, PartialEq, Eq, Structural)]
pub struct CheckBox {
    pub checked: bool,
}

impl CheckBox {
    /// Flips the box; gives back the new state to pass on.
    pub fn toggle(&mut self) -> (r: bool)
        ensures
            final(self).checked == !old(self).checked,
            r == final(self).checked,
    {
        self.checked = !self.checked;
        self.checked
    }
}

} // verus!
