//! The pages of the application, the tabs that show them, and the decisions
//! that depend on which page is showing.

use vstd::prelude::*;

verus! {

/// A page of the application.
#[derive(Clone, Copy, Debug, PartialEq, Eq, Structural)]
pub enum AppRoute {
    Dashboard,
    Campaign,
    Offers,
    Landers,
    Sequences,
    Funnels,
    Traffic,
    OfferSources,
    Connection,
    ISPCarrier,
    MobileCarrier,
    Proxy,
    Devices,
    Brand,
    Model,
    OS,
    OSVersion,
    Browser,
    BrowserVersion,
    DateDay,
    DateMonth,
    DayOfWeek,
    HourOfDay,
    Conversions,
    Account,
    CustomConversions,
    ReferrerHandling,
}

/// A tab, by the page it shows.
#[derive(Clone, Copy, Debug, PartialEq, Eq, Structural)]
pub struct RouteTab {
    pub app_route: AppRoute,
}

/// Which tab is in front: the main tab, or a report tab.
#[derive(Clone, Copy, Debug, PartialEq, Eq, Structural)]
pub enum ActivatedTab {
    MainTab,
    ReportTabState(RouteTab),
}

/// The tabs of the application.
#[derive(Clone, Copy, Debug, PartialEq, Eq, Structural)]
pub struct TabState {
    pub main_tab: RouteTab,
    pub active_tab: ActivatedTab,
}

/// The state of the application, as far as routing reads it.
#[derive(Clone, Copy, Debug, PartialEq, Eq, Structural)]
pub struct AppState {
    pub tab_state: TabState,
}

impl TabState {
    /// The page of the tab in front.
    pub open spec fn active_route(self) -> AppRoute {
        match self.active_tab {
            ActivatedTab::MainTab => self.main_tab.app_route,
            ActivatedTab::ReportTabState(tab) => tab.app_route,
        }
    }
}

/// Whether `route` is the page of the tab in front.
pub fn app_route_matches(route: AppRoute, state: &AppState) -> (r: bool)
    ensures
        r == (state.tab_state.active_route() == route),
{
    match state.tab_state.active_tab {
        ActivatedTab::MainTab => state.tab_state.main_tab.app_route == route,
        ActivatedTab::ReportTabState(tab) => tab.app_route == route,
    }
}

/// The component that the root of the application shows.
#[derive(Clone, Copy, Debug, PartialEq, Eq, Structural)]
pub enum RootView {
    /// The reports of the tracker.
    Main,
    /// The account settings.
    Account,
    /// No page is chosen: the root shows a not-found text.
    NoChildComponent,
}

/// Whether a page belongs to the account settings.
pub open spec fn is_account_route(route: AppRoute) -> bool {
    route == AppRoute::Account || route == AppRoute::CustomConversions || route
        == AppRoute::ReferrerHandling
}

/// The component shown for the chosen page: the account settings for their
/// three pages, the reports for every other page.
pub fn root_view(child_component: Option<AppRoute>) -> (r: RootView)
    ensures
        r == (match child_component {
            None => RootView::NoChildComponent,
            Some(route) => if is_account_route(route) {
                RootView::Account
            } else {
                RootView::Main
            },
        }),
{
    match child_component {
        None => RootView::NoChildComponent,
        Some(AppRoute::Account) | Some(AppRoute::CustomConversions) | Some(
            AppRoute::ReferrerHandling,
        ) => RootView::Account,
        Some(_) => RootView::Main,
    }
}

/// The anchor of the editing dialog of a page, where the page has one.
pub open spec fn spec_update_href(route: AppRoute) -> Seq<char> {
    match route {
        AppRoute::OfferSources => "#offer-sources"@,
        AppRoute::Offers => "#offer"@,
        AppRoute::Landers => "#landing-pages"@,
        AppRoute::Traffic => "#traffic-sources"@,
        AppRoute::Funnels => "#funnels"@,
        AppRoute::Campaign => "#campaigns"@,
        _ => ""@,
    }
}

/// The anchor of the editing dialog that the Edit button opens on `route`;
/// empty where the page has no such dialog.
pub fn update_href(route: AppRoute) -> (r: String)
    ensures
        r@ == spec_update_href(route),
{
    proof {
        reveal_strlit("#offer-sources");
        reveal_strlit("#offer");
        reveal_strlit("#landing-pages");
        reveal_strlit("#traffic-sources");
        reveal_strlit("#funnels");
        reveal_strlit("#campaigns");
        reveal_strlit("");
    }
    match route {
        AppRoute::OfferSources => String::from_str("#offer-sources"),
        AppRoute::Offers => String::from_str("#offer"),
        AppRoute::Landers => String::from_str("#landing-pages"),
        AppRoute::Traffic => String::from_str("#traffic-sources"),
        AppRoute::Funnels => String::from_str("#funnels"),
        AppRoute::Campaign => String::from_str("#campaigns"),
        _ => String::new(),
    }
}

/// Whether the elements of a page can be created and edited.
pub open spec fn is_creatable_route(route: AppRoute) -> bool {
    ||| route == AppRoute::OfferSources
    ||| route == AppRoute::Traffic
    ||| route == AppRoute::Funnels
    ||| route == AppRoute::Sequences
    ||| route == AppRoute::Landers
    ||| route == AppRoute::Offers
    ||| route == AppRoute::Campaign
}

impl TabState {
    /// Whether the main tab shows a page whose elements can be edited.
    pub fn creatable_elem_btn_should_render(&self) -> (r: bool)
        ensures
            r == is_creatable_route(self.main_tab.app_route),
    {
        match self.main_tab.app_route {
            AppRoute::OfferSources | AppRoute::Traffic | AppRoute::Funnels | AppRoute::Sequences
            | AppRoute::Landers | AppRoute::Offers | AppRoute::Campaign => true,
            _ => false,
        }
    }

    /// Whether the main tab is in front.
    pub fn only_render_if_is_main_tab(&self) -> (r: bool)
        ensures
            r == (self.active_tab == ActivatedTab::MainTab),
    {
        match self.active_tab {
            ActivatedTab::MainTab => true,
            ActivatedTab::ReportTabState(_) => false,
        }
    }

    /// Whether the Edit button shows: the main tab is in front, its page's
    /// elements can be edited, and exactly one element is selected.
    pub fn edit_button_shows(&self, selected_count: usize) -> (r: bool)
        ensures
            r == (is_creatable_route(self.main_tab.app_route) && self.active_tab
                == ActivatedTab::MainTab && selected_count == 1),
    {
        self.creatable_elem_btn_should_render() && self.only_render_if_is_main_tab()
            && selected_count == 1
    }
}

/// The Edit button belongs to the pages whose elements have an editing
/// dialog, and to the sequences page: a page is editable exactly when it has
/// a dialog anchor or is the sequences page. No account page is editable.
pub proof fn lemma_editable_pages(route: AppRoute)
    ensures
        is_creatable_route(route) <==> (spec_update_href(route).len() > 0 || route
            == AppRoute::Sequences),
        is_account_route(route) ==> !is_creatable_route(route),
{
    reveal_strlit("#offer-sources");
    reveal_strlit("#offer");
    reveal_strlit("#landing-pages");
    reveal_strlit("#traffic-sources");
    reveal_strlit("#funnels");
    reveal_strlit("#campaigns");
    reveal_strlit("");
}

/// The tab in front decides which page matches: the main tab's page when it
/// is in front, the report tab's page otherwise, and no other page.
pub proof fn lemma_front_tab_decides(state: AppState, other: AppRoute)
    ensures
        state.tab_state.active_tab == ActivatedTab::MainTab ==> state.tab_state.active_route()
            == state.tab_state.main_tab.app_route,
        state.tab_state.active_tab matches ActivatedTab::ReportTabState(t) ==> state.tab_state.active_route()
            == t.app_route,
{
}

} // verus!
