use abe_frontend::routes::{
    app_route_matches, root_view, update_href, ActivatedTab, AppRoute, AppState, RootView, RouteTab,
    TabState,
};

fn state(main: AppRoute, active: ActivatedTab) -> AppState {
    AppState { tab_state: TabState { main_tab: RouteTab { app_route: main }, active_tab: active } }
}

#[test]
fn route_matches_the_tab_in_front() {
    let s = state(AppRoute::Campaign, ActivatedTab::MainTab);
    assert!(app_route_matches(AppRoute::Campaign, &s));
    assert!(!app_route_matches(AppRoute::Offers, &s));
    let s = state(
        AppRoute::Campaign,
        ActivatedTab::ReportTabState(RouteTab { app_route: AppRoute::Browser }),
    );
    assert!(app_route_matches(AppRoute::Browser, &s));
    assert!(!app_route_matches(AppRoute::Campaign, &s));
}

#[test]
fn root_shows_account_pages_apart() {
    assert_eq!(root_view(None), RootView::NoChildComponent);
    assert_eq!(root_view(Some(AppRoute::Account)), RootView::Account);
    assert_eq!(root_view(Some(AppRoute::CustomConversions)), RootView::Account);
    assert_eq!(root_view(Some(AppRoute::ReferrerHandling)), RootView::Account);
    assert_eq!(root_view(Some(AppRoute::Dashboard)), RootView::Main);
    assert_eq!(root_view(Some(AppRoute::HourOfDay)), RootView::Main);
}

#[test]
fn edit_dialog_anchors() {
    assert_eq!(update_href(AppRoute::OfferSources), "#offer-sources");
    assert_eq!(update_href(AppRoute::Offers), "#offer");
    assert_eq!(update_href(AppRoute::Landers), "#landing-pages");
    assert_eq!(update_href(AppRoute::Traffic), "#traffic-sources");
    assert_eq!(update_href(AppRoute::Funnels), "#funnels");
    assert_eq!(update_href(AppRoute::Campaign), "#campaigns");
    assert_eq!(update_href(AppRoute::Sequences), "");
}

#[test]
fn edit_button_needs_main_tab_editable_page_and_one_selection() {
    let t = state(AppRoute::Offers, ActivatedTab::MainTab).tab_state;
    assert!(t.edit_button_shows(1));
    assert!(!t.edit_button_shows(0));
    assert!(!t.edit_button_shows(2));
    let t = state(AppRoute::Dashboard, ActivatedTab::MainTab).tab_state;
    assert!(!t.edit_button_shows(1));
    let t = state(AppRoute::Offers, ActivatedTab::ReportTabState(RouteTab { app_route: AppRoute::OS }))
        .tab_state;
    assert!(!t.edit_button_shows(1));
    assert!(t.creatable_elem_btn_should_render());
    assert!(!t.only_render_if_is_main_tab());
}
