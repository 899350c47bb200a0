use abe_frontend::condition_view::{
    ip_range_pieces, read_ip_ranges, ConditionControls, read_urls, ChoiceKind, ClockBound, Condition, ConditionData,
    ConditionDataType, ConditionNotice, ConditionView, EditMode, IpRange, IpValue, TextKind,
};
use abe_frontend::text::ClockTimeError;

fn text_condition(kind: TextKind) -> ConditionDataType {
    ConditionDataType::Text(kind, vec![])
}

fn lines(c: &Option<Condition>) -> Vec<String> {
    match c {
        Some(Condition { condition_data_type: ConditionDataType::Text(_, v), .. }) => v.clone(),
        _ => panic!("not a text condition"),
    }
}

#[test]
fn text_condition_takes_buffered_lines() {
    let mut v = ConditionView::new(vec![]);
    v.select_condition(text_condition(TextKind::Brand));
    assert!(v.update_active_data(ConditionData::Text("Apple\r\nSamsung\n".to_string())).is_empty());
    assert_eq!(v.tmp_buff, "Apple\r\nSamsung\n");
    assert!(v.commit_text_buffer().is_empty());
    assert_eq!(lines(&v.active_condition), vec!["Apple".to_string(), "Samsung".to_string()]);
    assert_eq!(v.tmp_buff, "");
}

#[test]
fn referrer_lines_are_read_as_urls() {
    let mut v = ConditionView::new(vec![]);
    v.select_condition(text_condition(TextKind::Referrer));
    v.update_active_data(ConditionData::Text("https://example.com\nnot a url".to_string()));
    let notices = v.commit_text_buffer();
    assert_eq!(notices, vec![ConditionNotice::UrlParseError("not a url".to_string())]);
    assert_eq!(lines(&v.active_condition), vec!["https://example.com/".to_string()]);
}

#[test]
fn read_urls_serializes_and_reports() {
    let (urls, notices) = read_urls(&vec!["HTTP://A.com/x".to_string(), "".to_string()]);
    assert_eq!(urls, vec!["http://a.com/x".to_string()]);
    assert_eq!(notices, vec![ConditionNotice::UrlParseError("".to_string())]);
}

#[test]
fn edit_of_wrong_kind_is_reported() {
    let mut v = ConditionView::new(vec![]);
    v.select_condition(ConditionDataType::Choice(ChoiceKind::Country, vec![]));
    assert_eq!(
        v.update_active_data(ConditionData::Text("x".to_string())),
        vec![ConditionNotice::WrongConditionDataType]
    );
    assert_eq!(
        v.update_active_data(ConditionData::Choice(ChoiceKind::Language, 3)),
        vec![ConditionNotice::WrongConditionDataType]
    );
}

#[test]
fn choice_pick_toggles() {
    let mut v = ConditionView::new(vec![]);
    v.select_condition(ConditionDataType::Choice(ChoiceKind::Country, vec![]));
    v.update_active_data(ConditionData::Choice(ChoiceKind::Country, 7));
    v.update_active_data(ConditionData::Choice(ChoiceKind::Country, 9));
    v.update_active_data(ConditionData::Choice(ChoiceKind::Country, 7));
    match &v.active_condition {
        Some(Condition { condition_data_type: ConditionDataType::Choice(_, picked), .. }) => {
            assert_eq!(picked, &vec![9])
        }
        _ => panic!(),
    }
}

#[test]
fn no_active_condition_is_reported() {
    let mut v = ConditionView::new(vec![]);
    assert_eq!(v.submit_condition(), vec![ConditionNotice::NoActiveCondition]);
    assert!(v.commit_text_buffer().is_empty());
    assert_eq!(
        v.update_active_data(ConditionData::Text("x".to_string())),
        vec![ConditionNotice::NoActiveCondition]
    );
}

#[test]
fn clock_time_edits() {
    let mut v = ConditionView::new(vec![]);
    v.select_condition(ConditionDataType::TimeOfDay("0:0".to_string(), "23:59".to_string(), 1));
    assert!(v
        .update_active_data(ConditionData::TimeOfDay(Some(ClockBound::Start("08:30".to_string())), None))
        .is_empty());
    assert_eq!(
        v.update_active_data(ConditionData::TimeOfDay(Some(ClockBound::End("8".to_string())), None)),
        vec![ConditionNotice::ClockTime(ClockTimeError::NotTwoParts)]
    );
    v.update_active_data(ConditionData::TimeOfDay(None, Some(4)));
    match &v.active_condition {
        Some(Condition { condition_data_type: ConditionDataType::TimeOfDay(a, b, z), .. }) => {
            assert_eq!(a, "08:30");
            assert_eq!(b, "23:59");
            assert_eq!(*z, 4);
        }
        _ => panic!(),
    }
}

#[test]
fn ip_ranges_and_their_notices() {
    let a = Some(IpValue::V4(1));
    let b = Some(IpValue::V4(9));
    let (ranges, notices) = read_ip_ranges(&vec![
        vec![a, b],
        vec![None, b],
        vec![a],
        vec![a, None],
        vec![a, b, None, Some(IpValue::V4(5))],
    ]);
    assert_eq!(
        ranges,
        vec![
            IpRange { start: IpValue::V4(1), end: IpValue::V4(9) },
            IpRange { start: IpValue::V4(1), end: IpValue::V4(5) },
        ]
    );
    assert_eq!(
        notices,
        vec![
            ConditionNotice::LeftIpParseError,
            ConditionNotice::LeftIpMissing,
            ConditionNotice::RightIpMissing,
            ConditionNotice::RightIpParseError,
            ConditionNotice::RightIpMissing,
            ConditionNotice::RightIpParseError,
        ]
    );
}

#[test]
fn inclusion_toggles_twice_back() {
    let mut v = ConditionView::new(vec![]);
    v.select_condition(text_condition(TextKind::City));
    v.toggle_inclusion();
    assert_eq!(v.active_condition.as_ref().unwrap().included, false);
    v.toggle_inclusion();
    assert_eq!(v.active_condition.as_ref().unwrap().included, true);
}

#[test]
fn submit_appends_new_and_replaces_edited() {
    let mut v = ConditionView::new(vec![]);
    v.new_condition();
    v.select_condition(text_condition(TextKind::City));
    assert!(v.submit_condition().is_empty());
    assert_eq!(v.conditions.len(), 1);
    assert!(v.active_condition.is_none());
    v.edit_condition(0);
    assert_eq!(v.mode, EditMode::Edit);
    v.toggle_inclusion();
    v.submit_condition();
    assert_eq!(v.conditions.len(), 1);
    assert!(!v.conditions[0].included);
    v.remove_condition(0);
    assert!(v.conditions.is_empty());
}

#[test]
fn ip_text_is_cut_into_trimmed_pieces() {
    for text in ["1.1.1.1 - 1.1.1.9\n::1-::2\r\n", "", "a--b", " x \n\n y-"] {
        let want: Vec<Vec<String>> = text
            .lines()
            .map(|l| l.split('-').map(|p| p.trim().to_string()).collect())
            .collect();
        assert_eq!(ip_range_pieces(text), want, "input {:?}", text);
    }
}

#[test]
fn text_area_shows_typed_text_or_saved_lines() {
    let mut v = ConditionView::new(vec![]);
    assert_eq!(v.text_area_value(), None);
    v.select_condition(ConditionDataType::Text(TextKind::City, vec!["Paris".to_string(), "Rome".to_string()]));
    assert_eq!(v.text_area_value(), Some("Paris\nRome\n".to_string()));
    v.update_active_data(ConditionData::Text("Oslo".to_string()));
    assert_eq!(v.text_area_value(), Some("Oslo".to_string()));
    v.tmp_buff.clear();
    v.select_condition(ConditionDataType::Text(TextKind::Brand, vec!["A".to_string(), "B".to_string()]));
    assert_eq!(v.text_area_value(), Some("A\nB\n".to_string()));
    v.select_condition(ConditionDataType::Text(TextKind::ISP, vec!["X".to_string()]));
    assert_eq!(v.text_area_value(), Some(String::new()));
    v.update_active_data(ConditionData::Text("typed".to_string()));
    assert_eq!(v.text_area_value(), Some("X\n".to_string()));
    v.select_condition(ConditionDataType::IP(vec![]));
    assert_eq!(v.text_area_value(), None);
}

#[test]
fn week_day_picked_twice_is_restored() {
    let mut v = ConditionView::new(vec![]);
    v.select_condition(ConditionDataType::Weekday(vec![1], 0));
    v.update_active_data(ConditionData::WeekDays(Some(3), None));
    v.update_active_data(ConditionData::WeekDays(Some(3), None));
    match &v.active_condition {
        Some(Condition { condition_data_type: ConditionDataType::Weekday(d, 0), .. }) => assert_eq!(d, &vec![1]),
        _ => panic!(),
    }
}

#[test]
fn controls_follow_the_condition_kind() {
    let mut v = ConditionView::new(vec![]);
    assert!(v.condition_controls().is_none());
    v.select_condition(ConditionDataType::Choice(ChoiceKind::DeviceType, vec![2, 5]));
    assert!(matches!(v.condition_controls(), Some(ConditionControls::Choices(ChoiceKind::DeviceType, p)) if p == vec![2, 5]));
    v.select_condition(ConditionDataType::Choice(ChoiceKind::Country, vec![7]));
    assert!(matches!(v.condition_controls(), Some(ConditionControls::CountryCodes(p)) if p == vec![7]));
    v.select_condition(ConditionDataType::Weekday(vec![1, 3], 9));
    assert!(matches!(v.condition_controls(), Some(ConditionControls::WeekDays(d, 9)) if d == vec![1, 3]));
    v.select_condition(ConditionDataType::TimeOfDay("00:00".to_string(), "23:59".to_string(), 2));
    assert!(matches!(v.condition_controls(), Some(ConditionControls::TimeRange(a, b, 2)) if a == "00:00" && b == "23:59"));
    v.select_condition(ConditionDataType::Text(TextKind::Browser, vec!["x".to_string()]));
    assert!(matches!(v.condition_controls(), Some(ConditionControls::TextArea(t)) if t == "x\n"));
}

#[test]
fn unedited_text_box_commits_back_the_same_lines() {
    let mut v = ConditionView::new(vec![]);
    v.select_condition(ConditionDataType::Text(TextKind::Brand, vec!["a".to_string(), "b".to_string()]));
    let shown = v.text_area_value().unwrap();
    v.update_active_data(ConditionData::Text(shown));
    v.commit_text_buffer();
    assert_eq!(lines(&v.active_condition), vec!["a".to_string(), "b".to_string()]);
}
