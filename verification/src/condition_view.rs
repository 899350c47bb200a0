//! The condition editor: the targeting conditions of a conditional sequence
//! (which visitors it applies to) and the state machine that edits them.

use vstd::prelude::*;
use crate::outside::{parse_url, url_parse_serialization};
use crate::seqs::{
    first_index, is_first_index, lemma_first_index_is, lemma_first_index_none, lemma_toggle_twice,
    toggle_code, toggled,
};
use crate::text::{
    lemma_split_append, lines_of, parse_clock_time, spec_lines, strip_cr, spec_parse_clock_time, split_on, split_seq, trim,
    trim_seq, ClockTimeError,
};

verus! {

/// A value of one of the fixed lists a condition picks from (connection
/// types, countries, device types, languages, week days, time zones), by the
/// number under which the list keeps it.
pub type ItemCode = u32;

/// The conditions whose data is a list of free-text lines.
#[derive(Clone, Copy, Debug, PartialEq, Eq, Structural)]
pub enum TextKind {
    Brand,
    Browser,
    City,
    ISP,
    MobileCarrier,
    OperatingSystem,
    Proxy,
    Region,
    Variable1,
    Variable2,
    Variable3,
    Variable4,
    Variable5,
    Variable6,
    Variable7,
    Variable8,
    Variable9,
    Variable10,
    /// Lines are read as URLs; lines that do not parse are dropped.
    Referrer,
    /// Lines are read as URLs; lines that do not parse are dropped.
    ReferrerDomain,
}

/// The conditions whose data is a set of values picked from a fixed list.
#[derive(Clone, Copy, Debug, PartialEq, Eq, Structural)]
pub enum ChoiceKind {
    ConnectionType,
    Country,
    DeviceType,
    Language,
}

/// An IP address: version 4 or 6, by its numeric value.
#[derive(Clone, Copy, Debug, PartialEq, Eq, Structural)]
pub enum IpValue {
    V4(u32),
    V6(u128),
}

/// An inclusive range of IP addresses.
#[derive(Clone, Copy, Debug, PartialEq, Eq, Structural)]
pub struct IpRange {
    pub start: IpValue,
    pub end: IpValue,
}

/// The kind and data of a condition.
#[derive(Debug)]
pub enum ConditionDataType {
    /// Free-text lines (or URLs, for the referrer kinds).
    Text(TextKind, Vec<String>),
    /// Values picked from a fixed list.
    Choice(ChoiceKind, Vec<ItemCode>),
    /// IP ranges.
    IP(Vec<IpRange>),
    /// A time range: start, end (as `H:M`) and time zone.
    TimeOfDay(String, String, ItemCode),
    /// Week days and time zone.
    Weekday(Vec<ItemCode>, ItemCode),
}

/// Mathematical form of `ConditionDataType`.
pub enum ConditionDataModel {
    Text(TextKind, Seq<Seq<char>>),
    Choice(ChoiceKind, Seq<ItemCode>),
    IP(Seq<IpRange>),
    TimeOfDay(Seq<char>, Seq<char>, ItemCode),
    Weekday(Seq<ItemCode>, ItemCode),
}

impl DeepView for ConditionDataType {
    type V = ConditionDataModel;

    open spec fn deep_view(&self) -> ConditionDataModel {
        match self {
            ConditionDataType::Text(k, v) => ConditionDataModel::Text(*k, v.deep_view()),
            ConditionDataType::Choice(k, v) => ConditionDataModel::Choice(*k, v@),
            ConditionDataType::IP(v) => ConditionDataModel::IP(v@),
            ConditionDataType::TimeOfDay(a, b, z) => ConditionDataModel::TimeOfDay(a@, b@, *z),
            ConditionDataType::Weekday(d, z) => ConditionDataModel::Weekday(d@, *z),
        }
    }
}

/// The kind of a condition: one of the text or choice kinds, IP ranges, time
/// of day, or week days. Saving a changed condition replaces the first listed
/// condition of its kind.
#[derive(Clone, Copy, Debug, PartialEq, Eq, Structural)]
pub enum ConditionKind {
    Text(TextKind),
    Choice(ChoiceKind),
    IP,
    TimeOfDay,
    Weekday,
}

impl ConditionDataModel {
    /// The kind of this data.
    pub open spec fn kind(self) -> ConditionKind {
        match self {
            ConditionDataModel::Text(k, _) => ConditionKind::Text(k),
            ConditionDataModel::Choice(k, _) => ConditionKind::Choice(k),
            ConditionDataModel::IP(_) => ConditionKind::IP,
            ConditionDataModel::TimeOfDay(..) => ConditionKind::TimeOfDay,
            ConditionDataModel::Weekday(..) => ConditionKind::Weekday,
        }
    }
}

impl ConditionDataType {
    /// The kind of this data.
    pub fn kind(&self) -> (k: ConditionKind)
        ensures
            k == self.deep_view().kind(),
    {
        match self {
            ConditionDataType::Text(k, _) => ConditionKind::Text(*k),
            ConditionDataType::Choice(k, _) => ConditionKind::Choice(*k),
            ConditionDataType::IP(_) => ConditionKind::IP,
            ConditionDataType::TimeOfDay(..) => ConditionKind::TimeOfDay,
            ConditionDataType::Weekday(..) => ConditionKind::Weekday,
        }
    }

    /// A copy of this data.
    pub fn duplicate(&self) -> (r: ConditionDataType)
        ensures
            r.deep_view() == self.deep_view(),
    {
        match self {
            ConditionDataType::Text(k, v) => ConditionDataType::Text(*k, copy_strings(v)),
            ConditionDataType::Choice(k, v) => ConditionDataType::Choice(*k, v.clone()),
            ConditionDataType::IP(v) => ConditionDataType::IP(v.clone()),
            ConditionDataType::TimeOfDay(a, b, z) => ConditionDataType::TimeOfDay(
                a.clone(),
                b.clone(),
                *z,
            ),
            ConditionDataType::Weekday(d, z) => ConditionDataType::Weekday(d.clone(), *z),
        }
    }
}

/// A copy of a list of strings.
pub fn copy_strings(v: &Vec<String>) -> (r: Vec<String>)
    ensures
        r.deep_view() == v.deep_view(),
{
    let mut r: Vec<String> = Vec::new();
    let mut i: usize = 0;
    while i < v.len()
        invariant
            i <= v.len(),
            r.deep_view() =~= v.deep_view().subrange(0, i as int),
        decreases v.len() - i,
    {
        let ghost before = r.deep_view();
        let c = v[i].clone();
        assert(c@ == v@[i as int]@);
        r.push(c);
        assert(r.deep_view() =~= before.push(v@[i as int]@));
        i = i + 1;
        assert(r.deep_view() =~= v.deep_view().subrange(0, i as int));
    }
    assert(v.deep_view().subrange(0, i as int) =~= v.deep_view());
    r
}

/// A targeting condition: its data and whether matching visitors are
/// included (white list) or excluded (black list).
#[derive(Debug)]
pub struct Condition {
    pub condition_data_type: ConditionDataType,
    pub included: bool,
}

/// Mathematical form of `Condition`.
pub struct ConditionModel {
    pub data: ConditionDataModel,
    pub included: bool,
}

impl DeepView for Condition {
    type V = ConditionModel;

    open spec fn deep_view(&self) -> ConditionModel {
        ConditionModel { data: self.condition_data_type.deep_view(), included: self.included }
    }
}

impl Condition {
    /// A copy of this condition.
    pub fn duplicate(&self) -> (r: Condition)
        ensures
            r.deep_view() == self.deep_view(),
    {
        Condition { condition_data_type: self.condition_data_type.duplicate(), included: self.included }
    }
}

/// One end of a time-of-day range, as typed.
#[derive(Debug)]
pub enum ClockBound {
    Start(String),
    End(String),
}

/// An edit of the active condition's data, as the form sends it.
#[derive(Debug)]
pub enum ConditionData {
    /// The text typed into a text area.
    Text(String),
    /// A value picked (or picked again, to drop it) from a fixed list.
    Choice(ChoiceKind, ItemCode),
    /// A typed time-range end, or a picked time zone.
    TimeOfDay(Option<ClockBound>, Option<ItemCode>),
    /// A picked week day, or a picked time zone.
    WeekDays(Option<ItemCode>, Option<ItemCode>),
    /// IP-range text: one entry per line, one entry per `-`-separated piece of
    /// the line, each piece read as an IP address where it is one.
    IpRanges(Vec<Vec<Option<IpValue>>>),
}

/// What an edit reports to the user.
#[derive(Debug, PartialEq, Eq)]
pub enum ConditionNotice {
    /// The edit does not fit the active condition's kind.
    WrongConditionDataType,
    /// There is no active condition to edit or save.
    NoActiveCondition,
    /// A referrer line is not a URL; the line is given.
    UrlParseError(String),
    /// The first piece of an IP-range line is not an IP address.
    LeftIpParseError,
    /// A later piece of an IP-range line is not an IP address.
    RightIpParseError,
    /// An IP-range line has no start address; the line is dropped.
    LeftIpMissing,
    /// An IP-range line has no end address; the line is dropped.
    RightIpMissing,
    /// A typed time is not in `H:M` form.
    ClockTime(ClockTimeError),
}

/// Mathematical form of `ConditionNotice`.
pub enum NoticeModel {
    WrongConditionDataType,
    NoActiveCondition,
    UrlParseError(Seq<char>),
    LeftIpParseError,
    RightIpParseError,
    LeftIpMissing,
    RightIpMissing,
    ClockTime(ClockTimeError),
}

impl DeepView for ConditionNotice {
    type V = NoticeModel;

    open spec fn deep_view(&self) -> NoticeModel {
        match self {
            ConditionNotice::WrongConditionDataType => NoticeModel::WrongConditionDataType,
            ConditionNotice::NoActiveCondition => NoticeModel::NoActiveCondition,
            ConditionNotice::UrlParseError(l) => NoticeModel::UrlParseError(l@),
            ConditionNotice::LeftIpParseError => NoticeModel::LeftIpParseError,
            ConditionNotice::RightIpParseError => NoticeModel::RightIpParseError,
            ConditionNotice::LeftIpMissing => NoticeModel::LeftIpMissing,
            ConditionNotice::RightIpMissing => NoticeModel::RightIpMissing,
            ConditionNotice::ClockTime(e) => NoticeModel::ClockTime(*e),
        }
    }
}

/// Whether the lines of a text condition of this kind are read as URLs.
pub open spec fn is_url_kind(k: TextKind) -> bool {
    k == TextKind::Referrer || k == TextKind::ReferrerDomain
}

/// The URLs (by serialization) that the lines give, in order; lines that do
/// not parse are dropped.
pub open spec fn url_list(lines: Seq<Seq<char>>) -> Seq<Seq<char>>
    decreases lines.len(),
{
    if lines.len() == 0 {
        Seq::empty()
    } else {
        let rest = url_list(lines.drop_last());
        match url_parse_serialization(lines.last()) {
            Some(u) => rest.push(u),
            None => rest,
        }
    }
}

/// One notice per line that is not a URL, in order.
pub open spec fn url_notices(lines: Seq<Seq<char>>) -> Seq<NoticeModel>
    decreases lines.len(),
{
    if lines.len() == 0 {
        Seq::empty()
    } else {
        let rest = url_notices(lines.drop_last());
        match url_parse_serialization(lines.last()) {
            Some(_) => rest,
            None => rest.push(NoticeModel::UrlParseError(lines.last())),
        }
    }
}

/// The last piece that is an address.
pub open spec fn last_address(s: Seq<Option<IpValue>>) -> Option<IpValue>
    decreases s.len(),
{
    if s.len() == 0 {
        None
    } else if s.last() is Some {
        s.last()
    } else {
        last_address(s.drop_last())
    }
}

/// The start address of an IP-range line: its first piece.
pub open spec fn line_start(segs: Seq<Option<IpValue>>) -> Option<IpValue> {
    if segs.len() > 0 {
        segs[0]
    } else {
        None
    }
}

/// The end address of an IP-range line: its last later piece that is an
/// address.
pub open spec fn line_end(segs: Seq<Option<IpValue>>) -> Option<IpValue> {
    if segs.len() > 0 {
        last_address(segs.skip(1))
    } else {
        None
    }
}

/// One notice for each later piece of a line that is not an address.
pub open spec fn right_parse_notices(s: Seq<Option<IpValue>>) -> Seq<NoticeModel>
    decreases s.len(),
{
    if s.len() == 0 {
        Seq::empty()
    } else {
        let rest = right_parse_notices(s.drop_last());
        if s.last() is Some {
            rest
        } else {
            rest.push(NoticeModel::RightIpParseError)
        }
    }
}

/// The notices for one IP-range line, in the order they are raised.
pub open spec fn ip_line_notices(segs: Seq<Option<IpValue>>) -> Seq<NoticeModel> {
    let first = if segs.len() > 0 && segs[0] is None {
        seq![NoticeModel::LeftIpParseError]
    } else {
        Seq::empty()
    };
    let later = if segs.len() > 0 {
        right_parse_notices(segs.skip(1))
    } else {
        Seq::empty()
    };
    let last = if line_start(segs) is None {
        seq![NoticeModel::LeftIpMissing]
    } else if line_end(segs) is None {
        seq![NoticeModel::RightIpMissing]
    } else {
        Seq::empty()
    };
    first + later + last
}

/// The IP ranges that the lines give, in order; a line needs both a start and
/// an end address.
pub open spec fn ip_ranges(lines: Seq<Seq<Option<IpValue>>>) -> Seq<IpRange>
    decreases lines.len(),
{
    if lines.len() == 0 {
        Seq::empty()
    } else {
        let rest = ip_ranges(lines.drop_last());
        let l = lines.last();
        match (line_start(l), line_end(l)) {
            (Some(a), Some(b)) => rest.push(IpRange { start: a, end: b }),
            _ => rest,
        }
    }
}

/// The notices of all lines, in order.
pub open spec fn ip_notices(lines: Seq<Seq<Option<IpValue>>>) -> Seq<NoticeModel>
    decreases lines.len(),
{
    if lines.len() == 0 {
        Seq::empty()
    } else {
        ip_notices(lines.drop_last()) + ip_line_notices(lines.last())
    }
}


/// The strings of `v`, each followed by `suffix`, run together.
pub open spec fn concat_with(v: Seq<Seq<char>>, suffix: Seq<char>) -> Seq<char>
    decreases v.len(),
{
    if v.len() == 0 {
        Seq::empty()
    } else {
        concat_with(v.drop_last(), suffix) + v.last() + suffix
    }
}

/// What the text area of a text condition of kind `k` with lines `data`
/// shows while `tmp` is typed: the typed text where there is some, else the
/// lines one per row, each followed by a line break. The ISP area shows
/// nothing until text is typed, and then the saved lines.
pub open spec fn text_area_spec(k: TextKind, data: Seq<Seq<char>>, tmp: Seq<char>) -> Seq<char> {
    if k == TextKind::ISP {
        if tmp.len() == 0 {
            tmp
        } else {
            concat_with(data, seq!['\n'])
        }
    } else if tmp.len() > 0 {
        tmp
    } else {
        concat_with(data, seq!['\n'])
    }
}

/// The controls that the condition form shows for the active condition.
#[derive(Debug)]
pub enum ConditionControls {
    /// A text area showing this text (see `text_area_spec`); leaving it
    /// commits what was typed.
    TextArea(String),
    /// The picked country codes, one per row of a text area.
    CountryCodes(Vec<ItemCode>),
    /// A picker of values of the kind, then one button per picked value in
    /// order; a button sends `ConditionData::Choice` with its value again,
    /// which drops it.
    Choices(ChoiceKind, Vec<ItemCode>),
    /// One row per IP range, start and end.
    IpRanges(Vec<IpRange>),
    /// The start and end time fields, and the time-zone picker with the
    /// zone selected.
    TimeRange(String, String, ItemCode),
    /// A week-day picker, one button per picked day in order (a button sends
    /// `ConditionData::WeekDays` with its day again, which drops it), and the
    /// time-zone picker with the zone selected.
    WeekDays(Vec<ItemCode>, ItemCode),
}

/// Mathematical form of `ConditionControls`.
pub enum ControlsModel {
    TextArea(Seq<char>),
    CountryCodes(Seq<ItemCode>),
    Choices(ChoiceKind, Seq<ItemCode>),
    IpRanges(Seq<IpRange>),
    TimeRange(Seq<char>, Seq<char>, ItemCode),
    WeekDays(Seq<ItemCode>, ItemCode),
}

impl DeepView for ConditionControls {
    type V = ControlsModel;

    open spec fn deep_view(&self) -> ControlsModel {
        match self {
            ConditionControls::TextArea(t) => ControlsModel::TextArea(t@),
            ConditionControls::CountryCodes(v) => ControlsModel::CountryCodes(v@),
            ConditionControls::Choices(k, v) => ControlsModel::Choices(*k, v@),
            ConditionControls::IpRanges(v) => ControlsModel::IpRanges(v@),
            ConditionControls::TimeRange(a, b, z) => ControlsModel::TimeRange(a@, b@, *z),
            ConditionControls::WeekDays(d, z) => ControlsModel::WeekDays(d@, *z),
        }
    }
}

/// The controls for condition data `d` while `tmp` is typed: a text area
/// for text data; the country codes in a text area; a picker with a button
/// per picked value for the other choice kinds; the IP ranges; the time
/// fields and zone; the week days with their buttons and the zone.
pub open spec fn controls_spec(d: ConditionDataModel, tmp: Seq<char>) -> ControlsModel {
    match d {
        ConditionDataModel::Text(k, v) => ControlsModel::TextArea(text_area_spec(k, v, tmp)),
        ConditionDataModel::Choice(k, v) => if k == ChoiceKind::Country {
            ControlsModel::CountryCodes(v)
        } else {
            ControlsModel::Choices(k, v)
        },
        ConditionDataModel::IP(v) => ControlsModel::IpRanges(v),
        ConditionDataModel::TimeOfDay(a, b, z) => ControlsModel::TimeRange(a, b, z),
        ConditionDataModel::Weekday(days, z) => ControlsModel::WeekDays(days, z),
    }
}

/// The strings of `v`, each followed by `suffix`, run together.
pub fn concat_lines(v: &Vec<String>, suffix: &str) -> (r: String)
    ensures
        r@ == concat_with(v.deep_view(), suffix@),
{
    let mut r = String::new();
    let mut i: usize = 0;
    while i < v.len()
        invariant
            i <= v@.len(),
            r@ == concat_with(v.deep_view().subrange(0, i as int), suffix@),
        decreases v@.len() - i,
    {
        let ghost before = r@;
        r.append(v[i].as_str());
        r.append(suffix);
        let ghost d = v.deep_view().subrange(0, i + 1);
        assert(d.drop_last() =~= v.deep_view().subrange(0, i as int));
        assert(d.last() == v@[i as int]@);
        assert(r@ =~= before + v@[i as int]@ + suffix@);
        i = i + 1;
    }
    assert(v.deep_view().subrange(0, i as int) =~= v.deep_view());
    r
}

/// The pieces of IP-range text: per line, the `-`-separated pieces, each
/// without surrounding white space.
pub open spec fn ip_pieces(text: Seq<char>) -> Seq<Seq<Seq<char>>> {
    spec_lines(text).map_values(
        |l: Seq<char>| split_seq(l, '-').map_values(|p: Seq<char>| trim_seq(p)),
    )
}

/// Cuts IP-range text into its pieces (see `ip_pieces`), each to be read as
/// an IP address.
pub fn ip_range_pieces(text: &str) -> (r: Vec<Vec<String>>)
    ensures
        r.deep_view() == ip_pieces(text@),
{
    let lines = lines_of(text);
    let ghost ls = spec_lines(text@);
    let mut out: Vec<Vec<String>> = Vec::new();
    let mut i: usize = 0;
    while i < lines.len()
        invariant
            lines.deep_view() == ls,
            ls == spec_lines(text@),
            i <= lines@.len(),
            out.deep_view() == ip_pieces(text@).subrange(0, i as int),
        decreases lines@.len() - i,
    {
        let parts = split_on(lines[i].as_str(), '-');
        let ghost ps = split_seq(lines@[i as int]@, '-');
        let mut pieces: Vec<String> = Vec::new();
        let mut k: usize = 0;
        while k < parts.len()
            invariant
                parts.deep_view() == ps,
                k <= parts@.len(),
                pieces.deep_view() == ps.map_values(|p: Seq<char>| trim_seq(p)).subrange(0, k as int),
            decreases parts@.len() - k,
        {
            let t = trim(parts[k].as_str());
            let ghost before = pieces.deep_view();
            pieces.push(t);
            assert(pieces.deep_view() =~= before.push(t@));
            assert(ps.map_values(|p: Seq<char>| trim_seq(p)).subrange(0, k + 1) =~= ps.map_values(
                |p: Seq<char>| trim_seq(p),
            ).subrange(0, k as int).push(trim_seq(ps[k as int])));
            k = k + 1;
        }
        assert(ps.map_values(|p: Seq<char>| trim_seq(p)).subrange(0, k as int) =~= ps.map_values(
            |p: Seq<char>| trim_seq(p),
        ));
        let ghost before = out.deep_view();
        assert(lines.deep_view()[i as int] == lines@[i as int]@);
        out.push(pieces);
        assert(out.deep_view() =~= before.push(ip_pieces(text@)[i as int]));
        assert(ip_pieces(text@).subrange(0, i + 1) =~= ip_pieces(text@).subrange(0, i as int).push(
            ip_pieces(text@)[i as int],
        ));
        i = i + 1;
    }
    assert(ip_pieces(text@).subrange(0, i as int) =~= ip_pieces(text@));
    out
}

/// Reads each line as a URL: the URLs of the lines that parse, and a notice
/// for each line that does not.
pub fn read_urls(lines: &Vec<String>) -> (r: (Vec<String>, Vec<ConditionNotice>))
    ensures
        r.0.deep_view() == url_list(lines.deep_view()),
        r.1.deep_view() == url_notices(lines.deep_view()),
{
    let mut urls: Vec<String> = Vec::new();
    let mut notices: Vec<ConditionNotice> = Vec::new();
    let mut i: usize = 0;
    while i < lines.len()
        invariant
            i <= lines.len(),
            urls.deep_view() == url_list(lines.deep_view().subrange(0, i as int)),
            notices.deep_view() == url_notices(lines.deep_view().subrange(0, i as int)),
        decreases lines.len() - i,
    {
        let ghost pre = lines.deep_view().subrange(0, i as int);
        let ghost next = lines.deep_view().subrange(0, i + 1);
        assert(next.drop_last() =~= pre);
        assert(next.last() == lines@[i as int]@);
        let ghost u0 = urls.deep_view();
        let ghost n0 = notices.deep_view();
        match parse_url(lines[i].as_str()) {
            Some(u) => {
                urls.push(u);
                assert(urls.deep_view() =~= u0.push(url_parse_serialization(next.last()).unwrap()));
            },
            None => {
                notices.push(ConditionNotice::UrlParseError(lines[i].clone()));
                assert(notices.deep_view() =~= n0.push(NoticeModel::UrlParseError(next.last())));
            },
        }
        i = i + 1;
    }
    assert(lines.deep_view().subrange(0, i as int) =~= lines.deep_view());
    (urls, notices)
}

/// The last piece of `segs[from..]` that is an address.
fn last_address_from(segs: &Vec<Option<IpValue>>, from: usize) -> (r: Option<IpValue>)
    requires
        from <= segs.len(),
    ensures
        r == last_address(segs@.skip(from as int)),
{
    let mut found: Option<IpValue> = None;
    let mut i: usize = from;
    assert(segs@.skip(from as int).subrange(0, 0) =~= Seq::<Option<IpValue>>::empty());
    while i < segs.len()
        invariant
            from <= i <= segs.len(),
            found == last_address(segs@.skip(from as int).subrange(0, i - from)),
        decreases segs.len() - i,
    {
        let ghost t = segs@.skip(from as int);
        assert(t.subrange(0, i + 1 - from).drop_last() =~= t.subrange(0, i - from));
        assert(t.subrange(0, i + 1 - from).last() == segs@[i as int]);
        if segs[i].is_some() {
            found = segs[i];
        }
        i = i + 1;
    }
    assert(segs@.skip(from as int).subrange(0, i - from) =~= segs@.skip(from as int));
    found
}

/// The notices for the later pieces `segs[from..]`.
fn right_notices_from(segs: &Vec<Option<IpValue>>, from: usize, out: &mut Vec<ConditionNotice>)
    requires
        from <= segs.len(),
    ensures
        final(out).deep_view() == old(out).deep_view() + right_parse_notices(segs@.skip(from as int)),
{
    let ghost start = out.deep_view();
    let mut i: usize = from;
    assert(segs@.skip(from as int).subrange(0, 0) =~= Seq::<Option<IpValue>>::empty());
    assert(start + Seq::<NoticeModel>::empty() =~= start);
    while i < segs.len()
        invariant
            from <= i <= segs.len(),
            out.deep_view() == start + right_parse_notices(
                segs@.skip(from as int).subrange(0, i - from),
            ),
        decreases segs.len() - i,
    {
        let ghost t = segs@.skip(from as int);
        let ghost o = out.deep_view();
        assert(t.subrange(0, i + 1 - from).drop_last() =~= t.subrange(0, i - from));
        assert(t.subrange(0, i + 1 - from).last() == segs@[i as int]);
        if segs[i].is_none() {
            out.push(ConditionNotice::RightIpParseError);
            assert(out.deep_view() =~= o.push(NoticeModel::RightIpParseError));
        }
        i = i + 1;
    }
    assert(segs@.skip(from as int).subrange(0, i - from) =~= segs@.skip(from as int));
}

/// Reads IP-range lines: a range for each line with a start and an end
/// address, and the notices that the lines raise.
pub fn read_ip_ranges(lines: &Vec<Vec<Option<IpValue>>>) -> (r: (Vec<IpRange>, Vec<ConditionNotice>))
    ensures
        r.0@ == ip_ranges(lines@.map_values(|l: Vec<Option<IpValue>>| l@)),
        r.1.deep_view() == ip_notices(lines@.map_values(|l: Vec<Option<IpValue>>| l@)),
{
    let ghost all = lines@.map_values(|l: Vec<Option<IpValue>>| l@);
    let mut ranges: Vec<IpRange> = Vec::new();
    let mut notices: Vec<ConditionNotice> = Vec::new();
    let mut i: usize = 0;
    while i < lines.len()
        invariant
            i <= lines.len(),
            all == lines@.map_values(|l: Vec<Option<IpValue>>| l@),
            ranges@ == ip_ranges(all.subrange(0, i as int)),
            notices.deep_view() == ip_notices(all.subrange(0, i as int)),
        decreases lines.len() - i,
    {
        let ghost next = all.subrange(0, i + 1);
        assert(next.drop_last() =~= all.subrange(0, i as int));
        assert(next.last() == lines@[i as int]@);
        let segs = &lines[i];
        let ghost n0 = notices.deep_view();
        let ghost l = segs@;
        let start: Option<IpValue> = if segs.len() > 0 {
            segs[0]
        } else {
            None
        };
        if segs.len() > 0 && segs[0].is_none() {
            notices.push(ConditionNotice::LeftIpParseError);
        }
        let ghost n1 = notices.deep_view();
        assert(n1 =~= n0 + (if l.len() > 0 && l[0] is None {
            seq![NoticeModel::LeftIpParseError]
        } else {
            Seq::empty()
        }));
        let end: Option<IpValue> = if segs.len() > 0 {
            right_notices_from(segs, 1, &mut notices);
            last_address_from(segs, 1)
        } else {
            None
        };
        let ghost n2 = notices.deep_view();
        assert(n2 =~= n1 + (if l.len() > 0 {
            right_parse_notices(l.skip(1))
        } else {
            Seq::empty()
        }));
        assert(start == line_start(l));
        assert(end == line_end(l));
        match (start, end) {
            (Some(a), Some(b)) => {
                ranges.push(IpRange { start: a, end: b });
            },
            (None, _) => {
                notices.push(ConditionNotice::LeftIpMissing);
                assert(notices.deep_view() =~= n2.push(NoticeModel::LeftIpMissing));
            },
            (Some(_), None) => {
                notices.push(ConditionNotice::RightIpMissing);
                assert(notices.deep_view() =~= n2.push(NoticeModel::RightIpMissing));
            },
        }
        assert(notices.deep_view() =~= n0 + ip_line_notices(l));
        i = i + 1;
    }
    assert(all.subrange(0, i as int) =~= all);
    (ranges, notices)
}


/// What an edit does to the active condition's data and to the text buffer,
/// and what it reports.
pub open spec fn edit_outcome(d: ConditionDataModel, msg: ConditionData, tmp: Seq<char>) -> (
    ConditionDataModel,
    Seq<char>,
    Seq<NoticeModel>,
) {
    let wrong = (d, tmp, seq![NoticeModel::WrongConditionDataType]);
    match d {
        ConditionDataModel::Text(_, _) => match msg {
            ConditionData::Text(t) => (d, t@, Seq::empty()),
            _ => wrong,
        },
        ConditionDataModel::Choice(k, v) => match msg {
            ConditionData::Choice(k2, c) => if k == k2 {
                (ConditionDataModel::Choice(k, toggled(v, c)), tmp, Seq::empty())
            } else {
                wrong
            },
            _ => wrong,
        },
        ConditionDataModel::IP(_) => match msg {
            ConditionData::IpRanges(lines) => {
                let ls = lines@.map_values(|l: Vec<Option<IpValue>>| l@);
                (ConditionDataModel::IP(ip_ranges(ls)), tmp, ip_notices(ls))
            },
            _ => wrong,
        },
        ConditionDataModel::TimeOfDay(a, b, z) => match msg {
            ConditionData::TimeOfDay(bound, zone) => match (bound, zone) {
                (Some(ClockBound::Start(t)), None) => match spec_parse_clock_time(t@) {
                    Ok(c) => (ConditionDataModel::TimeOfDay(c, b, z), tmp, Seq::empty()),
                    Err(e) => (d, tmp, seq![NoticeModel::ClockTime(e)]),
                },
                (Some(ClockBound::End(t)), None) => match spec_parse_clock_time(t@) {
                    Ok(c) => (ConditionDataModel::TimeOfDay(a, c, z), tmp, Seq::empty()),
                    Err(e) => (d, tmp, seq![NoticeModel::ClockTime(e)]),
                },
                (None, Some(zz)) => (ConditionDataModel::TimeOfDay(a, b, zz), tmp, Seq::empty()),
                _ => (d, tmp, Seq::empty()),
            },
            _ => wrong,
        },
        ConditionDataModel::Weekday(days, z) => match msg {
            ConditionData::WeekDays(day, zone) => match (day, zone) {
                (None, Some(zz)) => (ConditionDataModel::Weekday(days, zz), tmp, Seq::empty()),
                (Some(dd), None) => (
                    ConditionDataModel::Weekday(toggled(days, dd), z),
                    tmp,
                    Seq::empty(),
                ),
                _ => (d, tmp, Seq::empty()),
            },
            _ => wrong,
        },
    }
}

/// Applies an edit to condition data.
fn apply_edit(dt: ConditionDataType, msg: ConditionData, tmp: &mut String) -> (r: (
    ConditionDataType,
    Vec<ConditionNotice>,
))
    ensures
        (r.0.deep_view(), final(tmp)@, r.1.deep_view()) == edit_outcome(
            dt.deep_view(),
            msg,
            old(tmp)@,
        ),
{
    let ghost d = dt.deep_view();
    let ghost m = msg;
    let mut wrong: Vec<ConditionNotice> = Vec::new();
    wrong.push(ConditionNotice::WrongConditionDataType);
    assert(wrong.deep_view() =~= seq![NoticeModel::WrongConditionDataType]);
    let none: Vec<ConditionNotice> = Vec::new();
    assert(none.deep_view() =~= Seq::<NoticeModel>::empty());
    match dt {
        ConditionDataType::Text(k, v) => match msg {
            ConditionData::Text(t) => {
                *tmp = t;
                (ConditionDataType::Text(k, v), none)
            },
            _ => (ConditionDataType::Text(k, v), wrong),
        },
        ConditionDataType::Choice(k, mut v) => match msg {
            ConditionData::Choice(k2, c) => {
                if k == k2 {
                    toggle_code(&mut v, c);
                    (ConditionDataType::Choice(k, v), none)
                } else {
                    (ConditionDataType::Choice(k, v), wrong)
                }
            },
            _ => (ConditionDataType::Choice(k, v), wrong),
        },
        ConditionDataType::IP(v) => match msg {
            ConditionData::IpRanges(lines) => {
                let (ranges, notices) = read_ip_ranges(&lines);
                (ConditionDataType::IP(ranges), notices)
            },
            _ => (ConditionDataType::IP(v), wrong),
        },
        ConditionDataType::TimeOfDay(a, b, z) => match msg {
            ConditionData::TimeOfDay(bound, zone) => match (bound, zone) {
                (Some(ClockBound::Start(t)), None) => match parse_clock_time(t.as_str()) {
                    Ok(c) => (ConditionDataType::TimeOfDay(c, b, z), none),
                    Err(e) => {
                        let mut n: Vec<ConditionNotice> = Vec::new();
                        n.push(ConditionNotice::ClockTime(e));
                        assert(n.deep_view() =~= seq![NoticeModel::ClockTime(e)]);
                        (ConditionDataType::TimeOfDay(a, b, z), n)
                    },
                },
                (Some(ClockBound::End(t)), None) => match parse_clock_time(t.as_str()) {
                    Ok(c) => (ConditionDataType::TimeOfDay(a, c, z), none),
                    Err(e) => {
                        let mut n: Vec<ConditionNotice> = Vec::new();
                        n.push(ConditionNotice::ClockTime(e));
                        assert(n.deep_view() =~= seq![NoticeModel::ClockTime(e)]);
                        (ConditionDataType::TimeOfDay(a, b, z), n)
                    },
                },
                (None, Some(zz)) => (ConditionDataType::TimeOfDay(a, b, zz), none),
                _ => (ConditionDataType::TimeOfDay(a, b, z), none),
            },
            _ => (ConditionDataType::TimeOfDay(a, b, z), wrong),
        },
        ConditionDataType::Weekday(mut days, z) => match msg {
            ConditionData::WeekDays(day, zone) => match (day, zone) {
                (None, Some(zz)) => (ConditionDataType::Weekday(days, zz), none),
                (Some(dd), None) => {
                    toggle_code(&mut days, dd);
                    (ConditionDataType::Weekday(days, z), none)
                },
                _ => (ConditionDataType::Weekday(days, z), none),
            },
            _ => (ConditionDataType::Weekday(days, z), wrong),
        },
    }
}

/// What committing the text buffer does to text data: the buffer's lines
/// become the data (read as URLs for the referrer kinds), with the notices
/// of lines that are not URLs. Other data is left alone (`None`).
pub open spec fn committed(d: ConditionDataModel, tmp: Seq<char>) -> Option<
    (ConditionDataModel, Seq<NoticeModel>),
> {
    match d {
        ConditionDataModel::Text(k, _) => if is_url_kind(k) {
            Some(
                (
                    ConditionDataModel::Text(k, url_list(spec_lines(tmp))),
                    url_notices(spec_lines(tmp)),
                ),
            )
        } else {
            Some((ConditionDataModel::Text(k, spec_lines(tmp)), Seq::empty()))
        },
        _ => None,
    }
}

/// The position of the first condition of kind `k`.
pub open spec fn kind_index(cs: Seq<ConditionModel>, k: ConditionKind) -> Option<int> {
    first_index(cs.map_values(|c: ConditionModel| c.data.kind()), k)
}

/// Whether the editor is creating a new condition or changing a listed one.
#[derive(Clone, Copy, Debug, PartialEq, Eq, Structural)]
pub enum EditMode {
    Edit,
    New,
}

/// The condition list after saving condition `a`: where a condition of the
/// same kind is listed and the editor is changing a listed condition, `a`
/// takes its place; otherwise `a` is appended.
pub open spec fn submitted(cs: Seq<ConditionModel>, a: ConditionModel, mode: EditMode) -> Seq<
    ConditionModel,
> {
    match kind_index(cs, a.data.kind()) {
        Some(i) => if mode == EditMode::New {
            cs.push(a)
        } else {
            cs.update(i, a)
        },
        None => cs.push(a),
    }
}

/// The state of the condition editor.
#[derive(Debug)]
pub struct ConditionView {
    /// The conditions of the conditional sequence.
    pub conditions: Vec<Condition>,
    /// The condition being built or changed, if any.
    pub active_condition: Option<Condition>,
    /// Text typed for a text condition and not yet committed.
    pub tmp_buff: String,
    pub mode: EditMode,
}

impl ConditionView {
    /// A new editor over `conditions`, with no active condition.
    pub fn new(conditions: Vec<Condition>) -> (r: ConditionView)
        ensures
            r.conditions.deep_view() == conditions.deep_view(),
            r.active_condition is None,
            r.tmp_buff@ == Seq::<char>::empty(),
            r.mode == EditMode::New,
    {
        ConditionView { conditions, active_condition: None, tmp_buff: String::new(), mode: EditMode::New }
    }

    /// Starts a new condition.
    pub fn new_condition(&mut self)
        ensures
            final(self).mode == EditMode::New,
            final(self).conditions.deep_view() == old(self).conditions.deep_view(),
            final(self).active_condition.deep_view() == old(self).active_condition.deep_view(),
            final(self).tmp_buff@ == old(self).tmp_buff@,
    {
        self.mode = EditMode::New;
    }

    /// Commits the text buffer into the active text condition (when its text
    /// area loses focus) and empties the buffer.
    pub fn commit_text_buffer(&mut self) -> (notices: Vec<ConditionNotice>)
        ensures
            final(self).conditions.deep_view() == old(self).conditions.deep_view(),
            final(self).mode == old(self).mode,
            match old(self).active_condition {
                Some(c) => match committed(c.condition_data_type.deep_view(), old(self).tmp_buff@) {
                    Some((d, n)) => {
                        &&& final(self).active_condition.deep_view() == Some(
                            ConditionModel { data: d, included: c.included },
                        )
                        &&& final(self).tmp_buff@ == Seq::<char>::empty()
                        &&& notices.deep_view() == n
                    },
                    None => {
                        &&& final(self).active_condition.deep_view() == old(
                            self,
                        ).active_condition.deep_view()
                        &&& final(self).tmp_buff@ == old(self).tmp_buff@
                        &&& notices@.len() == 0
                    },
                },
                None => {
                    &&& final(self).active_condition is None
                    &&& final(self).tmp_buff@ == old(self).tmp_buff@
                    &&& notices@.len() == 0
                },
            },
    {
        let none: Vec<ConditionNotice> = Vec::new();
        match self.active_condition.take() {
            None => none,
            Some(c) => {
                let included = c.included;
                match c.condition_data_type {
                    ConditionDataType::Text(k, v) => {
                        let lines = lines_of(self.tmp_buff.as_str());
                        let is_url = match k {
                            TextKind::Referrer | TextKind::ReferrerDomain => true,
                            _ => false,
                        };
                        if is_url {
                            let (urls, notices) = read_urls(&lines);
                            self.active_condition = Some(
                                Condition { condition_data_type: ConditionDataType::Text(k, urls), included },
                            );
                            self.tmp_buff = String::new();
                            notices
                        } else {
                            self.active_condition = Some(
                                Condition { condition_data_type: ConditionDataType::Text(k, lines), included },
                            );
                            self.tmp_buff = String::new();
                            none
                        }
                    },
                    other => {
                        self.active_condition = Some(Condition { condition_data_type: other, included });
                        none
                    },
                }
            },
        }
    }

    /// Applies an edit from the form to the active condition's data.
    pub fn update_active_data(&mut self, data: ConditionData) -> (notices: Vec<ConditionNotice>)
        ensures
            final(self).conditions.deep_view() == old(self).conditions.deep_view(),
            final(self).mode == old(self).mode,
            match old(self).active_condition {
                Some(c) => {
                    let (d, t, n) = edit_outcome(
                        c.condition_data_type.deep_view(),
                        data,
                        old(self).tmp_buff@,
                    );
                    &&& final(self).active_condition.deep_view() == Some(
                        ConditionModel { data: d, included: c.included },
                    )
                    &&& final(self).tmp_buff@ == t
                    &&& notices.deep_view() == n
                },
                None => {
                    &&& final(self).active_condition is None
                    &&& final(self).tmp_buff@ == old(self).tmp_buff@
                    &&& notices.deep_view() == seq![NoticeModel::NoActiveCondition]
                },
            },
    {
        match self.active_condition.take() {
            None => {
                let mut n: Vec<ConditionNotice> = Vec::new();
                n.push(ConditionNotice::NoActiveCondition);
                assert(n.deep_view() =~= seq![NoticeModel::NoActiveCondition]);
                n
            },
            Some(c) => {
                let included = c.included;
                let (dt, notices) = apply_edit(c.condition_data_type, data, &mut self.tmp_buff);
                self.active_condition = Some(Condition { condition_data_type: dt, included });
                notices
            },
        }
    }

    /// `b` is `self` with the active condition flipped between white list and
    /// black list, all else kept.
    pub open spec fn inclusion_toggled(self, b: ConditionView) -> bool {
        &&& b.conditions.deep_view() == self.conditions.deep_view()
        &&& b.mode == self.mode
        &&& b.tmp_buff@ == self.tmp_buff@
        &&& match self.active_condition {
            Some(c) => b.active_condition.deep_view() == Some(
                ConditionModel { data: c.condition_data_type.deep_view(), included: !c.included },
            ),
            None => b.active_condition is None,
        }
    }

    /// Flips the active condition between white list and black list.
    pub fn toggle_inclusion(&mut self)
        ensures
            old(self).inclusion_toggled(*final(self)),
    {
        match self.active_condition.take() {
            None => {},
            Some(c) => {
                self.active_condition = Some(
                    Condition { condition_data_type: c.condition_data_type, included: !c.included },
                );
            },
        }
    }

    /// Makes a freshly picked condition the active one, white-listed.
    pub fn select_condition(&mut self, data_type: ConditionDataType)
        ensures
            final(self).conditions.deep_view() == old(self).conditions.deep_view(),
            final(self).mode == old(self).mode,
            final(self).tmp_buff@ == old(self).tmp_buff@,
            final(self).active_condition.deep_view() == Some(
                ConditionModel { data: data_type.deep_view(), included: true },
            ),
    {
        self.active_condition = Some(Condition { condition_data_type: data_type, included: true });
    }

    /// Removes the condition at `pos`.
    pub fn remove_condition(&mut self, pos: usize)
        requires
            pos < old(self).conditions.len(),
        ensures
            final(self).conditions.deep_view() == old(self).conditions.deep_view().remove(pos as int),
            final(self).active_condition.deep_view() == old(self).active_condition.deep_view(),
            final(self).mode == old(self).mode,
            final(self).tmp_buff@ == old(self).tmp_buff@,
    {
        let ghost before = self.conditions.deep_view();
        self.conditions.remove(pos);
        assert(self.conditions.deep_view() =~= before.remove(pos as int));
    }

    /// Opens the listed condition at `pos` for changing: a copy of it becomes
    /// the active condition (none where `pos` is past the end).
    pub fn edit_condition(&mut self, pos: usize)
        ensures
            final(self).mode == EditMode::Edit,
            final(self).conditions.deep_view() == old(self).conditions.deep_view(),
            final(self).tmp_buff@ == old(self).tmp_buff@,
            if pos < old(self).conditions.len() {
                final(self).active_condition.deep_view() == Some(
                    old(self).conditions.deep_view()[pos as int],
                )
            } else {
                final(self).active_condition is None
            },
    {
        self.mode = EditMode::Edit;
        if pos < self.conditions.len() {
            self.active_condition = Some(self.conditions[pos].duplicate());
        } else {
            self.active_condition = None;
        }
    }

    /// What the text area of the active condition shows (see
    /// `text_area_spec`); none where the active condition is not a text
    /// condition.
    pub fn text_area_value(&self) -> (r: Option<String>)
        ensures
            match self.active_condition {
                Some(c) => match c.condition_data_type {
                    ConditionDataType::Text(k, v) => r matches Some(t) && t@ == text_area_spec(
                        k,
                        v.deep_view(),
                        self.tmp_buff@,
                    ),
                    _ => r is None,
                },
                None => r is None,
            },
    {
        match &self.active_condition {
            Some(c) => match &c.condition_data_type {
                ConditionDataType::Text(k, v) => {
                    proof {
                        reveal_strlit("\n");
                    }
                    let typed = self.tmp_buff.unicode_len() > 0;
                    assert(typed == (self.tmp_buff@.len() > 0));
                    assert("\n"@ == seq!['\n']);
                    match k {
                        TextKind::ISP => if !typed {
                            Some(self.tmp_buff.clone())
                        } else {
                            Some(concat_lines(v, "\n"))
                        },
                        _ => if typed {
                            Some(self.tmp_buff.clone())
                        } else {
                            Some(concat_lines(v, "\n"))
                        },
                    }
                },
                _ => None,
            },
            None => None,
        }
    }

    /// The controls that the form shows for the active condition (see
    /// `controls_spec`); none without an active condition.
    pub fn condition_controls(&self) -> (r: Option<ConditionControls>)
        ensures
            match self.active_condition {
                Some(c) => r matches Some(x) && x.deep_view() == controls_spec(
                    c.condition_data_type.deep_view(),
                    self.tmp_buff@,
                ),
                None => r is None,
            },
    {
        match &self.active_condition {
            None => None,
            Some(c) => match &c.condition_data_type {
                ConditionDataType::Text(_, _) => match self.text_area_value() {
                    Some(t) => Some(ConditionControls::TextArea(t)),
                    None => None,
                },
                ConditionDataType::Choice(k, v) => match k {
                    ChoiceKind::Country => Some(ConditionControls::CountryCodes(v.clone())),
                    _ => Some(ConditionControls::Choices(*k, v.clone())),
                },
                ConditionDataType::IP(v) => Some(ConditionControls::IpRanges(v.clone())),
                ConditionDataType::TimeOfDay(a, b, z) => Some(
                    ConditionControls::TimeRange(a.clone(), b.clone(), *z),
                ),
                ConditionDataType::Weekday(d, z) => Some(ConditionControls::WeekDays(d.clone(), *z)),
            },
        }
    }

    /// `b` is `self` after saving the active condition into the list (see
    /// `submitted`) and clearing it, with `notices` reported; with no active
    /// condition, the list stays and the missing condition is reported.
    pub open spec fn condition_submitted(self, b: ConditionView, notices: Seq<NoticeModel>) -> bool {
        &&& b.mode == self.mode
        &&& b.tmp_buff@ == self.tmp_buff@
        &&& b.active_condition is None
        &&& match self.active_condition {
            Some(c) => {
                &&& b.conditions.deep_view() == submitted(
                    self.conditions.deep_view(),
                    c.deep_view(),
                    self.mode,
                )
                &&& notices.len() == 0
            },
            None => {
                &&& b.conditions.deep_view() == self.conditions.deep_view()
                &&& notices == seq![NoticeModel::NoActiveCondition]
            },
        }
    }

    /// Saves the active condition into the list (see `submitted`) and clears
    /// it; with no active condition, reports that and changes nothing.
    pub fn submit_condition(&mut self) -> (notices: Vec<ConditionNotice>)
        ensures
            old(self).condition_submitted(*final(self), notices.deep_view()),
    {
        match self.active_condition.take() {
            None => {
                let mut n: Vec<ConditionNotice> = Vec::new();
                n.push(ConditionNotice::NoActiveCondition);
                assert(n.deep_view() =~= seq![NoticeModel::NoActiveCondition]);
                n
            },
            Some(c) => {
                let ghost before = self.conditions.deep_view();
                let ghost cm = c.deep_view();
                let k = c.condition_data_type.kind();
                match find_kind_in(&self.conditions, k) {
                    Some(pos) => {
                        if self.mode == EditMode::New {
                            self.conditions.push(c);
                            assert(self.conditions.deep_view() =~= before.push(cm));
                        } else {
                            self.conditions.remove(pos);
                            self.conditions.insert(pos, c);
                            assert(self.conditions.deep_view() =~= before.update(pos as int, cm));
                        }
                    },
                    None => {
                        self.conditions.push(c);
                        assert(self.conditions.deep_view() =~= before.push(cm));
                    },
                }
                Vec::new()
            },
        }
    }

    /// Takes a new condition list from the owner, dropping the active condition.
    pub fn change(&mut self, conditions: Vec<Condition>)
        ensures
            final(self).conditions.deep_view() == conditions.deep_view(),
            final(self).active_condition is None,
            final(self).mode == old(self).mode,
            final(self).tmp_buff@ == old(self).tmp_buff@,
    {
        self.conditions = conditions;
        self.active_condition = None;
    }
}

/// The position of the first condition of kind `k` in `cs`.
pub fn find_kind_in(cs: &Vec<Condition>, k: ConditionKind) -> (r: Option<usize>)
    ensures
        match r {
            Some(i) => kind_index(cs.deep_view(), k) == Some(i as int),
            None => kind_index(cs.deep_view(), k) is None,
        },
{
    let ghost ks = cs.deep_view().map_values(|c: ConditionModel| c.data.kind());
    let mut i: usize = 0;
    while i < cs.len()
        invariant
            i <= cs.len(),
            ks == cs.deep_view().map_values(|c: ConditionModel| c.data.kind()),
            forall|j: int| 0 <= j < i ==> ks[j] != k,
        decreases cs.len() - i,
    {
        if cs[i].condition_data_type.kind() == k {
            assert(ks[i as int] == k);
            proof {
                crate::seqs::lemma_first_index_is(ks, k, i as int);
            }
            return Some(i);
        }
        assert(ks[i as int] != k);
        i = i + 1;
    }
    None
}

/// Flipping the active condition between white list and black list twice
/// gives it back as it was, and leaves the list alone.
pub proof fn lemma_toggle_inclusion_twice(v0: ConditionView, v1: ConditionView, v2: ConditionView)
    requires
        v0.inclusion_toggled(v1),
        v1.inclusion_toggled(v2),
    ensures
        v2.active_condition.deep_view() == v0.active_condition.deep_view(),
        v2.conditions.deep_view() == v0.conditions.deep_view(),
        v2.tmp_buff@ == v0.tmp_buff@,
        v2.mode == v0.mode,
{
    match v0.active_condition {
        Some(c) => {
            let c1 = v1.active_condition->Some_0;
            assert(c1.deep_view() == ConditionModel {
                data: c.condition_data_type.deep_view(),
                included: !c.included,
            });
        },
        None => {},
    }
}

/// Picking a value that a choice or week-day condition does not hold, then
/// picking it again, gives back the condition's data, with no notice.
pub proof fn lemma_pick_twice_restores(d: ConditionDataModel, msg: ConditionData, tmp: Seq<char>)
    requires
        (d matches ConditionDataModel::Choice(k, v) && msg matches ConditionData::Choice(k2, x) && k
            == k2 && !v.contains(x)) || (d matches ConditionDataModel::Weekday(days, _) && msg
            matches ConditionData::WeekDays(Some(x), None) && !days.contains(x)),
    ensures
        edit_outcome(edit_outcome(d, msg, tmp).0, msg, tmp) == (d, tmp, Seq::<NoticeModel>::empty()),
{
    match d {
        ConditionDataModel::Choice(k, v) => {
            let x = msg->Choice_1;
            lemma_toggle_twice(v, x);
        },
        ConditionDataModel::Weekday(days, z) => {
            let x = msg->WeekDays_0->Some_0;
            lemma_toggle_twice(days, x);
        },
        _ => {},
    }
}

/// Typing text into a text condition keeps the text in the buffer and leaves
/// the data alone; committing the buffer then makes its lines the data (read
/// as URLs for the referrer kinds, with a notice per line that is not one)
/// and empties the buffer.
pub proof fn lemma_type_then_commit(d: ConditionDataModel, msg: ConditionData, tmp: Seq<char>)
    requires
        d is Text,
        msg is Text,
    ensures
        ({
            let (d1, tmp1, n1) = edit_outcome(d, msg, tmp);
            let k = d->Text_0;
            let t = msg->Text_0@;
            &&& d1 == d
            &&& tmp1 == t
            &&& n1 == Seq::<NoticeModel>::empty()
            &&& committed(d1, tmp1) == Some(
                if is_url_kind(k) {
                    (ConditionDataModel::Text(k, url_list(spec_lines(t))), url_notices(spec_lines(t)))
                } else {
                    (ConditionDataModel::Text(k, spec_lines(t)), Seq::<NoticeModel>::empty())
                },
            )
        }),
{
}

/// Lines joined with a line break after each split back into the lines,
/// followed by one empty piece, where no line holds a line break.
proof fn lemma_split_joined(data: Seq<Seq<char>>)
    requires
        forall|i: int| 0 <= i < data.len() ==> !(#[trigger] data[i]).contains('\n'),
    ensures
        split_seq(concat_with(data, seq!['\n']), '\n') == data.push(Seq::<char>::empty()),
    decreases data.len(),
{
    if data.len() == 0 {
        assert(concat_with(data, seq!['\n']) =~= Seq::<char>::empty());
        assert(data.push(Seq::<char>::empty()) =~= seq![Seq::<char>::empty()]);
    } else {
        let d = data.drop_last();
        let l = data.last();
        assert forall|i: int| 0 <= i < d.len() implies !(#[trigger] d[i]).contains('\n') by {
            assert(d[i] == data[i]);
        }
        assert(!data[data.len() - 1].contains('\n'));
        lemma_split_joined(d);
        let x = concat_with(d, seq!['\n']);
        lemma_split_append(x, l, '\n');
        let r = split_seq(x, '\n');
        assert(r.update(r.len() - 1, r.last() + l) =~= d.push(l));
        let c = concat_with(data, seq!['\n']);
        assert(c =~= (x + l).push('\n'));
        assert(c.drop_last() =~= x + l);
        assert(c.last() == '\n');
        assert(d.push(l) =~= data);
    }
}

/// A text box left as shown commits back the lines it was shown from: for a
/// text condition of a kind read as plain lines (not the referrer kinds, not
/// ISP, whose box starts empty), committing the shown text gives the same
/// lines, where no line holds a line break or ends with a carriage return.
pub proof fn lemma_unedited_text_box_keeps_lines(k: TextKind, data: Seq<Seq<char>>)
    requires
        !is_url_kind(k),
        k != TextKind::ISP,
        forall|i: int| 0 <= i < data.len() ==> !(#[trigger] data[i]).contains('\n'),
        forall|i: int| 0 <= i < data.len() ==> !((#[trigger] data[i]).len() > 0 && data[i].last() == '\r'),
    ensures
        committed(
            ConditionDataModel::Text(k, data),
            text_area_spec(k, data, Seq::<char>::empty()),
        ) == Some((ConditionDataModel::Text(k, data), Seq::<NoticeModel>::empty())),
{
    let c = concat_with(data, seq!['\n']);
    assert(text_area_spec(k, data, Seq::<char>::empty()) == c);
    lemma_split_joined(data);
    let p = split_seq(c, '\n');
    assert(p.subrange(0, p.len() - 1) =~= data);
    assert forall|i: int| 0 <= i < data.len() implies #[trigger] strip_cr(data[i]) == data[i] by {}
    assert(data.map_values(|l: Seq<char>| strip_cr(l)) =~= data);
    assert(spec_lines(c) =~= data);
}

/// Saving a new condition appends it: the list grows by one and keeps every
/// earlier condition in place, even where a condition of the same kind is
/// listed. Saving a changed condition puts it in place of the first listed
/// condition of its kind, keeping the length and every other condition, or
/// appends it where no condition of its kind is listed.
pub proof fn lemma_submit_places_condition(v0: ConditionView, v1: ConditionView, notices: Seq<NoticeModel>)
    requires
        v0.condition_submitted(v1, notices),
        v0.active_condition is Some,
    ensures
        ({
            let cs = v0.conditions.deep_view();
            let a = v0.active_condition->Some_0.deep_view();
            let rs = v1.conditions.deep_view();
            &&& v0.mode == EditMode::New ==> {
                &&& rs.len() == cs.len() + 1
                &&& forall|j: int| 0 <= j < cs.len() ==> rs[j] == cs[j]
                &&& rs[cs.len() as int] == a
            }
            &&& v0.mode == EditMode::Edit ==> forall|i: int|
                0 <= i < cs.len() && (#[trigger] cs[i]).data.kind() == a.data.kind() && (forall|j: int|
                    0 <= j < i ==> cs[j].data.kind() != a.data.kind()) ==> {
                    &&& rs.len() == cs.len()
                    &&& rs[i] == a
                    &&& forall|j: int| 0 <= j < cs.len() && j != i ==> rs[j] == cs[j]
                }
            &&& v0.mode == EditMode::Edit && (forall|i: int|
                0 <= i < cs.len() ==> (#[trigger] cs[i]).data.kind() != a.data.kind()) ==> rs
                == cs.push(a)
        }),
{
    let cs = v0.conditions.deep_view();
    let a = v0.active_condition->Some_0.deep_view();
    let ks = cs.map_values(|c: ConditionModel| c.data.kind());
    if v0.mode == EditMode::Edit {
        assert forall|i: int|
            0 <= i < cs.len() && (#[trigger] cs[i]).data.kind() == a.data.kind() && (forall|j: int|
                0 <= j < i ==> cs[j].data.kind() != a.data.kind()) implies kind_index(cs, a.data.kind())
            == Some(i) by {
            assert(is_first_index(ks, a.data.kind(), i));
            lemma_first_index_is(ks, a.data.kind(), i);
        }
        if forall|i: int| 0 <= i < cs.len() ==> (#[trigger] cs[i]).data.kind() != a.data.kind() {
            assert forall|j: int| 0 <= j < ks.len() implies ks[j] != a.data.kind() by {
                assert(ks[j] == cs[j].data.kind());
            }
            lemma_first_index_none(ks, a.data.kind());
        }
    }
}

/// Picking a time zone sets the zone of a time-of-day or week-day condition
/// and keeps its times or days; picking a week day keeps the zone. Neither
/// reports a notice.
pub proof fn lemma_zone_and_day_picks(d: ConditionDataModel, msg: ConditionData, tmp: Seq<char>)
    ensures
        d is TimeOfDay && msg is TimeOfDay && msg->TimeOfDay_0 is None && msg->TimeOfDay_1 is Some
            ==> edit_outcome(d, msg, tmp) == (
            ConditionDataModel::TimeOfDay(d->TimeOfDay_0, d->TimeOfDay_1, msg->TimeOfDay_1->Some_0),
            tmp,
            Seq::<NoticeModel>::empty(),
        ),
        d is Weekday && msg is WeekDays && msg->WeekDays_0 is None && msg->WeekDays_1 is Some
            ==> edit_outcome(d, msg, tmp) == (
            ConditionDataModel::Weekday(d->Weekday_0, msg->WeekDays_1->Some_0),
            tmp,
            Seq::<NoticeModel>::empty(),
        ),
        d is Weekday && msg is WeekDays && msg->WeekDays_0 is Some && msg->WeekDays_1 is None
            ==> edit_outcome(d, msg, tmp).0 is Weekday && edit_outcome(d, msg, tmp).0->Weekday_1
            == d->Weekday_1,
{
}


/// Whether an edit is of the sort that the condition's data takes: text for
/// a text condition, a pick from the same list for a choice condition, IP
/// text for IP ranges, a time or zone for a time of day, a day or zone for
/// week days.
pub open spec fn message_fits(d: ConditionDataModel, msg: ConditionData) -> bool {
    match (d, msg) {
        (ConditionDataModel::Text(_, _), ConditionData::Text(_)) => true,
        (ConditionDataModel::Choice(k, _), ConditionData::Choice(k2, _)) => k == k2,
        (ConditionDataModel::IP(_), ConditionData::IpRanges(_)) => true,
        (ConditionDataModel::TimeOfDay(..), ConditionData::TimeOfDay(..)) => true,
        (ConditionDataModel::Weekday(..), ConditionData::WeekDays(..)) => true,
        _ => false,
    }
}

/// An edit never changes the kind of the condition. An edit of the wrong
/// sort changes nothing and reports just the wrong-data notice; only typing
/// into a text condition touches the text buffer.
pub proof fn lemma_edit_keeps_kind(d: ConditionDataModel, msg: ConditionData, tmp: Seq<char>)
    ensures
        edit_outcome(d, msg, tmp).0.kind() == d.kind(),
        !message_fits(d, msg) ==> edit_outcome(d, msg, tmp) == (
            d,
            tmp,
            seq![NoticeModel::WrongConditionDataType],
        ),
        !(d is Text && msg is Text) ==> edit_outcome(d, msg, tmp).1 == tmp,
{
}

/// A typed start time that reads as a clock time becomes the start of a
/// time-of-day condition and a typed end time its end, the other bound and
/// the zone kept, with no notice; a time that does not read leaves the
/// condition as it was and reports why.
pub proof fn lemma_clock_bound_edits(
    a: Seq<char>,
    b: Seq<char>,
    z: ItemCode,
    bound: ClockBound,
    tmp: Seq<char>,
)
    ensures
        ({
            let d = ConditionDataModel::TimeOfDay(a, b, z);
            let t = match bound {
                ClockBound::Start(t) => t@,
                ClockBound::End(t) => t@,
            };
            let (d1, tmp1, n1) = edit_outcome(d, ConditionData::TimeOfDay(Some(bound), None), tmp);
            &&& tmp1 == tmp
            &&& match spec_parse_clock_time(t) {
                Ok(c) => n1 == Seq::<NoticeModel>::empty() && d1 == if bound is Start {
                    ConditionDataModel::TimeOfDay(c, b, z)
                } else {
                    ConditionDataModel::TimeOfDay(a, c, z)
                },
                Err(e) => n1 == seq![NoticeModel::ClockTime(e)] && d1 == d,
            }
        }),
{
}


/// Every line of a referrer box is accounted for once: it gives a URL or a
/// notice, never both and never neither.
pub proof fn lemma_each_url_line_read_once(lines: Seq<Seq<char>>)
    ensures
        url_list(lines).len() + url_notices(lines).len() == lines.len(),
    decreases lines.len(),
{
    if lines.len() > 0 {
        lemma_each_url_line_read_once(lines.drop_last());
    }
}

/// Every notice about the later pieces of a line says that one did not read.
proof fn lemma_right_notices_are_parse_errors(s: Seq<Option<IpValue>>)
    ensures
        forall|i: int|
            0 <= i < right_parse_notices(s).len() ==> #[trigger] right_parse_notices(s)[i]
                == NoticeModel::RightIpParseError,
    decreases s.len(),
{
    if s.len() > 0 {
        lemma_right_notices_are_parse_errors(s.drop_last());
    }
}

/// A line of two addresses gives the range from the first to the second,
/// with no notice; a line with no start address, or with no later piece
/// that is an address, gives no range and ends its notices by saying which
/// address is missing.
pub proof fn lemma_ip_line_reading(l: Seq<Option<IpValue>>)
    ensures
        l.len() == 2 && l[0] is Some && l[1] is Some ==> ip_ranges(seq![l]) == seq![
            IpRange { start: l[0]->Some_0, end: l[1]->Some_0 },
        ] && ip_notices(seq![l]) == Seq::<NoticeModel>::empty(),
        ip_ranges(seq![l]).len() == 0 <==> {
            let n = ip_notices(seq![l]);
            n.len() > 0 && (n.last() == NoticeModel::LeftIpMissing || n.last()
                == NoticeModel::RightIpMissing)
        },
{
    let one = seq![l];
    assert(one.drop_last() =~= Seq::<Seq<Option<IpValue>>>::empty());
    assert(one.last() == l);
    let e = Seq::<NoticeModel>::empty();
    assert(ip_notices(one.drop_last()) == e);
    assert(e + ip_line_notices(l) =~= ip_line_notices(l));
    assert(ip_notices(one) == ip_line_notices(l));
    assert(ip_ranges(one.drop_last()) == Seq::<IpRange>::empty());
    if l.len() == 2 && l[0] is Some && l[1] is Some {
        let r = l.skip(1);
        assert(r.len() == 1);
        assert(r.last() == l[1]);
        assert(line_end(l) == l[1]);
        assert(right_parse_notices(r.drop_last()) == e);
        assert(right_parse_notices(r) == e);
        assert(ip_line_notices(l) =~= e);
        assert(ip_ranges(one) =~= seq![IpRange { start: l[0]->Some_0, end: l[1]->Some_0 }]);
    }
    let first = if l.len() > 0 && l[0] is None {
        seq![NoticeModel::LeftIpParseError]
    } else {
        e
    };
    let later = if l.len() > 0 {
        right_parse_notices(l.skip(1))
    } else {
        e
    };
    let last = if line_start(l) is None {
        seq![NoticeModel::LeftIpMissing]
    } else if line_end(l) is None {
        seq![NoticeModel::RightIpMissing]
    } else {
        e
    };
    let n = ip_line_notices(l);
    assert(n == first + later + last);
    lemma_right_notices_are_parse_errors(l.skip(1));
    if last.len() > 0 {
        assert(n.last() == last.last());
    } else if later.len() > 0 {
        assert(n.last() == later.last());
        assert(later[later.len() - 1] == NoticeModel::RightIpParseError);
    } else if first.len() > 0 {
        assert(n.last() == first.last());
    } else {
        assert(n.len() == 0);
    }
}

/// Text typed into a text condition is what its box then shows, for every
/// kind but ISP, whose box shows the saved lines once something is typed.
pub proof fn lemma_typed_text_shows(k: TextKind, lines: Seq<Seq<char>>, t: ConditionData, tmp: Seq<char>)
    requires
        t is Text,
        t->Text_0@.len() > 0,
    ensures
        ({
            let (d1, tmp1, _) = edit_outcome(ConditionDataModel::Text(k, lines), t, tmp);
            controls_spec(d1, tmp1) == ControlsModel::TextArea(
                if k == TextKind::ISP {
                    concat_with(lines, seq!['\n'])
                } else {
                    t->Text_0@
                },
            )
        }),
{
}


/// Opening a listed condition for changing and saving it untouched gives the
/// list back as it was, where no earlier condition is of its kind.
pub proof fn lemma_edit_then_save_untouched(
    v0: ConditionView,
    v1: ConditionView,
    notices: Seq<NoticeModel>,
    pos: int,
)
    requires
        0 <= pos < v0.conditions.deep_view().len(),
        v0.mode == EditMode::Edit,
        v0.active_condition.deep_view() == Some(v0.conditions.deep_view()[pos]),
        forall|j: int|
            0 <= j < pos ==> (#[trigger] v0.conditions.deep_view()[j]).data.kind()
                != v0.conditions.deep_view()[pos].data.kind(),
        v0.condition_submitted(v1, notices),
    ensures
        v1.conditions.deep_view() == v0.conditions.deep_view(),
        notices.len() == 0,
        v1.active_condition is None,
{
    let cs = v0.conditions.deep_view();
    let a = v0.active_condition->Some_0.deep_view();
    assert(a == cs[pos]);
    lemma_submit_places_condition(v0, v1, notices);
    assert(cs[pos].data.kind() == a.data.kind());
    assert(v1.conditions.deep_view() =~= cs);
}

} // verus!
