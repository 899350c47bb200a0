//! The landing page URL field: the typed URL, the tokens appended to it, and
//! the click-through URLs of a landing page.

use vstd::prelude::*;
use crate::outside::{
    parse_url, query_of_url, set_url_path, set_url_query, url_parse_serialization, url_query,
    url_with_path, url_with_query,
};
use crate::text::{
    lemma_remove_appended, lemma_u8_decimal_parses, remove_all, remove_all_occurrences, spec_parse_u8,
    spec_u8_decimal, starts_only_at_end, u8_to_decimal,
};

verus! {

/// What the URL field reports to the user.
#[derive(Clone, Copy, Debug, PartialEq, Eq, Structural)]
pub enum UrlNotice {
    /// The typed text is not a URL.
    InvalidUrl,
}

/// The first element of `a` that `b` does not hold.
pub open spec fn first_not_in(a: Seq<Seq<char>>, b: Seq<Seq<char>>) -> Option<Seq<char>>
    decreases a.len(),
{
    if a.len() == 0 {
        None
    } else if !b.contains(a[0]) {
        Some(a[0])
    } else {
        first_not_in(a.drop_first(), b)
    }
}

/// Whether `b` holds a string equal to `x`.
fn holds(b: &Vec<String>, x: &String) -> (r: bool)
    ensures
        r == b.deep_view().contains(x@),
{
    let mut i: usize = 0;
    while i < b.len()
        invariant
            i <= b.len(),
            forall|j: int| 0 <= j < i ==> b.deep_view()[j] != x@,
        decreases b.len() - i,
    {
        if b[i] == *x {
            assert(b.deep_view()[i as int] == x@);
            return true;
        }
        i = i + 1;
    }
    assert(!b.deep_view().contains(x@)) by {
        if b.deep_view().contains(x@) {
            let j = choose|j: int| 0 <= j < b.deep_view().len() && b.deep_view()[j] == x@;
            assert(b.deep_view()[j] != x@);
        }
    }
    false
}

/// The position in `a` of its first element that `b` does not hold.
fn find_first_not_in(a: &Vec<String>, b: &Vec<String>) -> (r: Option<usize>)
    ensures
        match r {
            Some(i) => i < a@.len() && first_not_in(a.deep_view(), b.deep_view()) == Some(a@[i as int]@),
            None => first_not_in(a.deep_view(), b.deep_view()) is None,
        },
{
    let mut i: usize = 0;
    assert(a.deep_view().skip(0) =~= a.deep_view());
    while i < a.len()
        invariant
            i <= a.len(),
            first_not_in(a.deep_view(), b.deep_view()) == first_not_in(
                a.deep_view().skip(i as int),
                b.deep_view(),
            ),
        decreases a.len() - i,
    {
        let ghost rest = a.deep_view().skip(i as int);
        assert(rest[0] == a@[i as int]@);
        if !holds(b, &a[i]) {
            return Some(i);
        }
        assert(rest.drop_first() =~= a.deep_view().skip(i + 1));
        i = i + 1;
    }
    assert(a.deep_view().skip(i as int) =~= Seq::<Seq<char>>::empty());
    None
}

/// The state of the landing page URL field.
#[derive(Debug)]
pub struct LanderUrlGenerator {
    /// The typed URL.
    pub url_string: String,
    pub offer_url: Option<String>,
    /// The tokens picked for the URL, by their text.
    pub url_tokens: Vec<String>,
}

/// The typed URL after the owner hands over `offer_url` and the tokens
/// `new_tokens` (which were `old_tokens`): a token picked since is appended,
/// a token dropped since is taken out everywhere. Only one token is handled
/// per change.
pub open spec fn changed_url(
    url: Seq<char>,
    offer_url: Option<Seq<char>>,
    old_tokens: Seq<Seq<char>>,
    new_tokens: Seq<Seq<char>>,
) -> (Seq<char>, Option<Seq<char>>) {
    let u0 = match offer_url {
        Some(u) => u,
        None => url,
    };
    if old_tokens.len() == new_tokens.len() {
        (u0, None)
    } else if new_tokens.len() > old_tokens.len() {
        match first_not_in(new_tokens, old_tokens) {
            Some(t) => (u0 + t, url_parse_serialization(u0 + t)),
            None => (u0, None),
        }
    } else {
        match first_not_in(old_tokens, new_tokens) {
            Some(t) => (remove_all(u0, t), url_parse_serialization(remove_all(u0, t))),
            None => (u0, None),
        }
    }
}

/// The first element of `a` that `b` lacks is `t`, where every earlier
/// element is in `b`.
proof fn lemma_first_not_in_last(a: Seq<Seq<char>>, b: Seq<Seq<char>>, t: Seq<char>)
    requires
        forall|i: int| 0 <= i < a.len() ==> b.contains(#[trigger] a[i]),
        !b.contains(t),
    ensures
        first_not_in(a.push(t), b) == Some(t),
    decreases a.len(),
{
    if a.len() == 0 {
        assert(a.push(t)[0] == t);
    } else {
        assert(a.push(t)[0] == a[0]);
        assert(b.contains(a[0]));
        assert(a.push(t).drop_first() =~= a.drop_first().push(t));
        assert forall|i: int| 0 <= i < a.drop_first().len() implies b.contains(
            #[trigger] a.drop_first()[i],
        ) by {
            assert(a.drop_first()[i] == a[i + 1]);
        }
        lemma_first_not_in_last(a.drop_first(), b, t);
    }
}

/// Picking a token that was not picked and then dropping it again gives back
/// the typed URL, where the token starts nowhere in the URL with it appended
/// but at the appended copy.
pub proof fn lemma_pick_then_drop_token(url: Seq<char>, tokens: Seq<Seq<char>>, t: Seq<char>)
    requires
        !tokens.contains(t),
        t.len() > 0,
        starts_only_at_end(url, t),
    ensures
        changed_url(changed_url(url, None, tokens, tokens.push(t)).0, None, tokens.push(t), tokens).0
            == url,
{
    assert forall|i: int| 0 <= i < tokens.len() implies tokens.contains(#[trigger] tokens[i]) by {}
    lemma_first_not_in_last(tokens, tokens, t);
    lemma_remove_appended(url, t);
}

/// Picking a new token appends it to the end of the URL, which is then
/// handed on where it parses; with the tokens unchanged the URL stays as it
/// is (or becomes the owner's URL, where one is handed over) and nothing is
/// handed on.
pub proof fn lemma_token_pick_appends(
    url: Seq<char>,
    offer_url: Option<Seq<char>>,
    tokens: Seq<Seq<char>>,
    t: Seq<char>,
)
    ensures
        ({
            let u0 = if offer_url is Some {
                offer_url->Some_0
            } else {
                url
            };
            &&& !tokens.contains(t) ==> changed_url(url, offer_url, tokens, tokens.push(t)) == (
                u0 + t,
                url_parse_serialization(u0 + t),
            )
            &&& changed_url(url, offer_url, tokens, tokens) == (u0, None::<Seq<char>>)
        }),
{
    if !tokens.contains(t) {
        assert forall|i: int| 0 <= i < tokens.len() implies tokens.contains(#[trigger] tokens[i]) by {}
        lemma_first_not_in_last(tokens, tokens, t);
    }
}

impl LanderUrlGenerator {
    /// An empty field.
    pub fn create(url_tokens: Vec<String>) -> (r: LanderUrlGenerator)
        ensures
            r.url_string@.len() == 0,
            r.offer_url is None,
            r.url_tokens == url_tokens,
    {
        LanderUrlGenerator { url_string: String::new(), offer_url: None, url_tokens }
    }

    /// Keeps the typed text.
    pub fn on_input(&mut self, value: String)
        ensures
            *final(self) == (LanderUrlGenerator { url_string: value, ..*old(self) }),
    {
        self.url_string = value;
    }

    /// The URL to hand on when the field loses focus: the typed URL, given an
    /// empty query where it has none; reports text that is not a URL.
    pub fn on_blur(&self) -> (r: Result<String, UrlNotice>)
        requires
            self.url_string@.len() < 0x10_0000,
        ensures
            match url_query(self.url_string@) {
                None => r == Err::<String, UrlNotice>(UrlNotice::InvalidUrl),
                Some(Some(_)) => r matches Ok(u) && url_parse_serialization(self.url_string@)
                    == Some(u@),
                Some(None) => r matches Ok(u) && url_with_query(self.url_string@, Seq::empty())
                    == Some(u@),
            },
    {
        let s = self.url_string.as_str();
        match query_of_url(s) {
            None => Err(UrlNotice::InvalidUrl),
            Some(Some(_)) => match parse_url(s) {
                Some(u) => Ok(u),
                None => Err(UrlNotice::InvalidUrl),
            },
            Some(None) => {
                proof {
                    reveal_strlit("");
                    assert(""@ =~= Seq::<char>::empty());
                }
                match set_url_query(s, "") {
                    Some(u) => Ok(u),
                    None => Err(UrlNotice::InvalidUrl),
                }
            },
        }
    }

    /// Takes the owner's URL and tokens, updating the typed URL (see
    /// `changed_url`); gives back the URL to hand on, if it parses.
    pub fn change(&mut self, offer_url: Option<String>, url_tokens: Vec<String>) -> (emitted: Option<String>)
        ensures
            ({
                let (u, e) = changed_url(
                    old(self).url_string@,
                    offer_url.deep_view(),
                    old(self).url_tokens.deep_view(),
                    url_tokens.deep_view(),
                );
                &&& final(self).url_string@ == u
                &&& emitted.deep_view() == e
            }),
            final(self).offer_url == offer_url,
            final(self).url_tokens == url_tokens,
    {
        match &offer_url {
            Some(u) => {
                self.url_string = u.clone();
            },
            None => {},
        }
        let mut emitted: Option<String> = None;
        if self.url_tokens.len() != url_tokens.len() {
            if url_tokens.len() > self.url_tokens.len() {
                if let Some(i) = find_first_not_in(&url_tokens, &self.url_tokens) {
                    self.url_string.append(url_tokens[i].as_str());
                    emitted = parse_url(self.url_string.as_str());
                }
            } else {
                if let Some(i) = find_first_not_in(&self.url_tokens, &url_tokens) {
                    let replaced = remove_all_occurrences(
                        self.url_string.as_str(),
                        self.url_tokens[i].as_str(),
                    );
                    self.url_string = replaced;
                    emitted = parse_url(self.url_string.as_str());
                }
            }
        }
        self.offer_url = offer_url;
        self.url_tokens = url_tokens;
        emitted
    }
}

/// The path of click-through link `cta` of `n`: the bare path word for the
/// only link, else the word, `/` and the link's number.
pub open spec fn click_path(word: Seq<char>, cta: u8, n: u8) -> Seq<char> {
    if cta == 1 && n == 1 {
        word
    } else {
        word + seq!['/'] + spec_u8_decimal(cta)
    }
}

/// The path word: `learn` on a pre-sell page, `extra` on others.
pub open spec fn click_word(is_pre_sell: bool) -> Seq<char> {
    if is_pre_sell {
        "learn"@
    } else {
        "extra"@
    }
}

/// A click-through path has at most nine characters.
pub proof fn lemma_click_path_short(is_pre_sell: bool, cta: u8, n: u8)
    ensures
        click_path(click_word(is_pre_sell), cta, n).len() <= 9,
{
    reveal_strlit("learn");
    reveal_strlit("extra");
    assert(click_word(is_pre_sell).len() == 5);
    assert(spec_u8_decimal(cta).len() <= 3);
}

/// The links of one page get different paths, and the number after the
/// slash of a numbered path reads back as the link's number.
pub proof fn lemma_click_paths_distinct(word: Seq<char>, c1: u8, c2: u8, n: u8)
    ensures
        c1 != c2 ==> click_path(word, c1, n) != click_path(word, c2, n),
        !(c1 == 1 && n == 1) ==> spec_parse_u8(
            click_path(word, c1, n).skip(word.len() as int + 1),
        ) == Some(c1),
{
    lemma_u8_decimal_parses(c1);
    lemma_u8_decimal_parses(c2);
    let p1 = click_path(word, c1, n);
    let p2 = click_path(word, c2, n);
    let k: int = word.len() as int + 1;
    if !(c1 == 1 && n == 1) {
        assert(p1.skip(k) =~= spec_u8_decimal(c1));
    }
    if !(c2 == 1 && n == 1) {
        assert(p2.skip(k) =~= spec_u8_decimal(c2));
    }
    if c1 != c2 && p1 == p2 {
        if !(c1 == 1 && n == 1) && !(c2 == 1 && n == 1) {
            assert(p1.skip(k) == p2.skip(k));
        } else {
            assert(p1.len() != p2.len());
        }
    }
}

/// The paths of the `n` click-through links of a landing page, in order.
pub fn click_paths(n: u8, is_pre_sell: bool) -> (r: Vec<String>)
    ensures
        r@.len() == n,
        forall|i: int| 0 <= i < n ==> #[trigger] r@[i]@ == click_path(click_word(is_pre_sell), (i + 1) as u8, n),
{
    let word = if is_pre_sell {
        "learn"
    } else {
        "extra"
    };
    let mut r: Vec<String> = Vec::new();
    let mut cta: u8 = 0;
    while cta < n
        invariant
            cta <= n,
            word@ == click_word(is_pre_sell),
            r@.len() == cta,
            forall|i: int| 0 <= i < cta ==> #[trigger] r@[i]@ == click_path(click_word(is_pre_sell), (i + 1) as u8, n),
        decreases n - cta,
    {
        let number = cta + 1;
        let mut path = String::from_str(word);
        assert(path@ == word@);
        if !(number == 1 && n == 1) {
            proof {
                reveal_strlit("/");
            }
            path.append("/");
            assert(path@ == word@ + seq!['/']);
            let digits = u8_to_decimal(number);
            path.append(digits.as_str());
            assert(path@ == word@ + seq!['/'] + spec_u8_decimal(number));
        }
        r.push(path);
        cta = number;
    }
    r
}

/// The click-through URLs of a landing page on `tracking_domain`: the domain
/// with each link's path (see `click_paths`); none where the domain is not a URL.
pub fn click_urls(tracking_domain: &str, n: u8, is_pre_sell: bool) -> (r: Vec<Option<String>>)
    requires
        tracking_domain@.len() < 0x10_0000,
    ensures
        r@.len() == n,
        forall|i: int|
            0 <= i < n ==> (#[trigger] r@[i]).deep_view() == url_with_path(
                tracking_domain@,
                click_path(click_word(is_pre_sell), (i + 1) as u8, n),
            ),
{
    let paths = click_paths(n, is_pre_sell);
    let mut r: Vec<Option<String>> = Vec::new();
    let mut i: usize = 0;
    while i < paths.len()
        invariant
            i <= paths@.len(),
            paths@.len() == n,
            tracking_domain@.len() < 0x10_0000,
            forall|k: int| 0 <= k < n ==> #[trigger] paths@[k]@ == click_path(click_word(is_pre_sell), (k + 1) as u8, n),
            r@.len() == i,
            forall|k: int|
                0 <= k < i ==> (#[trigger] r@[k]).deep_view() == url_with_path(
                    tracking_domain@,
                    click_path(click_word(is_pre_sell), (k + 1) as u8, n),
                ),
        decreases paths@.len() - i,
    {
        proof {
            lemma_click_path_short(is_pre_sell, (i + 1) as u8, n);
        }
        r.push(set_url_path(tracking_domain, paths[i].as_str()));
        i = i + 1;
    }
    r
}

/// The click URL shown for a campaign: the tracking domain followed by `extra`.
pub fn campaign_click_url(tracking_domain: &str) -> (r: String)
    ensures
        r@ == tracking_domain@ + "extra"@,
{
    let mut r = String::from_str(tracking_domain);
    r.append("extra");
    r
}

/// The multi-offer click URL shown for a campaign: the tracking domain
/// followed by `extra/1`.
pub fn campaign_multi_offer_click_url(tracking_domain: &str) -> (r: String)
    ensures
        r@ == tracking_domain@ + "extra/1"@,
{
    let mut r = String::from_str(tracking_domain);
    r.append("extra/1");
    r
}

} // verus!
