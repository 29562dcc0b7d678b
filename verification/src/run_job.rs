use vstd::prelude::*;
use crate::error::Error;
use crate::job::{Job, lifecycle_consistent};
use crate::job_action::{
    Action, ActionView, JobAction, JobActionView, ValueSource, ValueSourceView, actions_view,
    opt_text, texts,
};
use crate::job_config::{Cookie, CookieView, JobConfig, JobConfigView, cookies_view};
use crate::job_status::JobStatus;
use crate::text::{
    chars_of, find_char, find_spec, split_bounds, split_spec, starts_with, starts_with_spec,
    string_from, trim_spec, trimmed_bounds,
};

verus! {

/// The domain that cookies are set for unless their name makes them host-only.
pub open spec fn cookie_domain() -> Seq<char> {
    ".wallapop.com"@
}

/// The cookie that one `name=value` pair stands for: the pair and both sides are trimmed,
/// a pair without `=` or with an empty name stands for none, and a `__Host-` name makes
/// the cookie host-only (no domain). Every cookie has path `/` and is secure, as browsers
/// require for the `__Secure-` and `__Host-` prefixes.
pub open spec fn cookie_from_pair_spec(pair: Seq<char>) -> Option<CookieView> {
    let p = trim_spec(pair);
    let i = find_spec(p, '=');
    if i >= p.len() {
        None
    } else {
        let name = trim_spec(p.subrange(0, i));
        let value = trim_spec(p.subrange(i + 1, p.len() as int));
        if name.len() == 0 {
            None
        } else {
            Some(
                CookieView {
                    name,
                    value,
                    domain: if starts_with_spec(name, "__Host-"@) {
                        None
                    } else {
                        Some(cookie_domain())
                    },
                    path: Some("/"@),
                    secure: Some(true),
                },
            )
        }
    }
}

/// The cookies of a list of pairs, in order, skipping pairs that stand for none.
pub open spec fn cookies_from_pairs(pairs: Seq<Seq<char>>) -> Seq<CookieView>
    decreases pairs.len(),
{
    if pairs.len() == 0 {
        Seq::empty()
    } else {
        let init = cookies_from_pairs(pairs.drop_last());
        match cookie_from_pair_spec(pairs.last()) {
            Some(c) => init.push(c),
            None => init,
        }
    }
}

/// The cookies of a `name=value; name2=value2` header.
pub open spec fn parse_cookies_spec(raw: Seq<char>) -> Seq<CookieView> {
    cookies_from_pairs(split_spec(raw, ';'))
}

/// A cookie as browsers require it of the `__Secure-` and `__Host-` prefixes: a name, path
/// `/`, secure, and no domain exactly when the name is host-only.
pub open spec fn follows_prefix_rules(c: CookieView) -> bool {
    &&& c.name.len() > 0
    &&& c.secure == Some(true)
    &&& c.path == Some("/"@)
    &&& (starts_with_spec(c.name, "__Host-"@) <==> c.domain is None)
}

proof fn lemma_pair_cookies_follow_prefix_rules(pairs: Seq<Seq<char>>)
    ensures
        forall|i: int|
            0 <= i < cookies_from_pairs(pairs).len() ==> follows_prefix_rules(
                #[trigger] cookies_from_pairs(pairs)[i],
            ),
    decreases pairs.len(),
{
    if pairs.len() > 0 {
        let init = cookies_from_pairs(pairs.drop_last());
        lemma_pair_cookies_follow_prefix_rules(pairs.drop_last());
        let all = cookies_from_pairs(pairs);
        assert forall|i: int| 0 <= i < all.len() implies follows_prefix_rules(
            #[trigger] all[i],
        ) by {
            if i < init.len() {
                assert(all[i] == init[i]);
            }
        }
    }
}

/// Every cookie parsed from a header has a name, path `/` and the secure flag, and has no
/// domain exactly when its name carries the `__Host-` prefix, as the browser enforces.
pub proof fn lemma_parsed_cookies_follow_prefix_rules(raw: Seq<char>)
    ensures
        forall|i: int|
            0 <= i < parse_cookies_spec(raw).len() ==> follows_prefix_rules(
                #[trigger] parse_cookies_spec(raw)[i],
            ),
{
    lemma_pair_cookies_follow_prefix_rules(split_spec(raw, ';'));
}

/// The cookie of the pair `chars[from..to]`, if it stands for one.
fn cookie_from_pair(chars: &Vec<char>, from: usize, to: usize) -> (c: Option<Cookie>)
    requires
        from <= to <= chars@.len(),
    ensures
        match c {
            Some(c) => cookie_from_pair_spec(chars@.subrange(from as int, to as int)) == Some(c@),
            None => cookie_from_pair_spec(chars@.subrange(from as int, to as int)) is None,
        },
{
    let ghost pair = chars@.subrange(from as int, to as int);
    let (s, e) = trimmed_bounds(chars, from, to);
    let ghost p = chars@.subrange(s as int, e as int);
    let i = find_char(chars, s, e, '=');
    if i == e - s {
        return None;
    }
    let (ns, ne) = trimmed_bounds(chars, s, s + i);
    let (vs, ve) = trimmed_bounds(chars, s + i + 1, e);
    assert(chars@.subrange(s as int, s + i) =~= p.subrange(0, i as int));
    assert(chars@.subrange(s + i + 1, e as int) =~= p.subrange(i + 1, p.len() as int));
    if ns == ne {
        return None;
    }
    let host_only = starts_with(chars, ns, ne, "__Host-");
    let name = string_from(chars, ns, ne);
    let value = string_from(chars, vs, ve);
    let domain = if host_only {
        None
    } else {
        Some(".wallapop.com".to_owned())
    };
    Some(Cookie { name, value, domain, path: Some("/".to_owned()), secure: Some(true) })
}

/// The cookies of a `name=value; name2=value2` header, ready for the browser.
pub fn parse_cookies(raw: &str) -> (cookies: Vec<Cookie>)
    ensures
        cookies_view(cookies@) == parse_cookies_spec(raw@),
{
    let chars = chars_of(raw);
    let bounds = split_bounds(&chars, ';');
    let ghost pieces = split_spec(chars@, ';');
    let mut cookies: Vec<Cookie> = Vec::new();
    let mut k: usize = 0;
    while k < bounds.len()
        invariant
            k <= bounds@.len() == pieces.len(),
            chars@ == raw@,
            pieces == split_spec(chars@, ';'),
            forall|j: int|
                0 <= j < bounds@.len() ==> {
                    &&& (#[trigger] bounds@[j]).0 <= bounds@[j].1 <= chars@.len()
                    &&& chars@.subrange(bounds@[j].0 as int, bounds@[j].1 as int) == pieces[j]
                },
            cookies_view(cookies@) == cookies_from_pairs(pieces.take(k as int)),
        decreases bounds@.len() - k,
    {
        let (from, to) = bounds[k];
        assert(pieces.take(k + 1).drop_last() =~= pieces.take(k as int));
        assert(pieces.take(k + 1).last() == pieces[k as int]);
        match cookie_from_pair(&chars, from, to) {
            Some(c) => {
                cookies.push(c);
                assert(cookies_view(cookies@) =~= cookies_from_pairs(pieces.take(k as int)).push(
                    c@,
                ));
            },
            None => {},
        }
        k = k + 1;
    }
    assert(pieces.take(pieces.len() as int) =~= pieces);
    cookies
}

/// A literal value source.
pub fn literal(text: &str) -> (v: ValueSource)
    ensures
        v@ == ValueSourceView::Literal(text@),
{
    ValueSource::Literal(text.to_owned())
}


/// An action without result key or time limit.
pub open spec fn plain_view(action: ActionView) -> JobActionView {
    JobActionView { action, result_key: None, timeout: None }
}

// The page where a Wallapop listing is created, and the selectors and texts of its form.
pub const UPLOAD_URL: &'static str = "https://es.wallapop.com/app/catalog/upload/consumer-goods";
pub const SUMMARY_SELECTOR: &'static str = "input#summary";
pub const FILE_INPUT_SELECTOR: &'static str = "input#dropAreaPreviewInput";
pub const TITLE_SELECTOR: &'static str = "input[name='title']";
pub const DESCRIPTION_SELECTOR: &'static str = "textarea[name='description']";
pub const PRICE_SELECTOR: &'static str = "input[name='price_amount']";
pub const CATEGORY_MARKER_SELECTOR: &'static str = "input[name='category_leaf_id']";
pub const CONTINUE_TEXT: &'static str = "Continuar";
pub const PUBLISH_TEXT: &'static str = "Publicar";
pub const LISTING_TEXT: &'static str = "Test product - ignore";

pub open spec fn fill_view(selector: &str, text: &str) -> JobActionView {
    plain_view(ActionView::Fill { selector: selector@, text: ValueSourceView::Literal(text@) })
}

pub open spec fn click_text_view(text: &str) -> JobActionView {
    plain_view(ActionView::ClickText { text: text@ })
}

pub open spec fn wait_for_view(selector: &str) -> JobActionView {
    plain_view(ActionView::WaitForSelector { selector: selector@ })
}

pub open spec fn pause_view(duration: u64) -> JobActionView {
    plain_view(ActionView::Wait { duration })
}

/// The actions that publish a test listing on Wallapop with the image at `image_url`:
/// open the upload form, fill in the summary, continue, upload the image, continue, fill in
/// title, description, condition and price, publish, and capture the resulting URL under
/// the key `final_url`.
pub open spec fn publish_actions_spec(image_url: Seq<char>) -> Seq<JobActionView> {
    seq![
        plain_view(ActionView::Navigate { url: UPLOAD_URL@ }),
        wait_for_view(SUMMARY_SELECTOR),
        fill_view(SUMMARY_SELECTOR, LISTING_TEXT),
        click_text_view(CONTINUE_TEXT),
        wait_for_view(FILE_INPUT_SELECTOR),
        plain_view(
            ActionView::UploadFile { selector: FILE_INPUT_SELECTOR@, urls: seq![image_url] },
        ),
        pause_view(1500),
        click_text_view(CONTINUE_TEXT),
        wait_for_view(CATEGORY_MARKER_SELECTOR),
        pause_view(3000),
        fill_view(TITLE_SELECTOR, LISTING_TEXT),
        fill_view(DESCRIPTION_SELECTOR, LISTING_TEXT),
        click_text_view("Estado*"),
        pause_view(300),
        click_text_view("Nuevo"),
        fill_view(PRICE_SELECTOR, "1"),
        click_text_view(PUBLISH_TEXT),
        pause_view(2500),
        JobActionView {
            action: ActionView::ExtractUrl,
            result_key: Some("final_url"@),
            timeout: None,
        },
    ]
}

/// The publishing job has nineteen actions, in this order: it opens the upload form, fills in
/// the summary and continues, uploads exactly the given image into the file input and
/// continues, fills in title and description, picks the condition "Nuevo", sets the price to
/// 1, clicks "Publicar", waits 2500 ms and then, last, keeps the page's URL under
/// `final_url`; no other action keeps a result, and none has its own time limit.
pub proof fn lemma_publishing_job_publishes(image_url: Seq<char>)
    ensures
        publish_actions_spec(image_url).len() == 19,
        publish_actions_spec(image_url)[0].action == (ActionView::Navigate {
            url: "https://es.wallapop.com/app/catalog/upload/consumer-goods"@,
        }),
        publish_actions_spec(image_url)[5].action == (ActionView::UploadFile {
            selector: "input#dropAreaPreviewInput"@,
            urls: seq![image_url],
        }),
        publish_actions_spec(image_url)[16].action == (ActionView::ClickText {
            text: "Publicar"@,
        }),
        publish_actions_spec(image_url)[17].action == (ActionView::Wait {
            duration: 2500,
        }),
        publish_actions_spec(image_url)[18] == (JobActionView {
            action: ActionView::ExtractUrl,
            result_key: Some("final_url"@),
            timeout: None,
        }),
        publish_actions_spec(image_url)[1].action == (ActionView::WaitForSelector {
            selector: "input#summary"@,
        }),
        publish_actions_spec(image_url)[2].action == (ActionView::Fill {
            selector: "input#summary"@,
            text: ValueSourceView::Literal("Test product - ignore"@),
        }),
        publish_actions_spec(image_url)[3].action == (ActionView::ClickText { text: "Continuar"@ }),
        publish_actions_spec(image_url)[4].action == (ActionView::WaitForSelector {
            selector: "input#dropAreaPreviewInput"@,
        }),
        publish_actions_spec(image_url)[6].action == (ActionView::Wait { duration: 1500 }),
        publish_actions_spec(image_url)[7].action == (ActionView::ClickText { text: "Continuar"@ }),
        publish_actions_spec(image_url)[8].action == (ActionView::WaitForSelector {
            selector: "input[name='category_leaf_id']"@,
        }),
        publish_actions_spec(image_url)[9].action == (ActionView::Wait { duration: 3000 }),
        publish_actions_spec(image_url)[10].action == (ActionView::Fill {
            selector: "input[name='title']"@,
            text: ValueSourceView::Literal("Test product - ignore"@),
        }),
        publish_actions_spec(image_url)[11].action == (ActionView::Fill {
            selector: "textarea[name='description']"@,
            text: ValueSourceView::Literal("Test product - ignore"@),
        }),
        publish_actions_spec(image_url)[12].action == (ActionView::ClickText { text: "Estado*"@ }),
        publish_actions_spec(image_url)[13].action == (ActionView::Wait { duration: 300 }),
        publish_actions_spec(image_url)[14].action == (ActionView::ClickText { text: "Nuevo"@ }),
        publish_actions_spec(image_url)[15].action == (ActionView::Fill {
            selector: "input[name='price_amount']"@,
            text: ValueSourceView::Literal("1"@),
        }),
        forall|i: int|
            0 <= i < 18 ==> (#[trigger] publish_actions_spec(image_url)[i].result_key is None),
        forall|i: int|
            0 <= i < 19 ==> (#[trigger] publish_actions_spec(image_url)[i].timeout is None),
{
    let actions = publish_actions_spec(image_url);
    assert forall|i: int| 0 <= i < 18 implies #[trigger] actions[i].result_key is None by {
        assert(actions[i].result_key is None);
    }
    assert forall|i: int| 0 <= i < 19 implies #[trigger] actions[i].timeout is None by {
        assert(actions[i].timeout is None);
    }
}

/// An action without result key or time limit.
fn plain(action: Action) -> (a: JobAction)
    ensures
        a@ == plain_view(action@),
{
    JobAction { action, result_key: None, timeout: None }
}

fn fill(selector: &str, text: &str) -> (a: JobAction)
    ensures
        a@ == fill_view(selector, text),
{
    plain(Action::Fill { selector: selector.to_owned(), text: literal(text) })
}

fn click_text(text: &str) -> (a: JobAction)
    ensures
        a@ == click_text_view(text),
{
    plain(Action::ClickText { text: text.to_owned() })
}

fn wait_for(selector: &str) -> (a: JobAction)
    ensures
        a@ == wait_for_view(selector),
{
    plain(Action::WaitForSelector { selector: selector.to_owned() })
}

fn pause(duration: u64) -> (a: JobAction)
    ensures
        a@ == pause_view(duration),
{
    plain(Action::Wait { duration })
}

/// The job that publishes a test listing on Wallapop: the session cookies come from the
/// raw cookie header, the image from `image_url`, and the browser uses `proxy` if given.
/// It always has actions, so it is always made.
pub fn job(cookies_raw: &str, image_url: String, proxy: Option<String>) -> (r: Result<Job, Error>)
    ensures
        r matches Ok(j) && {
            &&& j@.actions == publish_actions_spec(image_url@)
            &&& j@.config == Some(
                JobConfigView {
                    cookies: Some(parse_cookies_spec(cookies_raw@)),
                    user_agent: None,
                    proxy: opt_text(proxy),
                },
            )
            &&& j@.status == JobStatus::Pending
            &&& lifecycle_consistent(j@)
        },
{
    let ghost url = image_url@;
    let urls = vec![image_url];
    assert(texts(urls@) =~= seq![url]);
    let mut actions: Vec<JobAction> = Vec::new();
    actions.push(plain(Action::Navigate { url: UPLOAD_URL.to_owned() }));
    actions.push(wait_for(SUMMARY_SELECTOR));
    actions.push(fill(SUMMARY_SELECTOR, LISTING_TEXT));
    actions.push(click_text(CONTINUE_TEXT));
    actions.push(wait_for(FILE_INPUT_SELECTOR));
    actions.push(plain(Action::UploadFile { selector: FILE_INPUT_SELECTOR.to_owned(), urls }));
    actions.push(pause(1500));
    actions.push(click_text(CONTINUE_TEXT));
    actions.push(wait_for(CATEGORY_MARKER_SELECTOR));
    actions.push(pause(3000));
    actions.push(fill(TITLE_SELECTOR, LISTING_TEXT));
    actions.push(fill(DESCRIPTION_SELECTOR, LISTING_TEXT));
    actions.push(click_text("Estado*"));
    actions.push(pause(300));
    actions.push(click_text("Nuevo"));
    actions.push(fill(PRICE_SELECTOR, "1"));
    actions.push(click_text(PUBLISH_TEXT));
    actions.push(pause(2500));
    actions.push(
        JobAction {
            action: Action::ExtractUrl,
            result_key: Some("final_url".to_owned()),
            timeout: None,
        },
    );
    assert(actions_view(actions@) =~= publish_actions_spec(url));
    let config = JobConfig { cookies: Some(parse_cookies(cookies_raw)), user_agent: None, proxy };
    Job::new(actions, Some(config))
}

} // verus!
