use vstd::prelude::*;
use crate::error::{Error, ErrorKind, ErrorView, error_of};
use crate::external::{decimal_text, int_text, json_quote, json_string_literal};
use crate::job::{Job, JobView};
use crate::job_action::{
    Action, ActionView, JobAction, JobActionView, ScrollDirection, ValueSource, ValueSourceView,
    actions_view, clone_opt_string, opt_text, texts,
};
use crate::results::ResultMap;
use crate::text::concat;
use std::path::PathBuf;

verus! {

/// `std::path::PathBuf`, carried through as an opaque value.
#[verifier::external_type_specification]
#[verifier::external_body]
pub struct ExPathBuf(std::path::PathBuf);

/// How long an action may run when it names no time limit, in milliseconds.
pub const DEFAULT_ACTION_TIMEOUT_MS: u64 = 30000;

/// How often a missing element is looked for again, in milliseconds.
pub const WAIT_FOR_SELECTOR_POLL_INTERVAL_MS: u64 = 100;

/// How far one `Scroll` action moves, in pixels.
pub const SCROLL_STEP_PX: i64 = 500;

/// Runs jobs in a headless Chromium.
#[derive(Debug)]
pub struct ChromiumoxideScraper {
    chrome_executable_path: Option<PathBuf>,
}

impl ChromiumoxideScraper {
    /// The browser executable that the scraper launches, where one was given.
    pub closed spec fn executable(&self) -> Option<PathBuf> {
        self.chrome_executable_path
    }

    /// A scraper that launches the given browser executable, or the default one.
    pub fn new(chrome_executable_path: Option<PathBuf>) -> (scraper: Self)
        ensures
            scraper.executable() == chrome_executable_path,
    {
        ChromiumoxideScraper { chrome_executable_path }
    }

    pub fn chrome_executable_path(&self) -> (path: Option<&PathBuf>)
        ensures
            match path {
                Some(p) => self.executable() == Some(*p),
                None => self.executable() is None,
            },
    {
        self.chrome_executable_path.as_ref()
    }
}

/// The command-line arguments of the browser for a job: the three that a serverless
/// sandbox needs, then the job's proxy, if it names one.
pub open spec fn launch_arguments_spec(job: JobView) -> Seq<Seq<char>> {
    let base = seq!["--no-sandbox"@, "--disable-gpu"@, "--disable-dev-shm-usage"@];
    match job.config {
        Some(c) => match c.proxy {
            Some(p) => base.push("--proxy-server="@ + p),
            None => base,
        },
        None => base,
    }
}

/// The proxy that a job's settings name, if any.
pub open spec fn named_proxy(job: JobView) -> Option<Seq<char>> {
    match job.config {
        Some(c) => c.proxy,
        None => None,
    }
}

/// Whether a browser argument sets the proxy server.
pub open spec fn is_proxy_argument(arg: Seq<char>) -> bool {
    arg.len() >= 15 && arg.take(15) == "--proxy-server="@
}

/// The browser is always launched with the three sandbox flags first; a `--proxy-server=`
/// argument follows exactly when the job's settings name a proxy `p`, and it is then
/// `--proxy-server=p`. A job without a proxy gets only the three flags.
pub proof fn lemma_launch_arguments_name_the_proxy(job: JobView)
    ensures
        launch_arguments_spec(job).take(3) == seq![
            "--no-sandbox"@,
            "--disable-gpu"@,
            "--disable-dev-shm-usage"@,
        ],
        named_proxy(job) is None ==> launch_arguments_spec(job) == seq![
            "--no-sandbox"@,
            "--disable-gpu"@,
            "--disable-dev-shm-usage"@,
        ],
        named_proxy(job) matches Some(p) ==> launch_arguments_spec(job).len() == 4
            && launch_arguments_spec(job)[3] == "--proxy-server="@ + p,
        forall|i: int|
            0 <= i < launch_arguments_spec(job).len() && #[trigger] is_proxy_argument(
                launch_arguments_spec(job)[i],
            ) ==> i == 3 && named_proxy(job) is Some,
{
    reveal_strlit("--no-sandbox");
    reveal_strlit("--disable-gpu");
    reveal_strlit("--disable-dev-shm-usage");
    reveal_strlit("--proxy-server=");
    let args = launch_arguments_spec(job);
    assert(args.take(3) =~= seq!["--no-sandbox"@, "--disable-gpu"@, "--disable-dev-shm-usage"@]);
    assert forall|i: int| 0 <= i < args.len() && #[trigger] is_proxy_argument(args[i]) implies i
        == 3 && named_proxy(job) is Some by {
        if i < 3 {
            assert(args[i][2] != 'p');
            assert(args[i].take(15)[2] == args[i][2]);
        }
    }
}

/// The message for a value taken from a result that does not exist.
pub open spec fn missing_result_message(key: Seq<char>) -> Seq<char> {
    "no result found for key '"@ + key + "'"@
}

/// The text that a value source stands for, given the results so far.
pub open spec fn resolve_spec(value: ValueSourceView, results: Map<Seq<char>, Seq<char>>) -> Result<
    Seq<char>,
    ErrorView,
> {
    match value {
        ValueSourceView::Literal(v) => Ok(v),
        ValueSourceView::FromAction(key) => if results.dom().contains(key) {
            Ok(results[key])
        } else {
            Err(error_of(ErrorKind::InvalidInput, missing_result_message(key)))
        },
    }
}

/// The horizontal and vertical distances of one scroll step.
pub open spec fn scroll_delta(direction: ScrollDirection) -> (int, int) {
    match direction {
        ScrollDirection::Up => (0, -SCROLL_STEP_PX),
        ScrollDirection::Down => (0, SCROLL_STEP_PX as int),
        ScrollDirection::Left => (-SCROLL_STEP_PX, 0),
        ScrollDirection::Right => (SCROLL_STEP_PX as int, 0),
    }
}

/// The script that scrolls the element found by the selector written as `literal`.
pub open spec fn scroll_script_spec(literal: Seq<char>, direction: ScrollDirection) -> Seq<char> {
    "document.querySelector("@ + literal + ").scrollBy("@ + decimal_text(scroll_delta(direction).0)
        + ", "@ + decimal_text(scroll_delta(direction).1) + ")"@
}

/// The script that clicks the first visible, enabled element whose trimmed text content is the
/// text written as `literal`, and throws where there is none.
pub open spec fn click_text_script_spec(literal: Seq<char>) -> Seq<char> {
    "(() => { const wanted = "@ + literal + CLICK_TEXT_SCRIPT_TAIL@
}

/// The function, called on an input, that replaces its value with the text written as
/// `literal` through the value property's setter and then dispatches `input` and `change`.
pub open spec fn fill_function_spec(literal: Seq<char>) -> Seq<char> {
    FILL_FUNCTION_HEAD@ + literal + FILL_FUNCTION_TAIL@
}

/// The function, called on a file input, that downloads each URL of the JSON array `urls`,
/// sets the downloaded files as the input's files and then dispatches `input` and `change`.
pub open spec fn upload_function_spec(urls: Seq<char>) -> Seq<char> {
    "async function() { const urls = "@ + urls + UPLOAD_FUNCTION_TAIL@
}

/// The JSON string literals of `items`, separated by commas.
pub open spec fn json_list(items: Seq<Seq<char>>) -> Seq<char>
    decreases items.len(),
{
    if items.len() == 0 {
        Seq::empty()
    } else if items.len() == 1 {
        json_string_literal(items[0])
    } else {
        json_list(items.drop_last()) + ","@ + json_string_literal(items.last())
    }
}

/// The JSON array of the strings `items`.
pub open spec fn json_string_array(items: Seq<Seq<char>>) -> Seq<char> {
    "["@ + json_list(items) + "]"@
}

/// The end of the click-by-text script, after the wanted text.
pub const CLICK_TEXT_SCRIPT_TAIL: &'static str = "; const el = Array.from(document.querySelectorAll('*')).find(e => e.offsetParent !== null && !e.disabled && e.textContent.trim() === wanted); if (!el) { throw new Error('no element with text ' + wanted); } el.click(); })()";

/// The start of the fill function, up to the new value.
pub const FILL_FUNCTION_HEAD: &'static str = "function() { const proto = Object.getPrototypeOf(this); Object.getOwnPropertyDescriptor(proto, 'value').set.call(this, ";

/// The end of the fill function, after the new value.
pub const FILL_FUNCTION_TAIL: &'static str = "); this.dispatchEvent(new Event('input', { bubbles: true })); this.dispatchEvent(new Event('change', { bubbles: true })); }";

/// The end of the upload function, after the URLs.
pub const UPLOAD_FUNCTION_TAIL: &'static str = "; const transfer = new DataTransfer(); for (const url of urls) { const response = await fetch(url); if (!response.ok) { throw new Error('download failed: ' + url); } const blob = await response.blob(); const name = url.split('/').pop().split('?')[0] || 'file'; transfer.items.add(new File([blob], name, { type: blob.type })); } this.files = transfer.files; this.dispatchEvent(new Event('input', { bubbles: true })); this.dispatchEvent(new Event('change', { bubbles: true })); }";

/// What the browser is told to do for one action, with values resolved and scripts built.
#[derive(Debug)]
pub enum BrowserStep {
    Navigate { url: String },
    Sleep { duration_ms: u64 },
    WaitForSelector { selector: String },
    Click { selector: String },
    Type { selector: String, text: String },
    /// Run the script in the page.
    Evaluate { script: String },
    /// Call the function on the element that `selector` selects, awaiting the promise it
    /// returns where `await_promise` is set.
    CallFunction { selector: String, function: String, await_promise: bool },
    Extract { selector: String, attribute: Option<String> },
    ExtractUrl,
}

#[allow(inconsistent_fields)]
pub enum BrowserStepView {
    Navigate { url: Seq<char> },
    Sleep { duration_ms: u64 },
    WaitForSelector { selector: Seq<char> },
    Click { selector: Seq<char> },
    Type { selector: Seq<char>, text: Seq<char> },
    Evaluate { script: Seq<char> },
    CallFunction { selector: Seq<char>, function: Seq<char>, await_promise: bool },
    Extract { selector: Seq<char>, attribute: Option<Seq<char>> },
    ExtractUrl,
}

impl View for BrowserStep {
    type V = BrowserStepView;

    open spec fn view(&self) -> BrowserStepView {
        match self {
            BrowserStep::Navigate { url } => BrowserStepView::Navigate { url: url@ },
            BrowserStep::Sleep { duration_ms } => BrowserStepView::Sleep {
                duration_ms: *duration_ms,
            },
            BrowserStep::WaitForSelector { selector } => BrowserStepView::WaitForSelector {
                selector: selector@,
            },
            BrowserStep::Click { selector } => BrowserStepView::Click { selector: selector@ },
            BrowserStep::Type { selector, text } => BrowserStepView::Type {
                selector: selector@,
                text: text@,
            },
            BrowserStep::Evaluate { script } => BrowserStepView::Evaluate { script: script@ },
            BrowserStep::CallFunction { selector, function, await_promise } =>
                BrowserStepView::CallFunction {
                selector: selector@,
                function: function@,
                await_promise: *await_promise,
            },
            BrowserStep::Extract { selector, attribute } => BrowserStepView::Extract {
                selector: selector@,
                attribute: opt_text(*attribute),
            },
            BrowserStep::ExtractUrl => BrowserStepView::ExtractUrl,
        }
    }
}

/// The error with which an action is refused before it runs, if it is: only typing or
/// filling a value taken from a missing result is.
pub open spec fn plan_refusal(action: ActionView, results: Map<Seq<char>, Seq<char>>) -> Option<
    ErrorView,
> {
    match action {
        ActionView::Type { text, .. } => match resolve_spec(text, results) {
            Err(e) => Some(e),
            Ok(_) => None,
        },
        ActionView::Fill { text, .. } => match resolve_spec(text, results) {
            Err(e) => Some(e),
            Ok(_) => None,
        },
        _ => None,
    }
}

/// `step` is what the browser is told to do for `action`, given the results so far.
/// A scroll is the script for its selector written as a JSON string literal.
pub open spec fn planned_step(
    action: ActionView,
    results: Map<Seq<char>, Seq<char>>,
    step: BrowserStepView,
) -> bool {
    match action {
        ActionView::Navigate { url } => step == BrowserStepView::Navigate { url },
        ActionView::Wait { duration } => step == BrowserStepView::Sleep { duration_ms: duration },
        ActionView::WaitForSelector { selector } => step == BrowserStepView::WaitForSelector {
            selector,
        },
        ActionView::Click { selector } => step == BrowserStepView::Click { selector },
        ActionView::ClickText { text } => step == BrowserStepView::Evaluate {
            script: click_text_script_spec(json_string_literal(text)),
        },
        ActionView::Type { selector, text } => step == BrowserStepView::Type {
            selector,
            text: resolve_spec(text, results)->Ok_0,
        },
        ActionView::Fill { selector, text } => step == BrowserStepView::CallFunction {
            selector,
            function: fill_function_spec(json_string_literal(resolve_spec(text, results)->Ok_0)),
            await_promise: false,
        },
        ActionView::UploadFile { selector, urls } => step == BrowserStepView::CallFunction {
            selector,
            function: upload_function_spec(json_string_array(urls)),
            await_promise: true,
        },
        ActionView::Scroll { selector, direction } => step == BrowserStepView::Evaluate {
            script: scroll_script_spec(json_string_literal(selector), direction),
        },
        ActionView::Extract { selector, attribute } => step == BrowserStepView::Extract {
            selector,
            attribute,
        },
        ActionView::ExtractUrl => step == BrowserStepView::ExtractUrl,
    }
}

/// Each action that works on an element is planned on that element's own selector, as its
/// own kind of step: only a click action is planned as a click, and only a wait for a
/// selector as a wait, so a click is never reduced to waiting for its element.
pub proof fn lemma_steps_follow_their_actions(
    action: ActionView,
    results: Map<Seq<char>, Seq<char>>,
    step: BrowserStepView,
)
    requires
        planned_step(action, results, step),
    ensures
        step is Click <==> action is Click,
        step is WaitForSelector <==> action is WaitForSelector,
        step is Navigate <==> action is Navigate,
        step is Sleep <==> action is Wait,
        step is Type <==> action is Type,
        step is Extract <==> action is Extract,
        step is ExtractUrl <==> action is ExtractUrl,
        action matches ActionView::Click { selector } ==> step matches BrowserStepView::Click {
            selector: s,
        } && s == selector,
        action matches ActionView::WaitForSelector { selector } ==> step matches
            BrowserStepView::WaitForSelector { selector: s } && s == selector,
        action matches ActionView::Navigate { url } ==> step matches BrowserStepView::Navigate {
            url: u,
        } && u == url,
        action matches ActionView::Wait { duration } ==> step matches BrowserStepView::Sleep {
            duration_ms,
        } && duration_ms == duration,
        action matches ActionView::Extract { selector, attribute } ==> step matches
            BrowserStepView::Extract { selector: s, attribute: a } && s == selector && a
            == attribute,
        action matches ActionView::Type { selector, text } ==> step matches
            BrowserStepView::Type { selector: s, text: t } && s == selector && (text matches
            ValueSourceView::Literal(v) ==> t == v) && (text matches ValueSourceView::FromAction(
            k,
        ) ==> (results.dom().contains(k) ==> t == results[k])),
        action matches ActionView::Fill { selector, .. } ==> step matches
            BrowserStepView::CallFunction { selector: s, await_promise: w, .. } && s == selector
            && !w,
        action matches ActionView::UploadFile { selector, .. } ==> step matches
            BrowserStepView::CallFunction { selector: s, await_promise: w, .. } && s == selector
            && w,
        (action is Scroll || action is ClickText) ==> (step is Evaluate),
{
}

/// Whether `text` opens with `opening` followed directly by `literal`.
pub open spec fn opens_with(text: Seq<char>, opening: Seq<char>, literal: Seq<char>) -> bool {
    &&& text.take(opening.len() as int) == opening
    &&& text.skip(opening.len() as int).take(literal.len() as int) == literal
}

proof fn lemma_opens_with(opening: Seq<char>, literal: Seq<char>, rest: Seq<char>)
    ensures
        opens_with(opening + literal + rest, opening, literal),
{
    let text = opening + literal + rest;
    assert(text.take(opening.len() as int) =~= opening);
    assert(text.skip(opening.len() as int).take(literal.len() as int) =~= literal);
}

/// The text that a step's script works with is written into it as a JSON string literal,
/// right after the script's fixed opening: the clicked text, the scrolled selector, the value
/// to fill and the array of URLs to upload.
pub proof fn lemma_scripts_carry_their_text(
    action: ActionView,
    results: Map<Seq<char>, Seq<char>>,
    step: BrowserStepView,
)
    requires
        planned_step(action, results, step),
        plan_refusal(action, results) is None,
    ensures
        action matches ActionView::ClickText { text } ==> step matches
            BrowserStepView::Evaluate { script } && opens_with(
            script,
            "(() => { const wanted = "@,
            json_string_literal(text),
        ),
        action matches ActionView::Scroll { selector, .. } ==> step matches
            BrowserStepView::Evaluate { script } && opens_with(
            script,
            "document.querySelector("@,
            json_string_literal(selector),
        ),
        action matches ActionView::Fill { text, .. } ==> step matches
            BrowserStepView::CallFunction { function, .. } && opens_with(
            function,
            FILL_FUNCTION_HEAD@,
            json_string_literal(resolve_spec(text, results)->Ok_0),
        ),
        action matches ActionView::UploadFile { urls, .. } ==> step matches
            BrowserStepView::CallFunction { function, .. } && opens_with(
            function,
            "async function() { const urls = "@,
            json_string_array(urls),
        ),
{
    match action {
        ActionView::ClickText { text } => {
            lemma_opens_with(
                "(() => { const wanted = "@,
                json_string_literal(text),
                CLICK_TEXT_SCRIPT_TAIL@,
            );
        },
        ActionView::Scroll { selector, direction } => {
            let d = scroll_delta(direction);
            lemma_opens_with(
                "document.querySelector("@,
                json_string_literal(selector),
                ").scrollBy("@ + decimal_text(d.0) + ", "@ + decimal_text(d.1) + ")"@,
            );
            assert(scroll_script_spec(json_string_literal(selector), direction) =~= "document.querySelector("@
                + json_string_literal(selector) + (").scrollBy("@ + decimal_text(d.0) + ", "@
                + decimal_text(d.1) + ")"@));
        },
        ActionView::Fill { text, .. } => {
            lemma_opens_with(
                FILL_FUNCTION_HEAD@,
                json_string_literal(resolve_spec(text, results)->Ok_0),
                FILL_FUNCTION_TAIL@,
            );
        },
        ActionView::UploadFile { urls, .. } => {
            lemma_opens_with(
                "async function() { const urls = "@,
                json_string_array(urls),
                UPLOAD_FUNCTION_TAIL@,
            );
        },
        _ => {},
    }
}

/// A literal value is used as it is; a value taken from an earlier action is that action's
/// result; a value taken from a key that no action stored is refused as invalid input that
/// names the key.
pub proof fn lemma_values_come_from_results(
    value: ValueSourceView,
    results: Map<Seq<char>, Seq<char>>,
)
    ensures
        match value {
            ValueSourceView::Literal(v) => (resolve_spec(value, results) matches Ok(t) && t == v),
            ValueSourceView::FromAction(k) => if results.dom().contains(k) {
                (resolve_spec(value, results) matches Ok(t) && t == results[k])
            } else {
                (resolve_spec(value, results) matches Err(e) && e == error_of(
                    ErrorKind::InvalidInput,
                    "no result found for key '"@ + k + "'"@,
                ))
            },
        },
{
}

/// The results after an action: its value is kept under its result key when the action
/// has both a key and a value, and the results are unchanged otherwise.
pub open spec fn recorded(
    results: Map<Seq<char>, Seq<char>>,
    job_action: JobActionView,
    value: Option<Seq<char>>,
) -> Map<Seq<char>, Seq<char>> {
    match (job_action.result_key, value) {
        (Some(key), Some(v)) => results.insert(key, v),
        _ => results,
    }
}

impl ChromiumoxideScraper {
    /// The command-line arguments with which the browser is launched for `job`.
    pub fn launch_arguments(job: &Job) -> (args: Vec<String>)
        ensures
            texts(args@) == launch_arguments_spec(job@),
    {
        let mut args: Vec<String> = Vec::new();
        args.push("--no-sandbox".to_owned());
        args.push("--disable-gpu".to_owned());
        args.push("--disable-dev-shm-usage".to_owned());
        match job.config() {
            Some(config) => match &config.proxy {
                Some(proxy) => {
                    args.push(concat("--proxy-server=", proxy.as_str()));
                },
                None => {},
            },
            None => {},
        }
        assert(texts(args@) =~= launch_arguments_spec(job@));
        args
    }

    /// How long an action may run, in milliseconds.
    pub fn action_timeout_ms(job_action: &JobAction) -> (ms: u64)
        ensures
            ms == match job_action.timeout {
                Some(t) => t,
                None => DEFAULT_ACTION_TIMEOUT_MS,
            },
    {
        match job_action.timeout {
            Some(t) => t,
            None => DEFAULT_ACTION_TIMEOUT_MS,
        }
    }

    /// The text that a value source stands for: the literal itself, or the result stored
    /// under its key; a missing key is refused.
    pub fn resolve_value_source(value: &ValueSource, results: &ResultMap) -> (r: Result<
        String,
        Error,
    >)
        ensures
            match resolve_spec(value@, results@) {
                Ok(v) => r matches Ok(s) && s@ == v,
                Err(e) => r matches Err(err) && err@ == e,
            },
    {
        match value {
            ValueSource::Literal(v) => Ok(v.clone()),
            ValueSource::FromAction(key) => match results.get(key) {
                Some(v) => Ok(v.clone()),
                None => {
                    let head = concat("no result found for key '", key.as_str());
                    Err(Error::InvalidInput(concat(head.as_str(), "'")))
                },
            },
        }
    }

    /// The script that scrolls the element that `literal`, a JavaScript string literal, selects.
    pub fn scroll_script(literal: &str, direction: &ScrollDirection) -> (script: String)
        ensures
            script@ == scroll_script_spec(literal@, *direction),
    {
        let (dx, dy): (i64, i64) = match direction {
            ScrollDirection::Up => (0, -SCROLL_STEP_PX),
            ScrollDirection::Down => (0, SCROLL_STEP_PX),
            ScrollDirection::Left => (-SCROLL_STEP_PX, 0),
            ScrollDirection::Right => (SCROLL_STEP_PX, 0),
        };
        let s = concat("document.querySelector(", literal);
        let s = concat(s.as_str(), ").scrollBy(");
        let s = concat(s.as_str(), int_text(dx).as_str());
        let s = concat(s.as_str(), ", ");
        let s = concat(s.as_str(), int_text(dy).as_str());
        concat(s.as_str(), ")")
    }

    /// The script that scrolls the element that `selector` selects by one step. The selector is
    /// written as a JSON string, which is a properly escaped JavaScript string literal, so that
    /// it cannot inject code (see `lemma_json_escaped_round_trip`).
    pub fn build_scroll_script(selector: &str, direction: &ScrollDirection) -> (script: String)
        ensures
            script@ == scroll_script_spec(json_string_literal(selector@), *direction),
    {
        Self::scroll_script_from(json_quote(selector), direction)
    }

    /// The scroll script for the outcome of writing the selector as a JSON string: the
    /// written literal where there is one, else the empty literal.
    pub fn scroll_script_from(
        literal: Option<String>,
        direction: &ScrollDirection,
    ) -> (script: String)
        ensures
            script@ == match literal {
                Some(l) => scroll_script_spec(l@, *direction),
                None => scroll_script_spec("\"\""@, *direction),
            },
    {
        match literal {
            Some(literal) => Self::scroll_script(literal.as_str(), direction),
            None => Self::scroll_script("\"\"", direction),
        }
    }

    /// The JSON string literal of `text`.
    fn quoted(text: &str) -> (literal: String)
        ensures
            literal@ == json_string_literal(text@),
    {
        match json_quote(text) {
            Some(literal) => literal,
            None => String::new(),
        }
    }

    /// The JSON array of the strings `items`, each written as a JSON string literal.
    pub fn json_array(items: &Vec<String>) -> (text: String)
        ensures
            text@ == json_string_array(texts(items@)),
    {
        let mut body = String::new();
        let mut i: usize = 0;
        while i < items.len()
            invariant
                i <= items@.len(),
                body@ == json_list(texts(items@).take(i as int)),
            decreases items@.len() - i,
        {
            let literal = Self::quoted(items[i].as_str());
            let ghost taken = texts(items@).take(i + 1);
            assert(taken.drop_last() =~= texts(items@).take(i as int));
            assert(taken.last() == items@[i as int]@);
            if i == 0 {
                body = literal;
            } else {
                let with_comma = concat(body.as_str(), ",");
                body = concat(with_comma.as_str(), literal.as_str());
            }
            i = i + 1;
        }
        assert(texts(items@).take(items@.len() as int) =~= texts(items@));
        let opened = concat("[", body.as_str());
        concat(opened.as_str(), "]")
    }

    /// The script that clicks the element whose text is `text`; the text is written as a JSON
    /// string literal, so it stays data.
    pub fn click_text_script(text: &str) -> (script: String)
        ensures
            script@ == click_text_script_spec(json_string_literal(text@)),
    {
        let literal = Self::quoted(text);
        let head = concat("(() => { const wanted = ", literal.as_str());
        concat(head.as_str(), CLICK_TEXT_SCRIPT_TAIL)
    }

    /// The function that fills an input with `text`, written as a JSON string literal.
    pub fn fill_function(text: &str) -> (function: String)
        ensures
            function@ == fill_function_spec(json_string_literal(text@)),
    {
        let literal = Self::quoted(text);
        let head = concat(FILL_FUNCTION_HEAD, literal.as_str());
        concat(head.as_str(), FILL_FUNCTION_TAIL)
    }

    /// The function that sets the files downloaded from `urls` on a file input.
    pub fn upload_function(urls: &Vec<String>) -> (function: String)
        ensures
            function@ == upload_function_spec(json_string_array(texts(urls@))),
    {
        let array = Self::json_array(urls);
        let head = concat("async function() { const urls = ", array.as_str());
        concat(head.as_str(), UPLOAD_FUNCTION_TAIL)
    }

    /// What the browser is told to do for one action: values to type or fill are resolved
    /// against the results so far, and a scroll becomes a script.
    pub fn plan_action(job_action: &JobAction, results: &ResultMap) -> (r: Result<
        BrowserStep,
        Error,
    >)
        ensures
            r is Err <==> plan_refusal(job_action@.action, results@) is Some,
            r matches Err(e) ==> Some(e@) == plan_refusal(job_action@.action, results@),
            r matches Ok(step) ==> planned_step(job_action@.action, results@, step@),
    {
        match &job_action.action {
            Action::Navigate { url } => Ok(BrowserStep::Navigate { url: url.clone() }),
            Action::Wait { duration } => Ok(BrowserStep::Sleep { duration_ms: *duration }),
            Action::WaitForSelector { selector } => Ok(
                BrowserStep::WaitForSelector { selector: selector.clone() },
            ),
            Action::Click { selector } => Ok(BrowserStep::Click { selector: selector.clone() }),
            Action::ClickText { text } => Ok(
                BrowserStep::Evaluate { script: Self::click_text_script(text.as_str()) },
            ),
            Action::Type { selector, text } => {
                let value = Self::resolve_value_source(text, results)?;
                Ok(BrowserStep::Type { selector: selector.clone(), text: value })
            },
            Action::Fill { selector, text } => {
                let value = Self::resolve_value_source(text, results)?;
                Ok(
                    BrowserStep::CallFunction {
                        selector: selector.clone(),
                        function: Self::fill_function(value.as_str()),
                        await_promise: false,
                    },
                )
            },
            Action::UploadFile { selector, urls } => Ok(
                BrowserStep::CallFunction {
                    selector: selector.clone(),
                    function: Self::upload_function(urls),
                    await_promise: true,
                },
            ),
            Action::Scroll { selector, direction } => Ok(
                BrowserStep::Evaluate {
                    script: Self::build_scroll_script(selector.as_str(), direction),
                },
            ),
            Action::Extract { selector, attribute } => Ok(
                BrowserStep::Extract {
                    selector: selector.clone(),
                    attribute: clone_opt_string(attribute),
                },
            ),
            Action::ExtractUrl => Ok(BrowserStep::ExtractUrl),
        }
    }

    /// Keeps the value that an action produced under the action's result key.
    pub fn record_result(results: &mut ResultMap, job_action: &JobAction, value: Option<String>)
        ensures
            final(results)@ == recorded(old(results)@, job_action@, opt_text(value)),
    {
        match (&job_action.result_key, value) {
            (Some(key), Some(v)) => results.insert(key.clone(), v),
            _ => {},
        }
    }
}

/// How long an action may run, in milliseconds.
pub open spec fn timeout_spec(job_action: JobActionView) -> u64 {
    match job_action.timeout {
        Some(t) => t,
        None => DEFAULT_ACTION_TIMEOUT_MS,
    }
}

/// An action runs within its own time limit where it names one, and within thirty seconds
/// otherwise.
pub proof fn lemma_time_limits(job_action: JobActionView)
    ensures
        job_action.timeout matches Some(t) ==> timeout_spec(job_action) == t,
        job_action.timeout is None ==> timeout_spec(job_action) == 30000,
{
}

/// The results of a run whose first `values.len()` actions produced `values`, recorded
/// action by action.
pub open spec fn run_results(
    actions: Seq<JobActionView>,
    values: Seq<Option<Seq<char>>>,
) -> Map<Seq<char>, Seq<char>>
    decreases values.len(),
{
    if values.len() == 0 {
        Map::empty()
    } else {
        recorded(
            run_results(actions, values.drop_last()),
            actions[values.len() - 1],
            values.last(),
        )
    }
}

/// Whether the action produced a value that it keeps under `key`.
pub open spec fn writes_key(
    job_action: JobActionView,
    value: Option<Seq<char>>,
    key: Seq<char>,
) -> bool {
    job_action.result_key == Some(key) && value is Some
}

/// After a run, a key holds the value of the last action that wrote it, and a key that no
/// action wrote is absent: later results overwrite earlier ones.
pub proof fn lemma_run_results_last_write(
    actions: Seq<JobActionView>,
    values: Seq<Option<Seq<char>>>,
    key: Seq<char>,
)
    requires
        values.len() <= actions.len(),
    ensures
        forall|i: int|
            0 <= i < values.len() && writes_key(actions[i], values[i], key) && (forall|j: int|
                i < j < values.len() ==> !writes_key(actions[j], values[j], key)) ==> {
                &&& run_results(actions, values).dom().contains(key)
                &&& run_results(actions, values)[key] == values[i]->Some_0
            },
        (forall|i: int| 0 <= i < values.len() ==> !writes_key(actions[i], values[i], key))
            ==> !run_results(actions, values).dom().contains(key),
    decreases values.len(),
{
    if values.len() > 0 {
        let init = values.drop_last();
        let n = values.len() - 1;
        lemma_run_results_last_write(actions, init, key);
        assert forall|i: int|
            0 <= i < values.len() && writes_key(actions[i], values[i], key) && (forall|j: int|
                i < j < values.len() ==> !writes_key(actions[j], values[j], key)) implies {
            &&& run_results(actions, values).dom().contains(key)
            &&& run_results(actions, values)[key] == values[i]->Some_0
        } by {
            if i < n {
                assert(!writes_key(actions[n], values[n], key));
                assert(init[i] == values[i]);
                assert forall|j: int| i < j < init.len() implies !writes_key(
                    actions[j],
                    init[j],
                    key,
                ) by {
                    assert(init[j] == values[j]);
                }
            }
        }
        if forall|i: int| 0 <= i < values.len() ==> !writes_key(actions[i], values[i], key) {
            assert forall|i: int| 0 <= i < init.len() implies !writes_key(
                actions[i],
                init[i],
                key,
            ) by {
                assert(init[i] == values[i]);
            }
            assert(!writes_key(actions[n], values[n], key));
        }
    }
}

/// At every point of a run, each key holds the value of the last action so far that wrote it,
/// and a key that no action wrote is absent; once every action ran, this holds of the whole job.
pub proof fn lemma_run_keeps_last_writes(run: JobRunView, key: Seq<char>)
    requires
        run_consistent(run),
    ensures
        forall|i: int|
            0 <= i < run.next && writes_key(run.actions[i], run.produced[i], key) && (forall|j: int|
                i < j < run.next ==> !writes_key(run.actions[j], run.produced[j], key)) ==> {
                &&& run.results.dom().contains(key)
                &&& run.results[key] == run.produced[i]->Some_0
            },
        (forall|i: int| 0 <= i < run.next ==> !writes_key(run.actions[i], run.produced[i], key))
            ==> !run.results.dom().contains(key),
{
    lemma_run_results_last_write(run.actions, run.produced, key);
}

/// What a run of a job's actions asks for next.
#[derive(Debug)]
pub enum RunCommand {
    /// Perform the step within the time limit and report its outcome.
    Perform { timeout_ms: u64, step: BrowserStep },
    /// Every action ran; the results are the run's.
    Finished,
    /// The run stops with this error.
    Stopped(Error),
}

/// How a performed step ended.
#[derive(Debug)]
pub enum StepOutcome {
    Produced(Option<String>),
    Failed(Error),
    TimedOut,
}

/// The message with which an action that ran out of time stops the run.
pub open spec fn action_timed_out_message() -> Seq<char> {
    "action timed out"@
}

/// A run of a job's actions in order: each is planned against the results of the earlier
/// ones, and the value it produces is recorded.
pub struct JobRun {
    actions: Vec<JobAction>,
    next: usize,
    results: ResultMap,
    produced: Ghost<Seq<Option<Seq<char>>>>,
}

/// A run as a value: the actions, how many have run, what they produced, and the results.
pub struct JobRunView {
    pub actions: Seq<JobActionView>,
    pub next: nat,
    pub produced: Seq<Option<Seq<char>>>,
    pub results: Map<Seq<char>, Seq<char>>,
}

/// The results of a run are those that its actions' values give, recorded in order.
pub open spec fn run_consistent(run: JobRunView) -> bool {
    &&& run.next <= run.actions.len()
    &&& run.produced.len() == run.next
    &&& run.results == run_results(run.actions, run.produced)
}

impl View for JobRun {
    type V = JobRunView;

    closed spec fn view(&self) -> JobRunView {
        JobRunView {
            actions: actions_view(self.actions@),
            next: self.next as nat,
            produced: self.produced@,
            results: self.results@,
        }
    }
}

impl JobRun {
    #[verifier::type_invariant]
    spec fn consistent(&self) -> bool {
        run_consistent(self@)
    }

    /// A run with no actions.
    fn idle() -> (run: JobRun)
        ensures
            run@.actions.len() == 0,
    {
        let run = JobRun {
            actions: Vec::new(),
            next: 0,
            results: ResultMap::new(),
            produced: Ghost(Seq::empty()),
        };
        assert(run@.results =~= run_results(run@.actions, run@.produced));
        run
    }

    /// A run of the job's actions that has not started.
    pub fn new(job: &Job) -> (run: JobRun)
        ensures
            run@.actions == job@.actions,
            run@.next == 0,
            run@.produced == Seq::<Option<Seq<char>>>::empty(),
            run@.results == Map::<Seq<char>, Seq<char>>::empty(),
            run_consistent(run@),
    {
        let source = job.actions();
        let mut actions: Vec<JobAction> = Vec::new();
        let mut i: usize = 0;
        while i < source.len()
            invariant
                i <= source@.len(),
                actions@.len() == i,
                forall|j: int| 0 <= j < i ==> actions@[j]@ == source@[j]@,
            decreases source@.len() - i,
        {
            actions.push(source[i].clone());
            i = i + 1;
        }
        assert(actions_view(actions@) =~= actions_view(source@));
        let run = JobRun {
            actions,
            next: 0,
            results: ResultMap::new(),
            produced: Ghost(Seq::empty()),
        };
        assert(run@.results =~= run_results(run@.actions, run@.produced));
        run
    }

    /// What the run asks for next: the planned step of the next action with its time
    /// limit, the end of the run once every action ran, or a stop where the next action
    /// cannot be planned.
    pub fn next_command(&self) -> (command: RunCommand)
        ensures
            run_consistent(self@),
            self@.next >= self@.actions.len() ==> command is Finished,
            self@.next < self@.actions.len() ==> {
                let a = self@.actions[self@.next as int];
                match plan_refusal(a.action, self@.results) {
                    Some(e) => command matches RunCommand::Stopped(err) && err@ == e,
                    None => command matches RunCommand::Perform { timeout_ms, step }
                        && timeout_ms == timeout_spec(a) && planned_step(
                        a.action,
                        self@.results,
                        step@,
                    ),
                }
            },
    {
        proof {
            use_type_invariant(self);
        }
        if self.next >= self.actions.len() {
            return RunCommand::Finished;
        }
        let job_action = &self.actions[self.next];
        let timeout_ms = ChromiumoxideScraper::action_timeout_ms(job_action);
        match ChromiumoxideScraper::plan_action(job_action, &self.results) {
            Ok(step) => RunCommand::Perform { timeout_ms, step },
            Err(e) => RunCommand::Stopped(e),
        }
    }

    /// Takes the outcome of the step that `next_command` asked for: a produced value is
    /// recorded and the run moves on; a failure or a timeout stops the run with its error
    /// and leaves it unchanged.
    pub fn on_outcome(&mut self, outcome: StepOutcome) -> (stop: Option<Error>)
        ensures
            run_consistent(final(self)@),
            match outcome {
                StepOutcome::Produced(v) => stop is None && if old(self)@.next < old(
                    self,
                )@.actions.len() {
                    final(self)@ == (JobRunView {
                        next: old(self)@.next + 1,
                        produced: old(self)@.produced.push(opt_text(v)),
                        results: recorded(
                            old(self)@.results,
                            old(self)@.actions[old(self)@.next as int],
                            opt_text(v),
                        ),
                        ..old(self)@
                    })
                } else {
                    final(self)@ == old(self)@
                },
                StepOutcome::Failed(e) => final(self)@ == old(self)@ && (stop matches Some(err)
                    && err@ == e@),
                StepOutcome::TimedOut => final(self)@ == old(self)@ && (stop matches Some(err)
                    && err@ == error_of(ErrorKind::NetworkError, action_timed_out_message())),
            },
    {
        proof {
            use_type_invariant(&*self);
        }
        match outcome {
            StepOutcome::Produced(value) => {
                if self.next < self.actions.len() {
                    let mut taken = JobRun::idle();
                    std::mem::swap(self, &mut taken);
                    proof {
                        use_type_invariant(&taken);
                    }
                    let JobRun { actions, next, mut results, produced } = taken;
                    let ghost v = opt_text(value);
                    ChromiumoxideScraper::record_result(&mut results, &actions[next], value);
                    let ghost now_produced = produced@.push(v);
                    proof {
                        assert(now_produced.drop_last() =~= produced@);
                    }
                    *self = JobRun { actions, next: next + 1, results, produced: Ghost(now_produced) };
                }
                None
            },
            StepOutcome::Failed(error) => Some(error),
            StepOutcome::TimedOut => Some(Error::NetworkError("action timed out".to_owned())),
        }
    }

    /// The results recorded so far.
    pub fn into_results(self) -> (results: ResultMap)
        ensures
            results@ == self@.results,
            run_consistent(self@),
    {
        proof {
            use_type_invariant(&self);
        }
        self.results
    }
}

} // verus!
