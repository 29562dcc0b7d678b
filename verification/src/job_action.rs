use vstd::prelude::*;

verus! {

/// A value that a browser action types or fills in: given literally, or taken
/// from the result that an earlier action stored under a key.
#[derive(Debug)]
pub enum ValueSource {
    Literal(String),
    FromAction(String),
}

/// Which way a `Scroll` action moves its element.
#[derive(PartialEq, Eq, Structural, Clone, Copy, Debug)]
pub enum ScrollDirection {
    Up,
    Down,
    Left,
    Right,
}

/// One browser operation of a job.
#[allow(inconsistent_fields)]
#[derive(Debug)]
pub enum Action {
    Navigate { url: String },
    Wait { duration: u64 },
    WaitForSelector { selector: String },
    Click { selector: String },
    /// Clicks the visible, enabled element whose exact trimmed text content
    /// matches `text`; for custom-element or shadow-DOM pages where no stable
    /// CSS selector exists for individual options or buttons.
    ClickText { text: String },
    Type { selector: String, text: ValueSource },
    /// Replaces a native input's or textarea's value directly, instead of
    /// appending keystrokes like `Type`, so that pre-filled content is overwritten.
    Fill { selector: String, text: ValueSource },
    /// Sets the given file input's files, downloading each of `urls` first.
    UploadFile { selector: String, urls: Vec<String> },
    Scroll { selector: String, direction: ScrollDirection },
    Extract { selector: String, attribute: Option<String> },
    /// Captures the page's current URL, e.g. the URL a form submission redirected to.
    ExtractUrl,
}

/// An action, the key under which its result is kept, and its time limit in milliseconds.
#[derive(Debug)]
pub struct JobAction {
    pub action: Action,
    pub result_key: Option<String>,
    pub timeout: Option<u64>,
}

pub enum ValueSourceView {
    Literal(Seq<char>),
    FromAction(Seq<char>),
}

#[allow(inconsistent_fields)]
pub enum ActionView {
    Navigate { url: Seq<char> },
    Wait { duration: u64 },
    WaitForSelector { selector: Seq<char> },
    Click { selector: Seq<char> },
    ClickText { text: Seq<char> },
    Type { selector: Seq<char>, text: ValueSourceView },
    Fill { selector: Seq<char>, text: ValueSourceView },
    UploadFile { selector: Seq<char>, urls: Seq<Seq<char>> },
    Scroll { selector: Seq<char>, direction: ScrollDirection },
    Extract { selector: Seq<char>, attribute: Option<Seq<char>> },
    ExtractUrl,
}

pub struct JobActionView {
    pub action: ActionView,
    pub result_key: Option<Seq<char>>,
    pub timeout: Option<u64>,
}

/// The text of an optional string.
pub open spec fn opt_text(s: Option<String>) -> Option<Seq<char>> {
    match s {
        Some(s) => Some(s@),
        None => None,
    }
}

/// The texts of a list of strings.
pub open spec fn texts(v: Seq<String>) -> Seq<Seq<char>> {
    v.map_values(|s: String| s@)
}

impl View for ValueSource {
    type V = ValueSourceView;

    open spec fn view(&self) -> ValueSourceView {
        match self {
            ValueSource::Literal(s) => ValueSourceView::Literal(s@),
            ValueSource::FromAction(s) => ValueSourceView::FromAction(s@),
        }
    }
}

impl View for Action {
    type V = ActionView;

    open spec fn view(&self) -> ActionView {
        match self {
            Action::Navigate { url } => ActionView::Navigate { url: url@ },
            Action::Wait { duration } => ActionView::Wait { duration: *duration },
            Action::WaitForSelector { selector } => ActionView::WaitForSelector {
                selector: selector@,
            },
            Action::Click { selector } => ActionView::Click { selector: selector@ },
            Action::ClickText { text } => ActionView::ClickText { text: text@ },
            Action::Type { selector, text } => ActionView::Type {
                selector: selector@,
                text: text@,
            },
            Action::Fill { selector, text } => ActionView::Fill {
                selector: selector@,
                text: text@,
            },
            Action::UploadFile { selector, urls } => ActionView::UploadFile {
                selector: selector@,
                urls: texts(urls@),
            },
            Action::Scroll { selector, direction } => ActionView::Scroll {
                selector: selector@,
                direction: *direction,
            },
            Action::Extract { selector, attribute } => ActionView::Extract {
                selector: selector@,
                attribute: opt_text(*attribute),
            },
            Action::ExtractUrl => ActionView::ExtractUrl,
        }
    }
}

impl View for JobAction {
    type V = JobActionView;

    open spec fn view(&self) -> JobActionView {
        JobActionView {
            action: self.action@,
            result_key: opt_text(self.result_key),
            timeout: self.timeout,
        }
    }
}

/// The views of a list of job actions.
pub open spec fn actions_view(actions: Seq<JobAction>) -> Seq<JobActionView> {
    actions.map_values(|a: JobAction| a@)
}

/// A copy of an optional string.
pub fn clone_opt_string(s: &Option<String>) -> (r: Option<String>)
    ensures
        opt_text(r) == opt_text(*s),
{
    match s {
        Some(s) => Some(s.clone()),
        None => None,
    }
}

/// A copy of a list of strings.
pub fn clone_strings(v: &Vec<String>) -> (r: Vec<String>)
    ensures
        texts(r@) == texts(v@),
{
    let mut r: Vec<String> = Vec::new();
    let mut i: usize = 0;
    while i < v.len()
        invariant
            i <= v@.len(),
            r@.len() == i,
            forall|j: int| 0 <= j < i ==> r@[j]@ == v@[j]@,
        decreases v@.len() - i,
    {
        r.push(v[i].clone());
        i = i + 1;
    }
    assert(texts(r@) =~= texts(v@));
    r
}

impl Clone for ValueSource {
    fn clone(&self) -> (r: Self)
        ensures
            r@ == self@,
    {
        match self {
            ValueSource::Literal(s) => ValueSource::Literal(s.clone()),
            ValueSource::FromAction(s) => ValueSource::FromAction(s.clone()),
        }
    }
}

impl Clone for Action {
    fn clone(&self) -> (r: Self)
        ensures
            r@ == self@,
    {
        match self {
            Action::Navigate { url } => Action::Navigate { url: url.clone() },
            Action::Wait { duration } => Action::Wait { duration: *duration },
            Action::WaitForSelector { selector } => Action::WaitForSelector {
                selector: selector.clone(),
            },
            Action::Click { selector } => Action::Click { selector: selector.clone() },
            Action::ClickText { text } => Action::ClickText { text: text.clone() },
            Action::Type { selector, text } => Action::Type {
                selector: selector.clone(),
                text: text.clone(),
            },
            Action::Fill { selector, text } => Action::Fill {
                selector: selector.clone(),
                text: text.clone(),
            },
            Action::UploadFile { selector, urls } => Action::UploadFile {
                selector: selector.clone(),
                urls: clone_strings(urls),
            },
            Action::Scroll { selector, direction } => Action::Scroll {
                selector: selector.clone(),
                direction: *direction,
            },
            Action::Extract { selector, attribute } => Action::Extract {
                selector: selector.clone(),
                attribute: clone_opt_string(attribute),
            },
            Action::ExtractUrl => Action::ExtractUrl,
        }
    }
}

impl Clone for JobAction {
    fn clone(&self) -> (r: Self)
        ensures
            r@ == self@,
    {
        JobAction {
            action: self.action.clone(),
            result_key: clone_opt_string(&self.result_key),
            timeout: self.timeout,
        }
    }
}

} // verus!
