use vstd::prelude::*;
use crate::job_action::{opt_text, clone_opt_string};

verus! {

/// A cookie that the browser is given before a job's actions run.
#[derive(Debug)]
pub struct Cookie {
    pub name: String,
    pub value: String,
    pub domain: Option<String>,
    pub path: Option<String>,
    pub secure: Option<bool>,
}

/// Browser settings of a job.
#[derive(Debug)]
pub struct JobConfig {
    pub cookies: Option<Vec<Cookie>>,
    pub user_agent: Option<String>,
    pub proxy: Option<String>,
}

pub struct CookieView {
    pub name: Seq<char>,
    pub value: Seq<char>,
    pub domain: Option<Seq<char>>,
    pub path: Option<Seq<char>>,
    pub secure: Option<bool>,
}

pub struct JobConfigView {
    pub cookies: Option<Seq<CookieView>>,
    pub user_agent: Option<Seq<char>>,
    pub proxy: Option<Seq<char>>,
}

impl View for Cookie {
    type V = CookieView;

    open spec fn view(&self) -> CookieView {
        CookieView {
            name: self.name@,
            value: self.value@,
            domain: opt_text(self.domain),
            path: opt_text(self.path),
            secure: self.secure,
        }
    }
}

/// The views of a list of cookies.
pub open spec fn cookies_view(cookies: Seq<Cookie>) -> Seq<CookieView> {
    cookies.map_values(|c: Cookie| c@)
}

impl View for JobConfig {
    type V = JobConfigView;

    open spec fn view(&self) -> JobConfigView {
        JobConfigView {
            cookies: match self.cookies {
                Some(c) => Some(cookies_view(c@)),
                None => None,
            },
            user_agent: opt_text(self.user_agent),
            proxy: opt_text(self.proxy),
        }
    }
}

/// The view of an optional configuration.
pub open spec fn opt_config(config: Option<JobConfig>) -> Option<JobConfigView> {
    match config {
        Some(c) => Some(c@),
        None => None,
    }
}

impl Clone for Cookie {
    fn clone(&self) -> (r: Self)
        ensures
            r@ == self@,
    {
        Cookie {
            name: self.name.clone(),
            value: self.value.clone(),
            domain: clone_opt_string(&self.domain),
            path: clone_opt_string(&self.path),
            secure: self.secure,
        }
    }
}

/// A copy of a list of cookies.
pub fn clone_cookies(v: &Vec<Cookie>) -> (r: Vec<Cookie>)
    ensures
        cookies_view(r@) == cookies_view(v@),
{
    let mut r: Vec<Cookie> = Vec::new();
    let mut i: usize = 0;
    while i < v.len()
        invariant
            i <= v@.len(),
            r@.len() == i,
            forall|j: int| 0 <= j < i ==> r@[j]@ == v@[j]@,
        decreases v@.len() - i,
    {
        r.push(v[i].clone());
        i = i + 1;
    }
    assert(cookies_view(r@) =~= cookies_view(v@));
    r
}

impl Clone for JobConfig {
    fn clone(&self) -> (r: Self)
        ensures
            r@ == self@,
    {
        JobConfig {
            cookies: match &self.cookies {
                Some(c) => Some(clone_cookies(c)),
                None => None,
            },
            user_agent: clone_opt_string(&self.user_agent),
            proxy: clone_opt_string(&self.proxy),
        }
    }
}

} // verus!
