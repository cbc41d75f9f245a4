//! Tasks of the task crawler: a page to fetch and the script to run on it.
use vstd::prelude::*;
use vstd::string::*;
use crate::failure::{Error, ErrorKind, Result};
use crate::identity::{fresh_id, is_random_uuid};

verus! {

/// The absolute URL that `url::Url::parse` reads from `text`, as
/// `url::Url::as_str` writes it; `None` where the text is refused.
pub uninterp spec fn parsed_url(text: Seq<char>) -> Option<Seq<char>>;

/// Parses `text` with `url::Url::parse` and gives the URL back as the text
/// that `url::Url::as_str` writes, or the error of the parser.
#[verifier::external_body]
fn parse_url(text: &str) -> (r: std::result::Result<String, url::ParseError>)
    ensures
        match r {
            Ok(s) => parsed_url(text@) == Some(s@),
            Err(_) => parsed_url(text@) is None,
        },
{
    match url::Url::parse(text) {
        Ok(u) => Ok(u.as_str().to_string()),
        Err(e) => Err(e),
    }
}

/// What is to be done with a fetched page.
#[derive(Debug, PartialEq, Eq)]
pub enum Work {
    /// Run the script at this path.
    Path(String),
}

impl Work {
    /// The work of running the script at `path`.
    pub fn path(path: &str) -> (r: Work)
        ensures
            r matches Work::Path(p) && p@ == path@,
    {
        Work::Path(String::from_str(path))
    }
}

impl Clone for Work {
    fn clone(&self) -> (r: Work)
        ensures
            r == *self,
    {
        match self {
            Work::Path(p) => Work::Path(p.clone()),
        }
    }
}

/// A page to fetch, the work to do on it, and the directory that the work
/// is relative to.
#[derive(Debug, PartialEq, Eq)]
pub struct Task {
    pub id: u128,
    pub url: String,
    pub work: Work,
    pub root: String,
}

impl Task {
    /// A task with a fresh identity for the page at `url`. A text that is
    /// no absolute URL is refused with the error of the parser.
    pub fn new(root: &str, url: &str, work: Work) -> (r: Result<Task>)
        ensures
            match r {
                Ok(task) => parsed_url(url@) == Some(task.url@) && task.root@ == root@ && task.work
                    == work && is_random_uuid(task.id),
                Err(e) => parsed_url(url@) is None && e.kind is Url,
            },
    {
        let url = match parse_url(url) {
            Ok(u) => u,
            Err(e) => {
                return Err(Error::new(ErrorKind::Url(e)));
            },
        };
        let id = fresh_id();
        Ok(Task { work, url, id, root: String::from_str(root) })
    }

    pub fn url(&self) -> (r: &str)
        ensures
            r@ == self.url@,
    {
        self.url.as_str()
    }

    /// Points the task at the page at `url`; a text that is no absolute URL
    /// leaves the task as it is.
    pub fn set_url(&mut self, url: &str) -> (r: bool)
        ensures
            r == parsed_url(url@) is Some,
            r ==> parsed_url(url@) == Some(final(self).url@),
            !r ==> final(self).url == old(self).url,
            final(self).id == old(self).id,
            final(self).work == old(self).work,
            final(self).root == old(self).root,
    {
        match parse_url(url) {
            Ok(u) => {
                self.url = u;
                true
            },
            Err(_) => false,
        }
    }

    pub fn work(&self) -> (r: &Work)
        ensures
            *r == self.work,
    {
        &self.work
    }

    pub fn set_work(&mut self, work: Work) -> (r: &mut Self)
        ensures
            *r == (Task { work, ..*old(self) }),
            *final(self) == *final(r),
    {
        self.work = work;
        self
    }

    pub fn id(&self) -> (r: u128)
        ensures
            r == self.id,
    {
        self.id
    }

    pub fn set_root(&mut self, root: String) -> (r: &mut Self)
        ensures
            *r == (Task { root, ..*old(self) }),
            *final(self) == *final(r),
    {
        self.root = root;
        self
    }

    pub fn root(&self) -> (r: &str)
        ensures
            r@ == self.root@,
    {
        self.root.as_str()
    }

    /// The task together with the page that was fetched for it.
    pub fn into_parse_task(self, html: &str) -> (r: ParseTask)
        ensures
            r.id == self.id,
            r.url == self.url,
            r.work == self.work,
            r.root == self.root,
            r.html@ == html@,
    {
        ParseTask {
            id: self.id,
            url: self.url,
            html: String::from_str(html),
            work: self.work,
            root: self.root,
        }
    }
}

impl Clone for Task {
    fn clone(&self) -> (r: Task)
        ensures
            r == *self,
    {
        Task {
            id: self.id,
            url: self.url.clone(),
            work: self.work.clone(),
            root: self.root.clone(),
        }
    }
}

/// A task and the page that was fetched for it.
#[derive(Debug, PartialEq, Eq)]
pub struct ParseTask {
    pub id: u128,
    pub url: String,
    pub html: String,
    pub work: Work,
    pub root: String,
}

} // verus!
