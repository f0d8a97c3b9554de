//! The record of a download command.

use crate::text::{decimal_digits, usize_to_string};
use vstd::prelude::*;
use vstd::string::StringExecFns;

verus! {

pub const WGET_PROGRAM: &'static str = "wget";

pub const WGET_ARG_RECURSIVE: &'static str = "-r";

pub const WGET_ARG_LEVEL: &'static str = "-l";

pub const WGET_ARG_OUTPUT: &'static str = "-O";

/// A download command: what was chosen for it so far, and what came back
/// when it last ran.
#[derive(Debug, PartialEq, Eq)]
pub struct Wget {
    pub url: String,
    /// How deep the download follows links; 0 for the one document.
    pub rec_level: usize,
    pub outfile: Option<String>,
    pub response: Option<String>,
}

/// A download command as a value.
pub struct WgetValue {
    pub url: Seq<char>,
    pub rec_level: usize,
    pub outfile: Option<Seq<char>>,
    pub response: Option<Seq<char>>,
}

impl View for Wget {
    type V = WgetValue;

    open spec fn view(&self) -> WgetValue {
        WgetValue {
            url: self.url@,
            rec_level: self.rec_level,
            outfile: self.outfile.deep_view(),
            response: self.response.deep_view(),
        }
    }
}

impl WgetValue {
    /// A download command for which nothing is chosen yet.
    pub open spec fn empty() -> WgetValue {
        WgetValue { url: Seq::empty(), rec_level: 0, outfile: None, response: None }
    }

    /// The arguments of the command: the recursion level if there is one,
    /// the output file, and the address last.
    pub open spec fn args(self) -> Seq<Seq<char>> {
        (if self.rec_level > 0 {
            seq![WGET_ARG_RECURSIVE@, WGET_ARG_LEVEL@, decimal_digits(self.rec_level as nat)]
        } else {
            Seq::empty()
        }) + (match self.outfile {
            Some(path) => seq![WGET_ARG_OUTPUT@, path],
            None => Seq::empty(),
        }) + seq![self.url]
    }
}

impl Clone for Wget {
    fn clone(&self) -> (r: Self)
        ensures
            r@ == self@,
    {
        Wget {
            url: self.url.clone(),
            rec_level: self.rec_level,
            outfile: self.outfile.clone(),
            response: self.response.clone(),
        }
    }
}

impl Wget {
    /// A download command for which nothing is chosen yet.
    pub fn new() -> (r: Self)
        ensures
            r@ == WgetValue::empty(),
    {
        Wget { url: String::new(), rec_level: 0, outfile: None, response: None }
    }

    pub fn set_url(&mut self, url: String)
        ensures
            final(self)@ == (WgetValue { url: url@, ..old(self)@ }),
    {
        self.url = url;
    }

    pub fn set_outfile(&mut self, path: &str)
        ensures
            final(self)@ == (WgetValue { outfile: Some(path@), ..old(self)@ }),
    {
        self.outfile = Some(String::from_str(path));
    }

    pub fn set_rec_download_level(&mut self, level: usize)
        ensures
            final(self)@ == (WgetValue { rec_level: level, ..old(self)@ }),
    {
        self.rec_level = level;
    }

    /// Records what came back from a run.
    pub fn set_response(&mut self, response: &str)
        ensures
            final(self)@ == (WgetValue { response: Some(response@), ..old(self)@ }),
    {
        self.response = Some(String::from_str(response));
    }

    /// What came back from the last run, if anything.
    pub fn get_response(&self) -> (r: Option<String>)
        ensures
            r.deep_view() == self@.response,
    {
        self.response.clone()
    }

    /// The arguments of the command.
    pub fn args(&self) -> (r: Vec<String>)
        ensures
            r.deep_view() == self@.args(),
    {
        let mut r: Vec<String> = Vec::new();
        if self.rec_level > 0 {
            r.push(String::from_str(WGET_ARG_RECURSIVE));
            r.push(String::from_str(WGET_ARG_LEVEL));
            r.push(usize_to_string(self.rec_level));
        }
        let ghost first = r.deep_view();
        assert(first =~= if self.rec_level > 0 {
            seq![WGET_ARG_RECURSIVE@, WGET_ARG_LEVEL@, decimal_digits(self.rec_level as nat)]
        } else {
            Seq::empty()
        });
        match &self.outfile {
            Some(path) => {
                r.push(String::from_str(WGET_ARG_OUTPUT));
                r.push(path.clone());
            },
            None => {},
        }
        assert(r.deep_view() =~= first + (match self@.outfile {
            Some(path) => seq![WGET_ARG_OUTPUT@, path],
            None => Seq::empty(),
        }));
        r.push(self.url.clone());
        assert(r.deep_view() =~= self@.args());
        r
    }
}

} // verus!
