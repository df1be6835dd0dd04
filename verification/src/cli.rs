//! Command-line options of the compiler front end: the input file, an
//! optional output path, and an optional optimization level.

use vstd::prelude::*;

use crate::token;

verus! {

#[derive(Debug)]
pub struct Opt {
    file: String,
    outfile: Option<String>,
    opt_level: Option<OptLevel>,
}

impl Opt {
    pub closed spec fn spec_file(&self) -> Seq<char> {
        self.file@
    }

    pub closed spec fn spec_outfile(&self) -> Option<Seq<char>> {
        match self.outfile {
            Some(ref s) => Some(s@),
            None => None,
        }
    }

    pub closed spec fn spec_opt_level(&self) -> Option<OptLevel> {
        self.opt_level
    }

    pub fn new(file: String, outfile: Option<String>, opt_level: Option<OptLevel>) -> (r: Self)
        ensures
            r.spec_file() == file@,
            r.spec_opt_level() == opt_level,
    {
        Self { file, outfile, opt_level }
    }

    /// The input file to be compiled.
    pub fn file(&self) -> (r: &str)
        ensures
            r@ == self.spec_file(),
    {
        self.file.as_str()
    }

    /// The requested optimization level; the highest level is the default.
    pub fn opt_level(&self) -> (r: OptLevel)
        ensures
            r == match self.spec_opt_level() {
                Some(level) => level,
                None => OptLevel::O3,
            },
    {
        if let Some(level) = &self.opt_level {
            *level
        } else {
            OptLevel::O3
        }
    }
}

#[derive(Debug, Clone, Copy, PartialEq, Eq, Structural)]
pub enum OptLevel {
    O0,
    O1,
    O2,
    O3,
    OS,
    OZ,
}

/// The optimization level named by one command-line argument.
pub open spec fn spec_opt_level_of(s: Seq<char>) -> Option<OptLevel> {
    if s == "0"@ {
        Some(OptLevel::O0)
    } else if s == "1"@ {
        Some(OptLevel::O1)
    } else if s == "2"@ {
        Some(OptLevel::O2)
    } else if s == "3"@ {
        Some(OptLevel::O3)
    } else if s == "s"@ {
        Some(OptLevel::OS)
    } else if s == "z"@ {
        Some(OptLevel::OZ)
    } else {
        None
    }
}

impl OptLevel {
    /// Reads an optimization level from its command-line spelling.
    pub fn from_arg(s: &str) -> (r: Option<OptLevel>)
        ensures
            r == spec_opt_level_of(s@),
    {
        if token::str_eq(s, "0") {
            Some(OptLevel::O0)
        } else if token::str_eq(s, "1") {
            Some(OptLevel::O1)
        } else if token::str_eq(s, "2") {
            Some(OptLevel::O2)
        } else if token::str_eq(s, "3") {
            Some(OptLevel::O3)
        } else if token::str_eq(s, "s") {
            Some(OptLevel::OS)
        } else if token::str_eq(s, "z") {
            Some(OptLevel::OZ)
        } else {
            None
        }
    }
}

impl core::str::FromStr for OptLevel {
    type Err = String;

    fn from_str(s: &str) -> Result<OptLevel, String> {
        match OptLevel::from_arg(s) {
            Some(level) => Ok(level),
            None => Err("cannot parse optimization level".to_owned()),
        }
    }
}

} // verus!
