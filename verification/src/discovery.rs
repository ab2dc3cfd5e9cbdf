//! Finding the interpreters that are installed.
//!
//! Interpreters are looked for under a fixed list of names, in a fixed
//! order. Running an interpreter is the caller's part, so a search proceeds
//! in steps: [`Discovery::candidate`] names the executable to run next with
//! [`INTROSPECTION_SCRIPT`], and the outcome of that run is handed back to
//! [`Discovery::advance`] or to [`find_interpreter_matching`]. A candidate
//! that cannot be run, or whose output cannot be read, is passed over without
//! a word, and the search goes on with the next one.

use vstd::prelude::*;

use crate::config::{InterpreterConfig, InterpreterConfigView};
use crate::error::{result_view, Error, ErrorView};
use crate::parser::{parse_config, parsed};
use crate::runner::{printed, script_output, RunOutcome, RunOutcomeView, INTROSPECTION_SCRIPT};

verus! {

/// The names under which interpreters are looked for, in order of
/// preference.
pub open spec fn candidates() -> Seq<Seq<char>> {
    seq!["python"@, "python3"@]
}

/// What asking `interpreter` gave, when `outcome` is what came of running
/// the introspection script with it.
pub open spec fn introspected(interpreter: Seq<char>, outcome: RunOutcomeView) -> Result<
    InterpreterConfigView,
    ErrorView,
> {
    match printed(interpreter, INTROSPECTION_SCRIPT@, outcome) {
        Ok(text) => parsed(text),
        Err(error) => Err(error),
    }
}

/// Extracts the configuration of `interpreter` from the outcome of running
/// [`INTROSPECTION_SCRIPT`] with it. Every error is handed to the caller.
pub fn get_config_from_interpreter(interpreter: &str, outcome: RunOutcome) -> (config: Result<
    InterpreterConfig,
    Error,
>)
    ensures
        result_view(config) == introspected(interpreter@, outcome@),
{
    match script_output(interpreter, INTROSPECTION_SCRIPT, outcome) {
        Ok(output) => parse_config(output.as_str()),
        Err(error) => Err(error),
    }
}

/// A search for interpreters: one pass over the candidates.
#[derive(Debug, Clone, PartialEq, Eq)]
pub struct Discovery {
    /// How many candidates the search has behind it.
    done: usize,
}

impl Discovery {
    /// How many candidates the search has behind it: those whose outcome was
    /// taken, and those that a match has cut off.
    pub closed spec fn position(&self) -> nat {
        self.done as nat
    }

    /// The candidate whose outcome the search waits for, if there is one
    /// left.
    pub open spec fn pending(&self) -> Option<Seq<char>> {
        if self.position() < candidates().len() {
            Some(candidates()[self.position() as int])
        } else {
            None
        }
    }

    /// The executable to run next, or `None` when the search is over.
    pub fn candidate(&self) -> (name: Option<&'static str>)
        ensures
            match name {
                Some(name) => self.pending() == Some(name@),
                None => self.pending() is None,
            },
    {
        if self.done == 0 {
            Some("python")
        } else if self.done == 1 {
            Some("python3")
        } else {
            None
        }
    }

    /// Takes the outcome of running the pending candidate and moves on to
    /// the next one. Gives the candidate's configuration, or `None` if it has
    /// none to give. Without a pending candidate nothing happens.
    pub fn advance(&mut self, outcome: RunOutcome) -> (found: Option<InterpreterConfig>)
        ensures
            match old(self).pending() {
                Some(name) => {
                    &&& final(self).position() == old(self).position() + 1
                    &&& match found {
                        Some(config) => introspected(name, outcome@) == Ok::<
                            InterpreterConfigView,
                            ErrorView,
                        >(config@),
                        None => introspected(name, outcome@) is Err,
                    }
                },
                None => *final(self) == *old(self) && found is None,
            },
    {
        match self.candidate() {
            Some(name) => {
                self.done = self.done + 1;
                match get_config_from_interpreter(name, outcome) {
                    Ok(config) => Some(config),
                    Err(_) => None,
                }
            },
            None => None,
        }
    }

    /// Ends the search: no candidate is pending any more.
    pub fn finish(&mut self)
        ensures
            final(self).pending() is None,
            final(self).position() == if old(self).pending() is Some {
                candidates().len()
            } else {
                old(self).position()
            },
    {
        if self.done < 2 {
            self.done = 2;
        }
    }
}

/// Starts a search for interpreters at the first candidate.
///
/// The search yields the interpreters in the order of [`candidates`]: run
/// each [`Discovery::candidate`] and hand the outcome to
/// [`Discovery::advance`] until no candidate is pending. Each call starts a
/// search of its own; nothing is remembered from one to the next.
pub fn find_interpreters() -> (search: Discovery)
    ensures
        search.position() == 0,
        search.pending() == Some(candidates()[0]),
{
    Discovery { done: 0 }
}

/// One step of the search for the first interpreter that `matches`.
///
/// Takes the outcome of running the pending candidate. If the candidate has
/// a configuration and `matches` holds of it, that configuration is the
/// result and the search is over: no candidate is pending after it, so none
/// is run in vain. Otherwise the result is `None` and the search moves on to
/// the next candidate; a candidate that failed counts as one that does not
/// match.
pub fn find_interpreter_matching<F>(search: &mut Discovery, outcome: RunOutcome, mut matches: F) -> (found:
    Option<InterpreterConfig>) where F: FnMut(&InterpreterConfig) -> bool
    requires
        forall|config: &InterpreterConfig| #[trigger] matches.requires((config,)),
    ensures
        match found {
            Some(config) => {
                &&& old(search).pending() matches Some(name)
                &&& introspected(name, outcome@) == Ok::<InterpreterConfigView, ErrorView>(config@)
                &&& matches.ensures((&config,), true)
                &&& final(search).pending() is None
                &&& final(search).position() == candidates().len()
            },
            None => match old(search).pending() {
                Some(name) => {
                    &&& final(search).position() == old(search).position() + 1
                    &&& match introspected(name, outcome@) {
                        Ok(view) => exists|config: InterpreterConfig|
                            config@ == view && #[trigger] matches.ensures((&config,), false),
                        Err(_) => true,
                    }
                },
                None => *final(search) == *old(search),
            },
        },
{
    match search.advance(outcome) {
        Some(config) => {
            if matches(&config) {
                search.finish();
                Some(config)
            } else {
                None
            }
        },
        None => None,
    }
}

} // verus!
