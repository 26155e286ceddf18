//! The terminal progress observer of the command line program.

use vstd::prelude::*;
use crate::text::{extend_str, string_of};

verus! {

broadcast use vstd::string::group_string_axioms;

/// Reports backup progress on the terminal.
pub struct IndicatifProgressObserver;

impl IndicatifProgressObserver {
    /// A new observer.
    pub fn new() -> (observer: Self)
        ensures
            observer == IndicatifProgressObserver,
    {
        IndicatifProgressObserver
    }

    /// The line printed when the observed work finishes: a sparkle and the message.
    pub fn finish_line(&self, message: &str) -> (line: String)
        ensures
            line@ == seq!['\u{2728}', ' '] + message@,
    {
        let mut v: Vec<char> = Vec::new();
        v.push('\u{2728}');
        v.push(' ');
        extend_str(&mut v, message);
        string_of(v.as_slice())
    }
}

impl Default for IndicatifProgressObserver {
    fn default() -> (observer: Self)
        ensures
            observer == IndicatifProgressObserver,
    {
        Self::new()
    }
}

} // verus!
