//! The three protocols and what is fixed about each.

use crate::text::starts_with;
use vstd::prelude::*;

verus! {

/// A protocol that the engine can fetch from.
#[derive(Clone, Copy, Debug, PartialEq, Eq, Structural)]
pub enum Scheme {
    Gemini,
    Gopher,
    Finger,
}

/// The characters `://`.
pub open spec fn separator() -> Seq<char> {
    seq![':', '/', '/']
}

impl Scheme {
    /// The scheme as it is written in an address, without the colon.
    pub open spec fn spec_name(self) -> Seq<char> {
        match self {
            Scheme::Gemini => seq!['g', 'e', 'm', 'i', 'n', 'i'],
            Scheme::Gopher => seq!['g', 'o', 'p', 'h', 'e', 'r'],
            Scheme::Finger => seq!['f', 'i', 'n', 'g', 'e', 'r'],
        }
    }

    /// The scheme followed by `://`.
    pub open spec fn spec_prefix(self) -> Seq<char> {
        self.spec_name() + separator()
    }

    /// The port that a server of this protocol listens on unless the
    /// address says otherwise.
    pub open spec fn spec_port(self) -> u16 {
        match self {
            Scheme::Gemini => 1965,
            Scheme::Gopher => 70,
            Scheme::Finger => 79,
        }
    }

    /// The scheme as it is written in an address, without the colon.
    pub fn name(self) -> (r: &'static str)
        ensures
            r@ == self.spec_name(),
    {
        proof {
            reveal_strlit("gemini");
            reveal_strlit("gopher");
            reveal_strlit("finger");
        }
        match self {
            Scheme::Gemini => {
                assert("gemini"@ =~= self.spec_name());
                "gemini"
            },
            Scheme::Gopher => {
                assert("gopher"@ =~= self.spec_name());
                "gopher"
            },
            Scheme::Finger => {
                assert("finger"@ =~= self.spec_name());
                "finger"
            },
        }
    }

    /// The scheme followed by `://`.
    pub fn prefix(self) -> (r: &'static str)
        ensures
            r@ == self.spec_prefix(),
    {
        proof {
            reveal_strlit("gemini://");
            reveal_strlit("gopher://");
            reveal_strlit("finger://");
        }
        match self {
            Scheme::Gemini => {
                assert("gemini://"@ =~= self.spec_prefix());
                "gemini://"
            },
            Scheme::Gopher => {
                assert("gopher://"@ =~= self.spec_prefix());
                "gopher://"
            },
            Scheme::Finger => {
                assert("finger://"@ =~= self.spec_prefix());
                "finger://"
            },
        }
    }

    /// The port that a server of this protocol listens on unless the
    /// address says otherwise.
    pub fn port(self) -> (r: u16)
        ensures
            r == self.spec_port(),
    {
        match self {
            Scheme::Gemini => 1965,
            Scheme::Gopher => 70,
            Scheme::Finger => 79,
        }
    }

    /// The protocol whose name is `name`, if it is one of the three.
    pub open spec fn spec_named(name: Seq<char>) -> Option<Scheme> {
        if name == Scheme::Gemini.spec_name() {
            Some(Scheme::Gemini)
        } else if name == Scheme::Gopher.spec_name() {
            Some(Scheme::Gopher)
        } else if name == Scheme::Finger.spec_name() {
            Some(Scheme::Finger)
        } else {
            None
        }
    }

    /// The protocol whose name is `name`, if it is one of the three.
    pub fn named(name: &str) -> (r: Option<Scheme>)
        ensures
            r == Scheme::spec_named(name@),
    {
        if same(name, Scheme::Gemini.name()) {
            Some(Scheme::Gemini)
        } else if same(name, Scheme::Gopher.name()) {
            Some(Scheme::Gopher)
        } else if same(name, Scheme::Finger.name()) {
            Some(Scheme::Finger)
        } else {
            None
        }
    }
}

/// Whether two strings hold the same characters.
pub fn same(a: &str, b: &str) -> (r: bool)
    ensures
        r == (a@ == b@),
{
    let x = a.to_owned();
    let y = b.to_owned();
    x == y
}

/// The protocol and the reference that typed input stands for: input that
/// begins with the prefix of a protocol goes to that protocol unchanged,
/// anything else is taken as a Gemini address without its prefix.
pub open spec fn spec_route(input: Seq<char>) -> (Scheme, Seq<char>) {
    if Scheme::Gemini.spec_prefix().is_prefix_of(input) {
        (Scheme::Gemini, input)
    } else if Scheme::Gopher.spec_prefix().is_prefix_of(input) {
        (Scheme::Gopher, input)
    } else if Scheme::Finger.spec_prefix().is_prefix_of(input) {
        (Scheme::Finger, input)
    } else {
        (Scheme::Gemini, Scheme::Gemini.spec_prefix() + input)
    }
}

/// Picks the protocol for typed input, as [`spec_route`] says.
pub fn route_url(input: &str) -> (r: (Scheme, String))
    ensures
        (r.0, r.1@) == spec_route(input@),
{
    if starts_with(input, Scheme::Gemini.prefix()) {
        (Scheme::Gemini, input.to_owned())
    } else if starts_with(input, Scheme::Gopher.prefix()) {
        (Scheme::Gopher, input.to_owned())
    } else if starts_with(input, Scheme::Finger.prefix()) {
        (Scheme::Finger, input.to_owned())
    } else {
        let mut s = String::from_str(Scheme::Gemini.prefix());
        s.append(input);
        (Scheme::Gemini, s)
    }
}

} // verus!
