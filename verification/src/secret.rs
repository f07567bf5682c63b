//! A newtype that redacts secrets in diagnostic output.
//!
//! By default, formatting a [`Secret`] yields `***` instead of the inner
//! value.  Whether secrets are shown is process-wide configuration, decided
//! once at startup and passed explicitly to the formatting functions as an
//! [`ExposeSecrets`] value; [`enable_expose`] switches it on (typically when
//! the user asked for it on the command line), and there is no way back.

use vstd::prelude::*;
use vstd::string::StringExecFns;

verus! {

/// Process-wide choice of whether secrets are shown in diagnostic output,
/// decided once at startup and passed explicitly to the formatting
/// functions.
#[derive(Debug, Clone, Copy, PartialEq, Eq, Structural)]
pub struct ExposeSecrets {
    /// True when secrets are rendered in the clear.
    pub exposed: bool,
}

impl ExposeSecrets {
    /// The default choice: secrets stay hidden.
    pub fn new() -> (r: Self)
        ensures
            !r.exposed,
    {
        ExposeSecrets { exposed: false }
    }
}

/// Enable secret exposure for diagnostic formatting.
///
/// Nothing in the crate turns the choice off again once it is enabled.
pub fn enable_expose(flags: &mut ExposeSecrets)
    ensures
        final(flags).exposed,
{
    flags.exposed = true;
}

/// A wrapper around `String` that redacts its value in diagnostic output
/// unless [`enable_expose`] has been called on the flags passed in.
///
/// Use [`Secret::expose`] when the raw value is needed regardless of the
/// flags (e.g. to send it over the wire).
pub struct Secret(String);

impl View for Secret {
    type V = Seq<char>;

    closed spec fn view(&self) -> Seq<char> {
        self.0@
    }
}

impl Secret {
    /// Create a new `Secret` from a `String`.
    pub fn new(value: String) -> (r: Self)
        ensures
            r@ == value@,
    {
        Secret(value)
    }

    /// Return the inner value, ignoring the expose flags.
    pub fn expose(&self) -> (r: &str)
        ensures
            r@ == self@,
    {
        self.0.as_str()
    }

    /// The debugging rendering: the value inside `Secret("...")` when
    /// exposure is enabled, `Secret(***)` otherwise.
    pub fn debug_string(&self, flags: &ExposeSecrets) -> (r: String)
        ensures
            flags.exposed ==> r@ == "Secret(\""@ + self@ + "\")"@,
            !flags.exposed ==> r@ == "Secret(***)"@,
    {
        if flags.exposed {
            let mut s = String::from_str("Secret(\"");
            s.append(self.0.as_str());
            s.append("\")");
            assert(s@ =~= "Secret(\""@ + self@ + "\")"@);
            s
        } else {
            String::from_str("Secret(***)")
        }
    }

    /// The display rendering: the value itself when exposure is enabled,
    /// `***` otherwise.
    pub fn display_string(&self, flags: &ExposeSecrets) -> (r: String)
        ensures
            flags.exposed ==> r@ == self@,
            !flags.exposed ==> r@ == "***"@,
    {
        if flags.exposed {
            self.0.clone()
        } else {
            String::from_str("***")
        }
    }
}

impl core::str::FromStr for Secret {
    type Err = core::convert::Infallible;

    fn from_str(s: &str) -> Result<Secret, Self::Err> {
        Ok(Secret(s.to_owned()))
    }
}

impl Clone for Secret {
    /// A clone holds the very same secret.
    fn clone(&self) -> (r: Self)
        ensures
            r@ == self@,
    {
        Secret(self.0.clone())
    }
}

} // verus!
