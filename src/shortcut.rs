use vstd::prelude::*;

use global_hotkey::hotkey::HotKey;
use std::str::FromStr;

verus! {

/// global-hotkey's parsed shortcut, carried through unread.
#[verifier::external_type_specification]
#[verifier::external_body]
pub struct ExHotKey(HotKey);

/// Whether a shortcut string is accepted by global-hotkey's parser.
pub uninterp spec fn shortcut_parses(s: Seq<char>) -> bool;

/// Relies on `HotKey::from_str` of global-hotkey: whether a string parses
/// depends on its characters alone.
#[verifier::external_body]
fn parse_hotkey(s: &str) -> (r: Option<HotKey>)
    ensures
        r is Some <==> shortcut_parses(s@),
{
    HotKey::from_str(s).ok()
}

/// Why a shortcut could not be registered.
#[derive(Clone, Copy, Debug, PartialEq, Eq, Structural)]
pub enum ShortcutError {
    /// The shortcut string is malformed.
    InvalidShortcutSpec,
}

impl ShortcutError {
    pub fn message(&self) -> (r: &'static str)
        ensures
            r@ == "Invalid shortcut format"@,
    {
        proof {
            reveal_strlit("Invalid shortcut format");
        }
        match self {
            ShortcutError::InvalidShortcutSpec => "Invalid shortcut format",
        }
    }
}

/// The outcome of registering the shortcut written `spec`.
pub open spec fn registration_outcome(spec: Seq<char>) -> Result<(), ShortcutError> {
    if shortcut_parses(spec) {
        Ok(())
    } else {
        Err(ShortcutError::InvalidShortcutSpec)
    }
}

/// The one global shortcut bound to the overlay trigger, if any.
pub struct ShortcutRegistry {
    pub active: Option<HotKey>,
}

impl ShortcutRegistry {
    pub fn new() -> (r: ShortcutRegistry)
        ensures
            r.active is None,
    {
        ShortcutRegistry { active: None }
    }

    /// Replaces the shortcut bound so far with `parsed`; nothing stays bound
    /// when `parsed` is `None`.
    pub fn bind(&mut self, parsed: Option<HotKey>) -> (r: Result<(), ShortcutError>)
        ensures
            final(self).active == parsed,
            r == (if parsed is Some {
                Ok::<(), ShortcutError>(())
            } else {
                Err(ShortcutError::InvalidShortcutSpec)
            }),
    {
        let r = match parsed {
            Some(_) => Ok(()),
            None => Err(ShortcutError::InvalidShortcutSpec),
        };
        self.active = parsed;
        r
    }

    /// Drops the shortcut bound so far and binds the one written `spec`;
    /// a malformed `spec` leaves nothing bound.
    pub fn register(&mut self, spec: &str) -> (r: Result<(), ShortcutError>)
        ensures
            r == registration_outcome(spec@),
            final(self).active is Some <==> r is Ok,
    {
        let parsed = parse_hotkey(spec);
        self.bind(parsed)
    }
}

/// A failed registration leaves nothing behind that decides a later one: the
/// outcome depends on the shortcut string alone, so a valid string registers
/// after an invalid one.
pub proof fn lemma_failure_not_latched(bad: Seq<char>, good: Seq<char>)
    requires
        !shortcut_parses(bad),
        shortcut_parses(good),
    ensures
        registration_outcome(bad) == Err::<(), ShortcutError>(ShortcutError::InvalidShortcutSpec),
        registration_outcome(good) == Ok::<(), ShortcutError>(()),
{
}

} // verus!
