//! What the application remembers about its user.

use vstd::prelude::*;

verus! {

#[derive(Clone, Copy, Debug, PartialEq, Eq, Structural)]
pub struct Preferences {
    /// Whether the one-time warning about clipboard histories was accepted. It
    /// is never taken back.
    pub clipboard_warning_acknowledged: bool,
}

impl Default for Preferences {
    /// Nothing is acknowledged yet.
    fn default() -> (p: Preferences)
        ensures
            !p.clipboard_warning_acknowledged,
    {
        Preferences { clipboard_warning_acknowledged: false }
    }
}

/// What happens when the user asks to copy a passphrase.
#[derive(Clone, Copy, Debug, PartialEq, Eq, Structural)]
pub enum CopyRoute {
    /// Copy and arm the guard.
    Copy,
    /// Hold the passphrase back and show the warning first.
    Warn,
}

/// The warning comes up until it was acknowledged.
pub fn route_copy(prefs: &Preferences) -> (r: CopyRoute)
    ensures
        r == CopyRoute::Copy <==> prefs.clipboard_warning_acknowledged,
{
    if prefs.clipboard_warning_acknowledged {
        CopyRoute::Copy
    } else {
        CopyRoute::Warn
    }
}

/// How the warning was answered.
#[derive(Clone, Copy, Debug, PartialEq, Eq, Structural)]
pub enum WarningAnswer {
    Acknowledged,
    Cancelled,
    /// The dialog stays open.
    Open,
}

/// What follows from the answer to the warning: the new preferences, whether
/// they are to be saved, whether the held-back passphrase is copied, and
/// whether the dialog closes.
pub struct WarningOutcome {
    pub prefs: Preferences,
    pub save: bool,
    pub copy: bool,
    pub close: bool,
}

/// Acts on the answer to the clipboard warning.
pub fn answer_clipboard_warning(prefs: Preferences, answer: WarningAnswer) -> (o: WarningOutcome)
    ensures
        o.copy == (answer == WarningAnswer::Acknowledged),
        o.save == (answer == WarningAnswer::Acknowledged),
        o.close == (answer != WarningAnswer::Open),
        o.prefs.clipboard_warning_acknowledged == (prefs.clipboard_warning_acknowledged || answer
            == WarningAnswer::Acknowledged),
{
    match answer {
        WarningAnswer::Acknowledged => WarningOutcome {
            prefs: Preferences { clipboard_warning_acknowledged: true },
            save: true,
            copy: true,
            close: true,
        },
        WarningAnswer::Cancelled => WarningOutcome { prefs, save: false, copy: false, close: true },
        WarningAnswer::Open => WarningOutcome { prefs, save: false, copy: false, close: false },
    }
}

} // verus!
