//! The status reported for the grants that automation needs.

use vstd::prelude::*;
use vstd::string::*;

verus! {

/// What the process may currently do, with an advisory message.
///
/// The status is derived afresh from the two probes each time; nothing is kept.
pub struct PermissionsStatus {
    /// `granted` or `denied`.
    pub screen_recording: String,
    /// `granted` or `denied`.
    pub accessibility: String,
    /// `available` or `blocked`.
    pub input_control: String,
    /// One sentence for the user.
    pub message: String,
}

/// The mathematical value of a `PermissionsStatus`.
pub struct PermissionsView {
    pub screen_recording: Seq<char>,
    pub accessibility: Seq<char>,
    pub input_control: Seq<char>,
    pub message: Seq<char>,
}

impl View for PermissionsStatus {
    type V = PermissionsView;

    open spec fn view(&self) -> PermissionsView {
        PermissionsView {
            screen_recording: self.screen_recording@,
            accessibility: self.accessibility@,
            input_control: self.input_control@,
            message: self.message@,
        }
    }
}

/// The word for a grant: `granted` or `denied`.
pub open spec fn grant_word(ok: bool) -> Seq<char> {
    if ok {
        "granted"@
    } else {
        "denied"@
    }
}

/// The word for input control: `available` or `blocked`.
pub open spec fn control_word(ok: bool) -> Seq<char> {
    if ok {
        "available"@
    } else {
        "blocked"@
    }
}

/// The advisory message: one text where both grants are held, another otherwise.
pub open spec fn advisory(screen_recording_ok: bool, accessibility_ok: bool) -> Seq<char> {
    if screen_recording_ok && accessibility_ok {
        "Разрешения в норме"@
    } else {
        "Нужны разрешения: Запись экрана и Универсальный доступ"@
    }
}

/// The status that two probe results give.
pub open spec fn status_of(screen_recording_ok: bool, accessibility_ok: bool) -> PermissionsView {
    PermissionsView {
        screen_recording: grant_word(screen_recording_ok),
        accessibility: grant_word(accessibility_ok),
        input_control: control_word(accessibility_ok),
        message: advisory(screen_recording_ok, accessibility_ok),
    }
}

/// Composes the status from the outcome of the two probes: whether the
/// displays could be listed, and whether an input handle could be made.
pub fn check_permissions(screen_recording_ok: bool, accessibility_ok: bool) -> (r:
    PermissionsStatus)
    ensures
        r@ == status_of(screen_recording_ok, accessibility_ok),
{
    let screen_recording = String::from_str(
        if screen_recording_ok {
            "granted"
        } else {
            "denied"
        },
    );
    let accessibility = String::from_str(
        if accessibility_ok {
            "granted"
        } else {
            "denied"
        },
    );
    let input_control = String::from_str(
        if accessibility_ok {
            "available"
        } else {
            "blocked"
        },
    );
    let message = String::from_str(
        if screen_recording_ok && accessibility_ok {
            "Разрешения в норме"
        } else {
            "Нужны разрешения: Запись экрана и Универсальный доступ"
        },
    );
    PermissionsStatus { screen_recording, accessibility, input_control, message }
}

/// The status for the front-end of the desktop shell: composed from the two
/// probes, or, on a host without automation (`None`), an error with a fixed text.
pub fn report_permissions(probes: Option<(bool, bool)>) -> (r: Result<PermissionsStatus, String>)
    ensures
        match probes {
            Some((screen_recording_ok, accessibility_ok)) => r matches Ok(p) && p@ == status_of(
                screen_recording_ok,
                accessibility_ok,
            ),
            None => r matches Err(e) && e@ == "Недоступно без desktop-skills"@,
        },
{
    match probes {
        Some((screen_recording_ok, accessibility_ok)) => Ok(
            check_permissions(screen_recording_ok, accessibility_ok),
        ),
        None => Err(String::from_str("Недоступно без desktop-skills")),
    }
}

/// Two probes that find the same grants report the same status in every field.
pub proof fn lemma_same_grants_same_status(a: PermissionsStatus, b: PermissionsStatus, s: bool, x: bool)
    requires
        a@ == status_of(s, x),
        b@ == status_of(s, x),
    ensures
        a@.screen_recording == b@.screen_recording,
        a@.accessibility == b@.accessibility,
        a@.input_control == b@.input_control,
        a@.message == b@.message,
{
}

/// Input control is reported available exactly where accessibility is granted.
pub proof fn lemma_input_control_follows_accessibility(s: bool, x: bool)
    ensures
        (status_of(s, x).input_control == control_word(true)) <==> x,
        (status_of(s, x).accessibility == grant_word(true)) <==> x,
        (status_of(s, x).screen_recording == grant_word(true)) <==> s,
        (status_of(s, x).message == advisory(true, true)) <==> (s && x),
{
    reveal_strlit("granted");
    reveal_strlit("denied");
    reveal_strlit("available");
    reveal_strlit("blocked");
    reveal_strlit("Разрешения в норме");
    reveal_strlit("Нужны разрешения: Запись экрана и Универсальный доступ");
    assert("granted"@.len() != "denied"@.len());
    assert("available"@.len() != "blocked"@.len());
    assert("Разрешения в норме"@.len() != "Нужны разрешения: Запись экрана и Универсальный доступ"@.len());
}

} // verus!
