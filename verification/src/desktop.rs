//! Texts the desktop shell hands to its web views.

use vstd::prelude::*;

use crate::text::{decimal, decimal_string, replace_char, replace_char_spec};

verus! {

/// `text` made safe inside a single-quoted JavaScript string: each `'`
/// becomes `\'`.
pub fn js_single_quoted(text: &str) -> (r: String)
    ensures
        r@ == replace_char_spec(text@, '\'', "\\'"@),
{
    replace_char(text, '\'', "\\'")
}

/// The script that shows a status message on the splash screen.
pub fn splash_status_script(msg: &str) -> (r: String)
    ensures
        r@ == "document.getElementById('status').textContent = '"@ + replace_char_spec(msg@, '\'', "\\'"@) + "'"@,
{
    String::from_str("document.getElementById('status').textContent = '").concat(js_single_quoted(msg).as_str()).concat("'")
}

/// The script that shows (creating it if needed) the update progress bar at
/// `percent` with the label `text`.
pub fn progress_script(percent: u32, text: &str) -> (r: String)
    ensures
        r@ == progress_prefix() + decimal(percent as nat) + "%';\n  document.getElementById('gm-update-pct').textContent = '"@
            + decimal(percent as nat) + "%';\n  document.getElementById('gm-update-label').textContent = '"@
            + replace_char_spec(text@, '\'', "\\'"@) + "';\n})();"@,
{
    let p = decimal_string(percent as u64);
    let s = String::from_str(PROGRESS_PREFIX);
    let s = s.concat(p.as_str());
    let s = s.concat("%';\n  document.getElementById('gm-update-pct').textContent = '");
    let s = s.concat(p.as_str());
    let s = s.concat("%';\n  document.getElementById('gm-update-label').textContent = '");
    let s = s.concat(js_single_quoted(text).as_str());
    s.concat("';\n})();")
}

/// What checking for an update found.
#[derive(Debug, Clone)]
pub enum UpdateCheck {
    /// The updater could not be set up.
    UpdaterError(String),
    /// Asking for updates failed.
    CheckError(String),
    /// The running version is the latest.
    UpToDate,
    /// A newer version is available.
    Available(String),
}

/// How a dialog looks.
#[derive(Debug, Clone, Copy, PartialEq, Eq, Structural)]
pub enum DialogKind {
    Info,
    Error,
}

/// A native message dialog: its title, message, kind and, for a question,
/// the labels of its accept and decline buttons.
#[derive(Debug, Clone)]
pub struct Dialog {
    pub title: String,
    pub message: String,
    pub kind: DialogKind,
    pub buttons: Option<(String, String)>,
}

/// Whether a dialog's buttons are a question with these accept and decline
/// labels.
pub open spec fn asks(buttons: Option<(String, String)>, accept: Seq<char>, decline: Seq<char>) -> bool {
    match buttons {
        Some(b) => b.0@ == accept && b.1@ == decline,
        None => false,
    }
}

/// The dialog that reports an update check: errors and "latest version"
/// are shown plainly; an available version asks whether to download it.
pub fn check_dialog(c: &UpdateCheck) -> (r: Dialog)
    ensures
        match c {
            UpdateCheck::UpdaterError(e) => r.kind == DialogKind::Error && r.title@ == "GleanMark"@
                && r.message@ == "Updater error: "@ + e@ && r.buttons is None,
            UpdateCheck::CheckError(e) => r.kind == DialogKind::Error && r.title@ == "GleanMark"@
                && r.message@ == "Check failed: "@ + e@ && r.buttons is None,
            UpdateCheck::UpToDate => r.kind == DialogKind::Info && r.title@ == "GleanMark"@
                && r.message@ == "You're running the latest version."@ && r.buttons is None,
            UpdateCheck::Available(v) => r.kind == DialogKind::Info && r.title@ == "GleanMark Update"@
                && r.message@ == "Version "@ + v@ + " is available. Download and install?"@
                && asks(r.buttons, "Update"@, "Later"@),
        },
{
    match c {
        UpdateCheck::UpdaterError(e) => Dialog {
            title: String::from_str("GleanMark"),
            message: String::from_str("Updater error: ").concat(e.as_str()),
            kind: DialogKind::Error,
            buttons: None,
        },
        UpdateCheck::CheckError(e) => Dialog {
            title: String::from_str("GleanMark"),
            message: String::from_str("Check failed: ").concat(e.as_str()),
            kind: DialogKind::Error,
            buttons: None,
        },
        UpdateCheck::UpToDate => Dialog {
            title: String::from_str("GleanMark"),
            message: String::from_str("You're running the latest version."),
            kind: DialogKind::Info,
            buttons: None,
        },
        UpdateCheck::Available(v) => Dialog {
            title: String::from_str("GleanMark Update"),
            message: String::from_str("Version ").concat(v.as_str()).concat(" is available. Download and install?"),
            kind: DialogKind::Info,
            buttons: Some((String::from_str("Update"), String::from_str("Later"))),
        },
    }
}

/// The dialog after installing: on success it asks whether to restart now,
/// on failure it shows the error.
pub fn install_dialog(result: &Result<(), String>) -> (r: Dialog)
    ensures
        match result {
            Ok(()) => r.kind == DialogKind::Info && r.title@ == "GleanMark Update"@
                && r.message@ == "Update installed successfully. Restart now?"@
                && asks(r.buttons, "Restart"@, "Later"@),
            Err(e) => r.kind == DialogKind::Error && r.title@ == "GleanMark"@
                && r.message@ == "Update failed: "@ + e@ && r.buttons is None,
        },
{
    match result {
        Ok(()) => Dialog {
            title: String::from_str("GleanMark Update"),
            message: String::from_str("Update installed successfully. Restart now?"),
            kind: DialogKind::Info,
            buttons: Some((String::from_str("Restart"), String::from_str("Later"))),
        },
        Err(e) => Dialog {
            title: String::from_str("GleanMark"),
            message: String::from_str("Update failed: ").concat(e.as_str()),
            kind: DialogKind::Error,
            buttons: None,
        },
    }
}

/// The script that removes the update progress bar.
pub fn hide_progress_script() -> (r: &'static str)
    ensures
        r@ == "(function() {\n  const el = document.getElementById('gm-update-overlay');\n  if (el) el.remove();\n})();"@,
{
    "(function() {\n  const el = document.getElementById('gm-update-overlay');\n  if (el) el.remove();\n})();"
}

/// The opening of the progress script: creates the overlay once, then sets
/// the bar's width.
pub open spec fn progress_prefix() -> Seq<char> {
    PROGRESS_PREFIX@
}

/// The opening of the progress script, up to the bar's width value.
pub const PROGRESS_PREFIX: &'static str = "(function() {\n  let overlay = document.getElementById('gm-update-overlay');\n  if (!overlay) {\n    overlay = document.createElement('div');\n    overlay.id = 'gm-update-overlay';\n    overlay.style.cssText = 'position:fixed;top:0;left:0;right:0;z-index:99999;background:var(--bg-secondary,#f0f0f0);padding:12px 20px;display:flex;align-items:center;gap:12px;font-family:system-ui;font-size:14px;box-shadow:0 2px 8px rgba(0,0,0,0.15)';\n    const label = document.createElement('span');\n    label.id = 'gm-update-label';\n    label.style.cssText = 'white-space:nowrap';\n    const barBg = document.createElement('div');\n    barBg.style.cssText = 'flex:1;height:6px;background:var(--border-color,#ddd);border-radius:3px;overflow:hidden';\n    const bar = document.createElement('div');\n    bar.id = 'gm-update-bar';\n    bar.style.cssText = 'height:100%;background:#3b82f6;border-radius:3px;transition:width 0.3s ease';\n    barBg.appendChild(bar);\n    const pct = document.createElement('span');\n    pct.id = 'gm-update-pct';\n    pct.style.cssText = 'min-width:40px;text-align:right;font-variant-numeric:tabular-nums';\n    overlay.appendChild(label);\n    overlay.appendChild(barBg);\n    overlay.appendChild(pct);\n    document.body.prepend(overlay);\n  }\n  document.getElementById('gm-update-bar').style.width = '";

} // verus!
