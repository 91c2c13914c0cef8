//! The user's settings and the command-line request.
use vstd::prelude::*;
use crate::tags::Tag;

verus! {

/// The editor used when the settings name none.
pub fn editor_default() -> (r: String)
    ensures
        r@ == seq!['v', 'i', 'm'],
{
    let r = String::from_str("vim");
    proof {
        reveal_strlit("vim");
    }
    assert(r@ =~= seq!['v', 'i', 'm']);
    r
}

/// The user's settings.
#[derive(Clone, Debug)]
pub struct Settings {
    /// Root of the notes vault.
    pub obsidian_vault_path: String,
    /// Directory of the daily notes, under the vault.
    pub daily_path: String,
    /// strftime-style pattern of a daily note's file stem; `%Y-%m-%d` if unset.
    pub daily_format: Option<String>,
    /// The working-memory file, under the vault.
    pub working_memory_file_path: Option<String>,
    /// Command that opens the editor.
    pub text_editor: String,
    /// Tag rules, tried in order.
    pub tags: Vec<Tag>,
}

/// What was asked on the command line.
#[derive(Clone, Debug)]
pub struct Cli {
    /// Write to the working-memory file.
    pub working_memory: bool,
    /// Open the settings file in the editor and stop.
    pub edit_settings: bool,
    /// Write the entry in the editor.
    pub interactive: bool,
    /// The entry's text.
    pub text: Option<String>,
}

} // verus!
