//! Where an entry, the settings and the editor's scratch buffer live.
use vstd::prelude::*;
use crate::clock::{date_stem, default_date_pattern, format_time, strftime_text, LocalTime};
use crate::settings::Settings;
use crate::text::{chars_of, push_all, string_of};

verus! {

/// The errors that end a run.
#[derive(Clone, Copy, Debug, PartialEq, Eq, Structural)]
pub enum EntryError {
    /// The settings are missing a value the request needs, or hold one that
    /// cannot be used.
    Configuration,
    /// No text was given and the editor was not asked for.
    Input,
    /// The note to append to does not exist; it is never created.
    DestinationNotFound,
    /// The editor could not be started or failed.
    EditorSpawn,
    /// Writing the entry failed.
    Io,
}

/// `part` joined onto `base` as a file-system path.
pub uninterp spec fn path_joined(base: Seq<char>, part: Seq<char>) -> Seq<char>;

/// Relies on `std::path::Path::join`, read back as text: the result depends
/// on the two paths alone (on a given platform), and joining UTF-8 text gives
/// UTF-8 text.
#[verifier::external_body]
fn join_path(base: &str, part: &str) -> (r: String)
    ensures
        r@ == path_joined(base@, part@),
{
    std::path::Path::new(base).join(part).to_string_lossy().into_owned()
}

/// The daily-note pattern the settings ask for.
pub open spec fn daily_pattern(c: Settings) -> Seq<char> {
    match c.daily_format {
        Some(f) => f@,
        None => default_date_pattern(),
    }
}

/// The daily note for `t`: the pattern's rendering of `t` with `.md`, under
/// the daily directory of the vault; `None` where the pattern cannot be
/// rendered.
pub open spec fn daily_path_of(c: Settings, t: LocalTime) -> Option<Seq<char>> {
    match strftime_text(daily_pattern(c), t) {
        Some(stem) => Some(
            path_joined(
                path_joined(c.obsidian_vault_path@, c.daily_path@),
                stem + seq!['.', 'm', 'd'],
            ),
        ),
        None => None,
    }
}

/// The working-memory file, under the vault; `None` where none is set.
pub open spec fn working_memory_path_of(c: Settings) -> Option<Seq<char>> {
    match c.working_memory_file_path {
        Some(w) => Some(path_joined(c.obsidian_vault_path@, w@)),
        None => None,
    }
}

/// The daily note that receives an entry made at `now`. Nothing on disk is
/// read or created.
pub fn resolve_daily_path(config: &Settings, now: &LocalTime) -> (r: Result<String, EntryError>)
    requires
        now.wf(),
    ensures
        r is Ok <==> daily_path_of(*config, *now) is Some,
        r matches Ok(p) ==> daily_path_of(*config, *now) == Some(p@),
        r matches Err(e) ==> e == EntryError::Configuration,
        daily_pattern(*config) == default_date_pattern() ==> r is Ok && r->Ok_0@ == path_joined(
            path_joined(config.obsidian_vault_path@, config.daily_path@),
            date_stem(*now) + seq!['.', 'm', 'd'],
        ),
{
    let default_pattern = "%Y-%m-%d";
    proof {
        reveal_strlit("%Y-%m-%d");
    }
    assert(default_pattern@ =~= default_date_pattern());
    let pattern: &str = match &config.daily_format {
        Some(f) => f.as_str(),
        None => default_pattern,
    };
    match format_time(pattern, now) {
        Some(stem) => {
            let mut file = chars_of(stem.as_str());
            file.push('.');
            file.push('m');
            file.push('d');
            assert(file@ =~= stem@ + seq!['.', 'm', 'd']);
            let dir = join_path(config.obsidian_vault_path.as_str(), config.daily_path.as_str());
            Ok(join_path(dir.as_str(), string_of(&file).as_str()))
        },
        None => Err(EntryError::Configuration),
    }
}

/// The working-memory file; a `Configuration` error where the settings name
/// none.
pub fn resolve_working_memory_path(config: &Settings) -> (r: Result<String, EntryError>)
    ensures
        r is Ok <==> working_memory_path_of(*config) is Some,
        r matches Ok(p) ==> working_memory_path_of(*config) == Some(p@),
        r matches Err(e) ==> e == EntryError::Configuration,
{
    match &config.working_memory_file_path {
        Some(w) => Ok(join_path(config.obsidian_vault_path.as_str(), w.as_str())),
        None => Err(EntryError::Configuration),
    }
}

/// The settings file: `QuickShards/config.toml` under the user's
/// configuration directory.
pub fn config_file_path(config_dir: &str) -> (r: String)
    ensures
        r@ == path_joined(
            path_joined(
                config_dir@,
                seq!['Q', 'u', 'i', 'c', 'k', 'S', 'h', 'a', 'r', 'd', 's'],
            ),
            seq!['c', 'o', 'n', 'f', 'i', 'g', '.', 't', 'o', 'm', 'l'],
        ),
{
    let app = "QuickShards";
    let file = "config.toml";
    proof {
        reveal_strlit("QuickShards");
        reveal_strlit("config.toml");
    }
    assert(app@ =~= seq!['Q', 'u', 'i', 'c', 'k', 'S', 'h', 'a', 'r', 'd', 's']);
    assert(file@ =~= seq!['c', 'o', 'n', 'f', 'i', 'g', '.', 't', 'o', 'm', 'l']);
    let dir = join_path(config_dir, app);
    join_path(dir.as_str(), file)
}

pub open spec fn is_lower_hex(c: char) -> bool {
    ('0' <= c && c <= '9') || ('a' <= c && c <= 'f')
}

/// A UUID in its hyphenated lower-case form: 36 characters, hyphens at 8,
/// 13, 18 and 23, lower-case hex digits elsewhere.
pub open spec fn is_hyphenated_uuid(s: Seq<char>) -> bool {
    &&& s.len() == 36
    &&& forall|i: int|
        0 <= i < 36 ==> if i == 8 || i == 13 || i == 18 || i == 23 {
            #[trigger] s[i] == '-'
        } else {
            is_lower_hex(s[i])
        }
}

/// Relies on `uuid::Uuid::new_v4` and its `Display`, which writes the
/// hyphenated lower-case form. The value is random.
#[verifier::external_body]
fn random_uuid_text() -> (r: String)
    ensures
        is_hyphenated_uuid(r@),
{
    uuid::Uuid::new_v4().to_string()
}

/// A fresh file name for the editor's scratch buffer: a random UUID and
/// `.md`.
pub fn scratch_file_name() -> (r: String)
    ensures
        r@.len() == 39,
        is_hyphenated_uuid(r@.take(36)),
        r@.skip(36) == seq!['.', 'm', 'd'],
{
    let id = random_uuid_text();
    let mut name = chars_of(id.as_str());
    let ghost stem = name@;
    push_all(&mut name, &vec!['.', 'm', 'd']);
    assert(name@.take(36) =~= stem);
    assert(name@.skip(36) =~= seq!['.', 'm', 'd']);
    string_of(&name)
}

} // verus!
