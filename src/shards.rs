//! One run of the journal: from the request to the text appended, as a
//! function from what has happened so far to what to do next.
use vstd::prelude::*;
use crate::clock::{clock_label, clock_text, LocalTime};
use crate::entry::{flat_entry, format_flat_entry, format_log_entry, log_entry};
use crate::paths::{
    daily_path_of, resolve_daily_path, resolve_working_memory_path, working_memory_path_of,
    EntryError,
};
use crate::settings::{Cli, Settings};
use crate::tags::{route, route_spec};

verus! {

/// What the caller reports back after doing what was asked.
#[derive(Clone, Debug, PartialEq, Eq)]
pub enum Event {
    /// The run begins.
    Started,
    /// The settings file was opened in the editor and the editor closed.
    SettingsEdited,
    /// The editor closed; its buffer held this text.
    EditorClosed(String),
    /// The editor could not be started, or did not exit cleanly.
    EditorFailed,
    /// The entry was appended.
    Appended,
    /// The note to append to does not exist.
    DestinationMissing,
    /// Writing to the note failed.
    WriteFailed,
}

/// What the caller is asked to do next.
#[derive(Clone, Debug, PartialEq, Eq)]
pub enum Action {
    /// Open the settings file in this editor, then report `SettingsEdited`.
    EditSettings(String),
    /// Open a fresh scratch buffer in this editor, then report its text.
    EditEntry(String),
    /// Append `text` and a newline to the existing file at `path`, never
    /// creating it.
    Append { path: String, text: String },
    /// The run is over and succeeded.
    Done,
    /// The run is over and failed.
    Fail(EntryError),
}

/// An `Event` over plain sequences.
pub enum EventView {
    Started,
    SettingsEdited,
    EditorClosed(Seq<char>),
    EditorFailed,
    Appended,
    DestinationMissing,
    WriteFailed,
}

/// An `Action` over plain sequences.
pub enum Plan {
    EditSettings(Seq<char>),
    EditEntry(Seq<char>),
    Append(Seq<char>, Seq<char>),
    Done,
    Fail(EntryError),
}

impl View for Event {
    type V = EventView;

    open spec fn view(&self) -> EventView {
        match self {
            Event::Started => EventView::Started,
            Event::SettingsEdited => EventView::SettingsEdited,
            Event::EditorClosed(t) => EventView::EditorClosed(t@),
            Event::EditorFailed => EventView::EditorFailed,
            Event::Appended => EventView::Appended,
            Event::DestinationMissing => EventView::DestinationMissing,
            Event::WriteFailed => EventView::WriteFailed,
        }
    }
}

impl View for Action {
    type V = Plan;

    open spec fn view(&self) -> Plan {
        match self {
            Action::EditSettings(e) => Plan::EditSettings(e@),
            Action::EditEntry(e) => Plan::EditEntry(e@),
            Action::Append { path, text } => Plan::Append(path@, text@),
            Action::Done => Plan::Done,
            Action::Fail(e) => Plan::Fail(*e),
        }
    }
}

/// The application: the settings and the request of one run.
pub struct QuickShards {
    pub config: Settings,
    pub cli: Cli,
}

impl QuickShards {
    pub fn new(config: Settings, cli: Cli) -> (r: QuickShards)
        ensures
            r.config == config,
            r.cli == cli,
    {
        QuickShards { config, cli }
    }

    /// The message after the tag rules of the settings.
    pub open spec fn tagged(&self, message: Seq<char>) -> Seq<char> {
        route_spec(self.config.tags@, message)
    }

    /// Applies the settings' tag rules to `message`.
    pub fn handle_tags(&self, message: String) -> (r: String)
        ensures
            r@ == self.tagged(message@),
    {
        route(&self.config.tags, message.as_str())
    }

    /// Where the entry made of `raw` at `now` goes, and the text written.
    pub open spec fn entry_plan(&self, raw: Seq<char>, now: LocalTime) -> Plan {
        let message = self.tagged(raw);
        if self.cli.working_memory {
            match working_memory_path_of(self.config) {
                Some(p) => Plan::Append(p, flat_entry(message)),
                None => Plan::Fail(EntryError::Configuration),
            }
        } else {
            match daily_path_of(self.config, now) {
                Some(p) => Plan::Append(p, log_entry(clock_label(now), message)),
                None => Plan::Fail(EntryError::Configuration),
            }
        }
    }

    /// The next step of a run begun at `now`, after `event`.
    pub open spec fn plan(&self, now: LocalTime, event: EventView) -> Plan {
        match event {
            EventView::Started => {
                if self.cli.edit_settings {
                    Plan::EditSettings(self.config.text_editor@)
                } else if self.cli.interactive {
                    Plan::EditEntry(self.config.text_editor@)
                } else {
                    match self.cli.text {
                        Some(t) => self.entry_plan(t@, now),
                        None => Plan::Fail(EntryError::Input),
                    }
                }
            },
            EventView::SettingsEdited => Plan::Done,
            EventView::EditorClosed(t) => self.entry_plan(t, now),
            EventView::EditorFailed => Plan::Fail(EntryError::EditorSpawn),
            EventView::Appended => Plan::Done,
            EventView::DestinationMissing => Plan::Fail(EntryError::DestinationNotFound),
            EventView::WriteFailed => Plan::Fail(EntryError::Io),
        }
    }

    /// Routes, places and formats the entry `raw`.
    fn entry_action(&self, raw: &str, now: &LocalTime) -> (r: Action)
        requires
            now.wf(),
        ensures
            r@ == self.entry_plan(raw@, *now),
    {
        let message = self.handle_tags(String::from_str(raw));
        if self.cli.working_memory {
            match resolve_working_memory_path(&self.config) {
                Ok(path) => Action::Append { path, text: format_flat_entry(message.as_str()) },
                Err(e) => Action::Fail(e),
            }
        } else {
            match resolve_daily_path(&self.config, now) {
                Ok(path) => {
                    let stamp = clock_text(now);
                    Action::Append { path, text: format_log_entry(stamp.as_str(), message.as_str()) }
                },
                Err(e) => Action::Fail(e),
            }
        }
    }

    /// The next thing to do in a run whose clock was read once, at `now`,
    /// after `event`: acquire the text (from the command line or the
    /// editor), route it through the tag rules, pick the file, format the
    /// entry and ask for it to be appended; any failure ends the run.
    pub fn step(&self, now: &LocalTime, event: &Event) -> (r: Action)
        requires
            now.wf(),
        ensures
            r@ == self.plan(*now, event@),
    {
        match event {
            Event::Started => {
                if self.cli.edit_settings {
                    Action::EditSettings(self.config.text_editor.clone())
                } else if self.cli.interactive {
                    Action::EditEntry(self.config.text_editor.clone())
                } else {
                    match &self.cli.text {
                        Some(t) => self.entry_action(t.as_str(), now),
                        None => Action::Fail(EntryError::Input),
                    }
                }
            },
            Event::SettingsEdited => Action::Done,
            Event::EditorClosed(t) => self.entry_action(t.as_str(), now),
            Event::EditorFailed => Action::Fail(EntryError::EditorSpawn),
            Event::Appended => Action::Done,
            Event::DestinationMissing => Action::Fail(EntryError::DestinationNotFound),
            Event::WriteFailed => Action::Fail(EntryError::Io),
        }
    }
}

} // verus!
