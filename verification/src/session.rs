//! The session controller: the finite-state machine that routes keystrokes
//! by mode, tracks the dirty-buffer and persistence lifecycle, and governs
//! the single-outstanding-background-task protocol for AI rewrites.
//!
//! The controller owns only plain values.  The surrounding application owns
//! the text widgets, the terminal, the channel and the network; it feeds the
//! controller classified keystrokes and the widget text the controller asks
//! for, and performs the [`Action`] the controller returns.
//!
//! Every transition is specified twice: once as the executable method, and
//! once as the spec functions [`route`] and [`step`], which the methods are
//! proved to follow.  General laws about sequences of transitions are proved
//! over [`step`] in the `laws` module.

use vstd::prelude::*;
use vstd::string::*;

use crate::config::Config;
use crate::text::{spec_join_lines, spec_lines, spec_trim, join_lines, split_lines, trim};

verus! {

/// The exclusive input-routing state of the session.  Exactly one mode is
/// active at a time; it alone decides where a keystroke goes.
#[derive(Clone, Copy, PartialEq, Eq, Debug, Structural)]
pub enum AppMode {
    Normal,
    Prompting,
    Setup,
    Processing,
    Search,
    SaveAs,
    ConfirmQuit,
}

/// A keystroke, classified into the shapes the router distinguishes: a
/// control-modified character, escape, enter, a plain character, or any
/// other key (arrows, backspace, and the rest), which only ever edits the
/// active text field.
#[derive(Clone, Copy, PartialEq, Eq, Debug, Structural)]
pub enum KeyInput {
    Ctrl(char),
    Esc,
    Enter,
    Char(char),
    Other,
}

/// What the driver must do after a keystroke, beyond the state change the
/// controller already made.  `Edit*` forwards the keystroke verbatim to the
/// named text widget; the `Submit*` and `Save*` actions ask the driver for
/// the follow-up call that carries the widget text or the write outcome.
#[derive(Clone, Copy, PartialEq, Eq, Debug, Structural)]
pub enum Action {
    /// Nothing further.
    Ignore,
    /// Forward the keystroke to the buffer, then report `note_buffer_edit`.
    EditBuffer,
    /// Forward the keystroke to the prompt field.
    EditPrompt,
    /// Forward the keystroke to the API-key field.
    EditSetup,
    /// Forward the keystroke to the search field.
    EditSearch,
    /// Forward the keystroke to the filename field.
    EditFilename,
    /// Cut the current line in the buffer.
    Cut,
    /// Paste the last cut text into the buffer.
    Paste,
    /// Call `save_file` with the buffer lines, write, report `finish_save`.
    Save,
    /// Fill the filename field from `save_as_prefill`.
    OpenSaveAs,
    /// Snapshot inputs with `snapshot_request` and start the background task.
    Dispatch,
    /// Run `find_in_lines` with the search query and move the cursor.
    RunSearch,
    /// Call `submit_save_as` with the filename field's text.
    SubmitSaveAs,
    /// Call `submit_api_key` with the key field's text, persist, report
    /// `finish_config_save`.
    SubmitApiKey,
    /// Call `save_file`, write, report `finish_quit_save`.
    SaveAndQuit,
}

/// The error a save can raise before any write is attempted.
#[derive(Clone, Copy, PartialEq, Eq, Debug, Structural)]
pub enum SaveError {
    /// There is no backing file: the filename is the unnamed sentinel or empty.
    NoFilename,
}

/// A fully prepared write: which file to write and the exact text.
pub struct SavePlan {
    pub filename: String,
    pub content: String,
}

/// The snapshot handed to the background AI task at dispatch: the values
/// are fixed at dispatch time and later edits cannot race with them.
pub struct AiRequest {
    pub api_key: String,
    pub code: String,
    pub filename: String,
    pub instruction: String,
}

/// The session controller.  It owns the mode, the current filename (never
/// empty: the sentinel `[No Name]` stands for "no backing file"), the dirty
/// flag, the quit flag, the transient status message, and the configuration.
pub struct App {
    pub mode: AppMode,
    pub filename: String,
    pub config: Config,
    pub should_quit: bool,
    pub is_modified: bool,
    pub status_message: Option<String>,
}

/// The mathematical state of the controller, over which the transition
/// functions and the laws are stated.
pub struct AppV {
    pub mode: AppMode,
    pub filename: Seq<char>,
    pub api_key: Seq<char>,
    pub should_quit: bool,
    pub is_modified: bool,
    pub status_message: Option<Seq<char>>,
}

impl View for App {
    type V = AppV;

    open spec fn view(&self) -> AppV {
        AppV {
            mode: self.mode,
            filename: self.filename@,
            api_key: self.config.api_key@,
            should_quit: self.should_quit,
            is_modified: self.is_modified,
            status_message: self.status_message.deep_view(),
        }
    }
}

/// The sentinel filename that stands for "no backing file".
pub open spec fn unnamed(v: AppV) -> bool {
    v.filename == "[No Name]"@
}

/// The state after a buffer-mutating action: dirty, with the transient
/// status message cleared.
pub open spec fn with_dirty(s: AppV) -> AppV {
    AppV { is_modified: true, status_message: None, ..s }
}

/// Keystroke routing in normal (editing) mode.
pub open spec fn route_normal(s: AppV, k: KeyInput) -> (AppV, Action) {
    if k == KeyInput::Ctrl('q') {
        if s.is_modified {
            (AppV { mode: AppMode::ConfirmQuit, ..s }, Action::Ignore)
        } else {
            (AppV { should_quit: true, ..s }, Action::Ignore)
        }
    } else if k == KeyInput::Ctrl('p') {
        (AppV { mode: AppMode::Prompting, ..s }, Action::Ignore)
    } else if k == KeyInput::Ctrl('k') {
        (with_dirty(s), Action::Cut)
    } else if k == KeyInput::Ctrl('u') {
        (with_dirty(s), Action::Paste)
    } else if k == KeyInput::Ctrl('o') {
        if unnamed(s) {
            (AppV { mode: AppMode::SaveAs, ..s }, Action::OpenSaveAs)
        } else {
            (s, Action::Save)
        }
    } else if k == KeyInput::Ctrl('f') {
        (AppV { mode: AppMode::Search, ..s }, Action::Ignore)
    } else {
        (s, Action::EditBuffer)
    }
}

/// Keystroke routing while the AI prompt popup is open.
pub open spec fn route_prompting(s: AppV, k: KeyInput) -> (AppV, Action) {
    if k == KeyInput::Esc {
        (AppV { mode: AppMode::Normal, ..s }, Action::Ignore)
    } else if k == KeyInput::Enter {
        (AppV { mode: AppMode::Processing, ..s }, Action::Dispatch)
    } else {
        (s, Action::EditPrompt)
    }
}

/// Keystroke routing on the first-run API-key screen.
pub open spec fn route_setup(s: AppV, k: KeyInput) -> (AppV, Action) {
    if k == KeyInput::Esc || k == KeyInput::Ctrl('q') {
        (AppV { should_quit: true, ..s }, Action::Ignore)
    } else if k == KeyInput::Enter {
        (s, Action::SubmitApiKey)
    } else {
        (s, Action::EditSetup)
    }
}

/// Keystroke routing while an AI task is outstanding: everything is ignored
/// except the quit combination.
pub open spec fn route_processing(s: AppV, k: KeyInput) -> (AppV, Action) {
    if k == KeyInput::Ctrl('q') {
        (AppV { should_quit: true, ..s }, Action::Ignore)
    } else {
        (s, Action::Ignore)
    }
}

/// Keystroke routing while the search bar is open.
pub open spec fn route_search(s: AppV, k: KeyInput) -> (AppV, Action) {
    if k == KeyInput::Esc {
        (AppV { mode: AppMode::Normal, ..s }, Action::Ignore)
    } else if k == KeyInput::Enter {
        (AppV { mode: AppMode::Normal, ..s }, Action::RunSearch)
    } else {
        (s, Action::EditSearch)
    }
}

/// Keystroke routing while the save-as popup is open.  Enter leaves the
/// mode unchanged here: whether it closes the popup depends on the field's
/// text, which `submit_save_as` receives.
pub open spec fn route_save_as(s: AppV, k: KeyInput) -> (AppV, Action) {
    if k == KeyInput::Esc {
        (AppV { mode: AppMode::Normal, ..s }, Action::Ignore)
    } else if k == KeyInput::Enter {
        (s, Action::SubmitSaveAs)
    } else {
        (s, Action::EditFilename)
    }
}

/// Keystroke routing in the unsaved-changes confirmation dialog.
pub open spec fn route_confirm_quit(s: AppV, k: KeyInput) -> (AppV, Action) {
    if k == KeyInput::Char('y') || k == KeyInput::Char('Y') {
        if unnamed(s) {
            (AppV { mode: AppMode::SaveAs, ..s }, Action::OpenSaveAs)
        } else {
            (s, Action::SaveAndQuit)
        }
    } else if k == KeyInput::Char('n') || k == KeyInput::Char('N') {
        (AppV { should_quit: true, ..s }, Action::Ignore)
    } else if k == KeyInput::Esc {
        (AppV { mode: AppMode::Normal, ..s }, Action::Ignore)
    } else {
        (s, Action::Ignore)
    }
}

/// The mode router: given the current state and one keystroke, the next
/// state and the action the driver must perform.
pub open spec fn route(s: AppV, k: KeyInput) -> (AppV, Action) {
    match s.mode {
        AppMode::Normal => route_normal(s, k),
        AppMode::Prompting => route_prompting(s, k),
        AppMode::Setup => route_setup(s, k),
        AppMode::Processing => route_processing(s, k),
        AppMode::Search => route_search(s, k),
        AppMode::SaveAs => route_save_as(s, k),
        AppMode::ConfirmQuit => route_confirm_quit(s, k),
    }
}

/// Everything that can change the controller's state: a keystroke, the
/// buffer's answer to a forwarded edit, the reconciliation of a completed
/// AI task, the outcome of a write, or a submitted text field.
pub enum EventV {
    Key(KeyInput),
    BufferEdited(bool),
    AiApplied,
    SaveFinished(bool, Seq<char>),
    QuitSaveFinished(bool, Seq<char>),
    ConfigSaved(bool),
    SaveAsSubmitted(Seq<char>),
    ApiKeySubmitted(Seq<char>),
}

/// The full transition function of the session: one event, one new state.
pub open spec fn step(s: AppV, ev: EventV) -> AppV {
    match ev {
        EventV::Key(k) => route(s, k).0,
        EventV::BufferEdited(mutated) => if mutated {
            with_dirty(s)
        } else {
            s
        },
        EventV::AiApplied => AppV {
            mode: AppMode::Normal,
            is_modified: true,
            status_message: None,
            ..s
        },
        EventV::SaveFinished(ok, err) => if ok {
            AppV { is_modified: false, status_message: Some("File Saved!"@), ..s }
        } else {
            AppV { status_message: Some("Error: "@ + err), ..s }
        },
        EventV::QuitSaveFinished(ok, err) => if ok {
            AppV {
                is_modified: false,
                status_message: Some("File Saved!"@),
                should_quit: true,
                ..s
            }
        } else {
            AppV { status_message: Some("Error saving: "@ + err), mode: AppMode::Normal, ..s }
        },
        EventV::ConfigSaved(ok) => if ok {
            AppV { mode: AppMode::Normal, ..s }
        } else {
            s
        },
        EventV::SaveAsSubmitted(raw) => {
            let t = spec_trim(raw);
            if t.len() == 0 {
                s
            } else {
                AppV { filename: t, mode: AppMode::Normal, ..s }
            }
        },
        EventV::ApiKeySubmitted(raw) => AppV { api_key: spec_trim(raw), ..s },
    }
}

impl App {
    /// A fresh session.  It starts on the setup screen when no API key is
    /// configured, else in normal mode; the buffer is clean, no quit is
    /// requested, and there is no status message.
    pub fn new(filename: Option<String>, config: Config) -> (s: App)
        ensures
            s@.mode == (if config.api_key@.len() == 0 {
                AppMode::Setup
            } else {
                AppMode::Normal
            }),
            s@.filename == (match filename {
                Some(f) => f@,
                None => "[No Name]"@,
            }),
            s@.api_key == config.api_key@,
            !s@.should_quit,
            !s@.is_modified,
            s@.status_message is None,
    {
        let mode = if config.api_key.as_str().is_empty() {
            AppMode::Setup
        } else {
            AppMode::Normal
        };
        let name = match filename {
            Some(f) => f,
            None => String::from_str("[No Name]"),
        };
        App {
            mode,
            filename: name,
            config,
            should_quit: false,
            is_modified: false,
            status_message: None,
        }
    }

    /// Whether the session has no backing file.
    pub fn is_unnamed(&self) -> (r: bool)
        ensures
            r == unnamed(self@),
    {
        self.filename == String::from_str("[No Name]")
    }

    /// Request quitting: the driver loop exits after the current iteration.
    pub fn quit(&mut self)
        ensures
            final(self)@ == (AppV { should_quit: true, ..old(self)@ }),
    {
        self.should_quit = true;
    }

    /// Open the AI prompt popup.
    pub fn enter_prompt_mode(&mut self)
        ensures
            final(self)@ == (AppV { mode: AppMode::Prompting, ..old(self)@ }),
    {
        self.mode = AppMode::Prompting;
    }

    /// Close the AI prompt popup without dispatching.
    pub fn exit_prompt_mode(&mut self)
        ensures
            final(self)@ == (AppV { mode: AppMode::Normal, ..old(self)@ }),
    {
        self.mode = AppMode::Normal;
    }

    /// Enter or leave processing mode around a background AI task.
    pub fn set_processing(&mut self, is_processing: bool)
        ensures
            final(self)@ == (AppV {
                mode: if is_processing {
                    AppMode::Processing
                } else {
                    AppMode::Normal
                },
                ..old(self)@
            }),
    {
        if is_processing {
            self.mode = AppMode::Processing;
        } else {
            self.mode = AppMode::Normal;
        }
    }

    /// Open the search bar.
    pub fn enter_search_mode(&mut self)
        ensures
            final(self)@ == (AppV { mode: AppMode::Search, ..old(self)@ }),
    {
        self.mode = AppMode::Search;
    }

    /// Close the search bar.
    pub fn exit_search_mode(&mut self)
        ensures
            final(self)@ == (AppV { mode: AppMode::Normal, ..old(self)@ }),
    {
        self.mode = AppMode::Normal;
    }

    /// Record a buffer mutation: the buffer is dirty and the transient
    /// status message is cleared.
    pub fn mark_dirty(&mut self)
        ensures
            final(self)@ == with_dirty(old(self)@),
    {
        self.is_modified = true;
        self.status_message = None;
    }

    /// Show a transient status message.
    pub fn set_status(&mut self, msg: &str)
        ensures
            final(self)@ == (AppV { status_message: Some(msg@), ..old(self)@ }),
    {
        self.status_message = Some(String::from_str(msg));
    }

    /// Open the save-as popup.  The driver pre-fills the filename field
    /// from `save_as_prefill`.
    pub fn prompt_save_as(&mut self)
        ensures
            final(self)@ == (AppV { mode: AppMode::SaveAs, ..old(self)@ }),
    {
        self.mode = AppMode::SaveAs;
    }

    /// What the save-as filename field is pre-filled with: the current
    /// filename, or nothing when there is no backing file yet.
    pub fn save_as_prefill(&self) -> (r: Option<String>)
        ensures
            match r {
                Some(name) => !unnamed(self@) && name@ == self@.filename,
                None => unnamed(self@),
            },
    {
        if self.is_unnamed() {
            None
        } else {
            Some(self.filename.clone())
        }
    }

    /// Route one keystroke according to the current mode.  The state change
    /// and the returned action follow the mode router exactly.
    pub fn on_key(&mut self, k: KeyInput) -> (a: Action)
        ensures
            final(self)@ == route(old(self)@, k).0,
            a == route(old(self)@, k).1,
    {
        match self.mode {
            AppMode::Normal => self.on_key_normal(k),
            AppMode::Prompting => self.on_key_prompting(k),
            AppMode::Setup => self.on_key_setup(k),
            AppMode::Processing => self.on_key_processing(k),
            AppMode::Search => self.on_key_search(k),
            AppMode::SaveAs => self.on_key_save_as(k),
            AppMode::ConfirmQuit => self.on_key_confirm_quit(k),
        }
    }

    fn on_key_normal(&mut self, k: KeyInput) -> (a: Action)
        requires
            old(self)@.mode == AppMode::Normal,
        ensures
            final(self)@ == route_normal(old(self)@, k).0,
            a == route_normal(old(self)@, k).1,
    {
        match k {
            KeyInput::Ctrl(c) => {
                if c == 'q' {
                    if self.is_modified {
                        self.mode = AppMode::ConfirmQuit;
                    } else {
                        self.quit();
                    }
                    Action::Ignore
                } else if c == 'p' {
                    self.enter_prompt_mode();
                    Action::Ignore
                } else if c == 'k' {
                    self.mark_dirty();
                    Action::Cut
                } else if c == 'u' {
                    self.mark_dirty();
                    Action::Paste
                } else if c == 'o' {
                    if self.is_unnamed() {
                        self.prompt_save_as();
                        Action::OpenSaveAs
                    } else {
                        Action::Save
                    }
                } else if c == 'f' {
                    self.enter_search_mode();
                    Action::Ignore
                } else {
                    Action::EditBuffer
                }
            },
            _ => Action::EditBuffer,
        }
    }

    fn on_key_prompting(&mut self, k: KeyInput) -> (a: Action)
        requires
            old(self)@.mode == AppMode::Prompting,
        ensures
            final(self)@ == route_prompting(old(self)@, k).0,
            a == route_prompting(old(self)@, k).1,
    {
        match k {
            KeyInput::Esc => {
                self.exit_prompt_mode();
                Action::Ignore
            },
            KeyInput::Enter => {
                self.set_processing(true);
                Action::Dispatch
            },
            _ => Action::EditPrompt,
        }
    }

    fn on_key_setup(&mut self, k: KeyInput) -> (a: Action)
        requires
            old(self)@.mode == AppMode::Setup,
        ensures
            final(self)@ == route_setup(old(self)@, k).0,
            a == route_setup(old(self)@, k).1,
    {
        match k {
            KeyInput::Esc => {
                self.quit();
                Action::Ignore
            },
            KeyInput::Ctrl(c) => {
                if c == 'q' {
                    self.quit();
                    Action::Ignore
                } else {
                    Action::EditSetup
                }
            },
            KeyInput::Enter => Action::SubmitApiKey,
            _ => Action::EditSetup,
        }
    }

    fn on_key_processing(&mut self, k: KeyInput) -> (a: Action)
        requires
            old(self)@.mode == AppMode::Processing,
        ensures
            final(self)@ == route_processing(old(self)@, k).0,
            a == route_processing(old(self)@, k).1,
    {
        match k {
            KeyInput::Ctrl(c) => {
                if c == 'q' {
                    self.quit();
                }
                Action::Ignore
            },
            _ => Action::Ignore,
        }
    }

    fn on_key_search(&mut self, k: KeyInput) -> (a: Action)
        requires
            old(self)@.mode == AppMode::Search,
        ensures
            final(self)@ == route_search(old(self)@, k).0,
            a == route_search(old(self)@, k).1,
    {
        match k {
            KeyInput::Esc => {
                self.exit_search_mode();
                Action::Ignore
            },
            KeyInput::Enter => {
                self.exit_search_mode();
                Action::RunSearch
            },
            _ => Action::EditSearch,
        }
    }

    fn on_key_save_as(&mut self, k: KeyInput) -> (a: Action)
        requires
            old(self)@.mode == AppMode::SaveAs,
        ensures
            final(self)@ == route_save_as(old(self)@, k).0,
            a == route_save_as(old(self)@, k).1,
    {
        match k {
            KeyInput::Esc => {
                self.mode = AppMode::Normal;
                Action::Ignore
            },
            KeyInput::Enter => Action::SubmitSaveAs,
            _ => Action::EditFilename,
        }
    }

    fn on_key_confirm_quit(&mut self, k: KeyInput) -> (a: Action)
        requires
            old(self)@.mode == AppMode::ConfirmQuit,
        ensures
            final(self)@ == route_confirm_quit(old(self)@, k).0,
            a == route_confirm_quit(old(self)@, k).1,
    {
        match k {
            KeyInput::Char(c) => {
                if c == 'y' || c == 'Y' {
                    if self.is_unnamed() {
                        self.prompt_save_as();
                        Action::OpenSaveAs
                    } else {
                        Action::SaveAndQuit
                    }
                } else if c == 'n' || c == 'N' {
                    self.quit();
                    Action::Ignore
                } else {
                    Action::Ignore
                }
            },
            KeyInput::Esc => {
                self.mode = AppMode::Normal;
                Action::Ignore
            },
            _ => Action::Ignore,
        }
    }

    /// Record the buffer's answer to a forwarded edit keystroke: a mutation
    /// marks the buffer dirty, anything else changes nothing.
    pub fn note_buffer_edit(&mut self, did_mutate: bool)
        ensures
            final(self)@ == step(old(self)@, EventV::BufferEdited(did_mutate)),
    {
        if did_mutate {
            self.mark_dirty();
        }
    }

    /// Prepare a save of the buffer.  With no backing file this fails with
    /// `NoFilename` and changes nothing; otherwise it yields the filename
    /// and the exact text to write: the lines joined by newlines.
    pub fn save_file(&self, lines: &Vec<String>) -> (r: Result<SavePlan, SaveError>)
        ensures
            r is Err <==> (unnamed(self@) || self@.filename.len() == 0),
            match r {
                Ok(plan) => plan.filename@ == self@.filename && plan.content@
                    == spec_join_lines(lines.deep_view()),
                Err(e) => e == SaveError::NoFilename,
            },
    {
        if self.is_unnamed() || self.filename.as_str().is_empty() {
            return Err(SaveError::NoFilename);
        }
        Ok(SavePlan { filename: self.filename.clone(), content: join_lines(lines) })
    }

    /// Record the outcome of writing a prepared save: success marks the
    /// buffer clean and confirms; failure keeps the buffer dirty and shows
    /// the error, never discarding it silently.
    pub fn finish_save(&mut self, ok: bool, err: &str)
        ensures
            final(self)@ == step(old(self)@, EventV::SaveFinished(ok, err@)),
    {
        if ok {
            self.is_modified = false;
            self.set_status("File Saved!");
        } else {
            let mut msg = String::from_str("Error: ");
            msg.append(err);
            self.status_message = Some(msg);
        }
    }

    /// Record the outcome of the save performed on quit confirmation:
    /// success marks the buffer clean and quits; failure shows the error
    /// and returns to normal mode so the user can mend it.
    pub fn finish_quit_save(&mut self, ok: bool, err: &str)
        ensures
            final(self)@ == step(old(self)@, EventV::QuitSaveFinished(ok, err@)),
    {
        if ok {
            self.is_modified = false;
            self.set_status("File Saved!");
            self.should_quit = true;
        } else {
            let mut msg = String::from_str("Error saving: ");
            msg.append(err);
            self.status_message = Some(msg);
            self.mode = AppMode::Normal;
        }
    }

    /// Submit the save-as field.  A name that trims to nothing is refused
    /// and nothing changes, the popup staying open; otherwise the trimmed
    /// name becomes the filename and the popup closes.  The driver then
    /// saves exactly when this returns true.
    pub fn submit_save_as(&mut self, raw: &str) -> (accepted: bool)
        ensures
            final(self)@ == step(old(self)@, EventV::SaveAsSubmitted(raw@)),
            accepted == (spec_trim(raw@).len() > 0),
    {
        let t = trim(raw);
        if t.as_str().is_empty() {
            false
        } else {
            self.filename = t;
            self.mode = AppMode::Normal;
            true
        }
    }

    /// Submit the API-key field: the trimmed key is stored in the
    /// configuration, and the record to persist is returned.  The mode
    /// changes only once the driver reports the write's outcome.
    pub fn submit_api_key(&mut self, raw: &str) -> (c: Config)
        ensures
            final(self)@ == step(old(self)@, EventV::ApiKeySubmitted(raw@)),
            c.api_key@ == spec_trim(raw@),
    {
        self.config.api_key = trim(raw);
        Config { api_key: self.config.api_key.clone() }
    }

    /// Record the outcome of persisting the configuration: the setup screen
    /// closes exactly when the write succeeded.
    pub fn finish_config_save(&mut self, ok: bool)
        ensures
            final(self)@ == step(old(self)@, EventV::ConfigSaved(ok)),
    {
        if ok {
            self.mode = AppMode::Normal;
        }
    }

    /// Reconcile a completed AI task, exactly once per task: the session
    /// returns to normal mode, the buffer counts as modified, the status
    /// message is cleared, and the text the buffer must be replaced with is
    /// returned, split into lines.  Both a rewrite and a formatted error
    /// arrive this way: an error is shown in the buffer itself, by design.
    pub fn apply_ai_result(&mut self, response: &str) -> (lines: Vec<String>)
        requires
            old(self)@.mode == AppMode::Processing,
        ensures
            final(self)@ == step(old(self)@, EventV::AiApplied),
            lines.deep_view() == spec_lines(response@),
    {
        self.mode = AppMode::Normal;
        self.is_modified = true;
        self.status_message = None;
        split_lines(response)
    }

    /// The snapshot handed to a background AI task: the API key, the whole
    /// buffer text, the filename and the instruction, all fixed at dispatch
    /// time.
    pub fn snapshot_request(&self, code: String, instruction: String) -> (r: AiRequest)
        ensures
            r.api_key@ == self@.api_key,
            r.code@ == code@,
            r.filename@ == self@.filename,
            r.instruction@ == instruction@,
    {
        AiRequest {
            api_key: self.config.api_key.clone(),
            code,
            filename: self.filename.clone(),
            instruction,
        }
    }
}

} // verus!
