//! One run of the shortcut, as a state machine: the application performs
//! each action (clipboard, simulated keys, waiting, files, the model call)
//! and reports back an event; `TextRun::step` decides what comes next.
//!
//! A run saves the clipboard, copies the selection (selecting everything
//! when nothing new was copied), reads the text, loads the settings and the
//! instruction, unlocks the key, asks the model, writes the refined text to
//! the clipboard and pastes it. Whatever happens after the clipboard was
//! saved, the saved content is put back at the end, after a short wait
//! when a paste was sent.
use vstd::prelude::*;

use crate::api::{accepted_proxy, ApiClient, GeminiClient, OpenRouterClient, REQUEST_TIMEOUT_SECS};
use crate::clipboard::{clipboard_error_text, ClipboardError};
use crate::config::{config_error_text, ConfigError, Provider, Settings};
use crate::instructions::{default_instruction, DEFAULT_INSTRUCTION};
use crate::text::{concat_str, is_blank, opt_view, str_is_blank};

verus! {

/// Where a run stands.
#[derive(Debug, Clone, Copy, PartialEq, Eq, Structural)]
pub enum Phase {
    SavingClipboard,
    CopyingSelection,
    WaitingAfterCopy,
    ReadingSelection,
    SelectingAll,
    WaitingAfterSelectAll,
    ReadingText,
    LoadingSettings,
    LoadingInstruction,
    DecryptingKey,
    Refining,
    WritingResult,
    WaitingBeforePaste,
    Pasting,
    WaitingBeforeRestore,
    Restoring,
    Finished,
}

/// Which client to build for the model call, and with what.
pub enum ClientPlan {
    /// OpenRouter at its own endpoint.
    OpenRouter { api_key: String, model: String, proxy_url: Option<String> },
    /// An OpenAI-compatible service at a configured endpoint.
    OpenRouterAt { api_key: String, model: String, proxy_url: Option<String>, base_url: String },
    /// Google's Gemini.
    Gemini { api_key: String, model: String, proxy_url: Option<String> },
}

/// The model call a run asks for.
pub struct RefineRequest {
    pub client: ClientPlan,
    pub instruction: String,
    pub text: String,
}

/// What the application is asked to do next.
pub enum Action {
    /// Read the clipboard's text.
    ReadClipboard,
    /// Send the copy shortcut.
    CopySelection,
    /// Send the select-all shortcut, then the copy shortcut.
    SelectAllAndCopy,
    /// Wait this many milliseconds.
    Sleep(u64),
    /// Load the settings.
    LoadSettings,
    /// Read the instruction file at this path.
    LoadInstruction(String),
    /// Unlock this stored key.
    DecryptKey(String),
    /// Build the client and ask the model.
    Refine(RefineRequest),
    /// Put this refined text on the clipboard.
    WriteClipboard(String),
    /// Send the paste shortcut.
    Paste,
    /// Put this saved text back on the clipboard.
    RestoreClipboard(String),
    /// The run is over, with this result.
    Finish(Result<(), String>),
}

/// How building the client and asking the model went.
pub enum RefineOutcome {
    /// The client could not be built, for this reason.
    ClientFailed(String),
    /// The model was asked; its refined text or the failure.
    Replied(Result<String, String>),
}

/// What the application reports after performing an action.
pub enum Event {
    /// The clipboard was read.
    ClipboardRead(Result<String, ClipboardError>),
    /// Shortcut keys were sent.
    KeysSent(Result<(), String>),
    /// The wait is over.
    Slept,
    /// The settings were loaded.
    SettingsLoaded(Result<Settings, ConfigError>),
    /// The instruction file was read; `None` where it could not be used.
    InstructionLoaded(Option<String>),
    /// The stored key was unlocked.
    KeyDecrypted(Result<String, ConfigError>),
    /// The model call is over.
    Refined(RefineOutcome),
    /// The clipboard was written.
    ClipboardWritten(Result<(), ClipboardError>),
}

/// The state of a run.
pub struct TextRun {
    pub phase: Phase,
    /// The clipboard content from before the run, to be put back.
    pub saved: String,
    /// The text to refine.
    pub text: String,
    /// The instruction to refine it with.
    pub instruction: String,
    /// The settings, once loaded.
    pub settings: Option<Settings>,
    /// Whether the paste was sent.
    pub paste_dispatched: bool,
    /// The result the run ends with, once known.
    pub outcome: Result<(), String>,
}

// ---------------------------------------------------------------------------
// Plain-value views
// ---------------------------------------------------------------------------

/// A client plan as plain values.
pub enum ClientPlanView {
    OpenRouter { api_key: Seq<char>, model: Seq<char>, proxy_url: Option<Seq<char>> },
    OpenRouterAt { api_key: Seq<char>, model: Seq<char>, proxy_url: Option<Seq<char>>, base_url: Seq<char> },
    Gemini { api_key: Seq<char>, model: Seq<char>, proxy_url: Option<Seq<char>> },
}

/// An action as plain values.
pub enum ActionView {
    ReadClipboard,
    CopySelection,
    SelectAllAndCopy,
    Sleep(u64),
    LoadSettings,
    LoadInstruction(Seq<char>),
    DecryptKey(Seq<char>),
    Refine { client: ClientPlanView, instruction: Seq<char>, text: Seq<char> },
    WriteClipboard(Seq<char>),
    Paste,
    RestoreClipboard(Seq<char>),
    Finish(Result<(), Seq<char>>),
}

/// A run's result as plain values.
pub open spec fn outcome_view(o: Result<(), String>) -> Result<(), Seq<char>> {
    match o {
        Ok(()) => Ok(()),
        Err(m) => Err(m@),
    }
}

/// A client plan as plain values.
pub open spec fn plan_view(p: ClientPlan) -> ClientPlanView {
    match p {
        ClientPlan::OpenRouter { api_key, model, proxy_url } => ClientPlanView::OpenRouter {
            api_key: api_key@,
            model: model@,
            proxy_url: opt_view(proxy_url),
        },
        ClientPlan::OpenRouterAt { api_key, model, proxy_url, base_url } => ClientPlanView::OpenRouterAt {
            api_key: api_key@,
            model: model@,
            proxy_url: opt_view(proxy_url),
            base_url: base_url@,
        },
        ClientPlan::Gemini { api_key, model, proxy_url } => ClientPlanView::Gemini {
            api_key: api_key@,
            model: model@,
            proxy_url: opt_view(proxy_url),
        },
    }
}

/// An action as plain values.
pub open spec fn action_view(a: Action) -> ActionView {
    match a {
        Action::ReadClipboard => ActionView::ReadClipboard,
        Action::CopySelection => ActionView::CopySelection,
        Action::SelectAllAndCopy => ActionView::SelectAllAndCopy,
        Action::Sleep(ms) => ActionView::Sleep(ms),
        Action::LoadSettings => ActionView::LoadSettings,
        Action::LoadInstruction(p) => ActionView::LoadInstruction(p@),
        Action::DecryptKey(k) => ActionView::DecryptKey(k@),
        Action::Refine(r) => ActionView::Refine {
            client: plan_view(r.client),
            instruction: r.instruction@,
            text: r.text@,
        },
        Action::WriteClipboard(t) => ActionView::WriteClipboard(t@),
        Action::Paste => ActionView::Paste,
        Action::RestoreClipboard(t) => ActionView::RestoreClipboard(t@),
        Action::Finish(o) => ActionView::Finish(outcome_view(o)),
    }
}

// ---------------------------------------------------------------------------
// Choosing the client
// ---------------------------------------------------------------------------

/// The client for `settings` with the unlocked key `api_key`: Gemini for
/// Google; for OpenRouter the configured endpoint where there is a
/// non-empty one, else OpenRouter's own.
pub open spec fn planned_client(settings: Settings, api_key: Seq<char>) -> ClientPlanView {
    match settings.provider {
        Provider::OpenRouter => match settings.api_base_url {
            Some(u) if u@.len() > 0 => ClientPlanView::OpenRouterAt {
                api_key: api_key,
                model: settings.model@,
                proxy_url: opt_view(settings.proxy_url),
                base_url: u@,
            },
            _ => ClientPlanView::OpenRouter {
                api_key: api_key,
                model: settings.model@,
                proxy_url: opt_view(settings.proxy_url),
            },
        },
        Provider::Google => ClientPlanView::Gemini {
            api_key: api_key,
            model: settings.model@,
            proxy_url: opt_view(settings.proxy_url),
        },
    }
}

/// A copy of an optional string.
fn copy_opt(o: &Option<String>) -> (res: Option<String>)
    ensures
        opt_view(res) == opt_view(*o),
{
    match o {
        Some(s) => Some(s.clone()),
        None => None,
    }
}

/// The key, model and proxy address a planned client is built with.
pub open spec fn plan_parts(p: ClientPlanView) -> (Seq<char>, Seq<char>, Option<Seq<char>>) {
    match p {
        ClientPlanView::OpenRouter { api_key, model, proxy_url } => (api_key, model, proxy_url),
        ClientPlanView::OpenRouterAt { api_key, model, proxy_url, .. } => (api_key, model, proxy_url),
        ClientPlanView::Gemini { api_key, model, proxy_url } => (api_key, model, proxy_url),
    }
}

/// Whatever the provider and endpoint, the planned client sends the
/// unlocked key, asks for the configured model and goes through the
/// configured proxy address; Google gets Gemini, and OpenRouter gets the
/// configured endpoint exactly when a non-empty one is set.
pub proof fn law_plan_keeps_settings(settings: Settings, api_key: Seq<char>)
    ensures
        plan_parts(planned_client(settings, api_key)) == (api_key, settings.model@, opt_view(
            settings.proxy_url,
        )),
        settings.provider == Provider::Google ==> planned_client(settings, api_key) is Gemini,
        settings.provider == Provider::OpenRouter ==> match settings.api_base_url {
            Some(u) if u@.len() > 0 => planned_client(settings, api_key) matches ClientPlanView::OpenRouterAt { base_url, .. } && base_url == u@,
            _ => planned_client(settings, api_key) is OpenRouter,
        },
{
}

/// The client to build for `settings` with the unlocked key `api_key`.
pub fn plan_client(settings: &Settings, api_key: String) -> (res: ClientPlan)
    ensures
        plan_view(res) == planned_client(*settings, api_key@),
        plan_parts(plan_view(res)) == (api_key@, settings.model@, opt_view(settings.proxy_url)),
{
    let model = settings.model.clone();
    let proxy_url = copy_opt(&settings.proxy_url);
    match settings.provider {
        Provider::OpenRouter => match &settings.api_base_url {
            Some(u) => {
                if u.as_str().is_empty() {
                    ClientPlan::OpenRouter { api_key, model, proxy_url }
                } else {
                    ClientPlan::OpenRouterAt { api_key, model, proxy_url, base_url: u.clone() }
                }
            },
            None => ClientPlan::OpenRouter { api_key, model, proxy_url },
        },
        Provider::Google => ClientPlan::Gemini { api_key, model, proxy_url },
    }
}

impl ClientPlan {
    /// Builds the planned client.
    pub fn connect(self) -> (res: Result<ApiClient, String>)
        ensures
            res matches Err(m) ==> exists|e: Seq<char>| m@ == "Failed to create HTTP client: "@ + e,
            res matches Ok(c) ==> match (plan_view(self), c) {
                (ClientPlanView::OpenRouter { api_key, model, proxy_url }, ApiClient::OpenRouter(o)) =>
                    o.key() == api_key && o.model_name() == model && o.endpoint()
                    == crate::api::OPENROUTER_URL@ && o.transport().timeout_secs() == Some(REQUEST_TIMEOUT_SECS)
                    && o.transport().proxy() == accepted_proxy(proxy_url),
                (ClientPlanView::OpenRouterAt { api_key, model, proxy_url, base_url }, ApiClient::OpenRouter(o)) =>
                    o.key() == api_key && o.model_name() == model && o.endpoint() == base_url
                    && o.transport().timeout_secs() == Some(REQUEST_TIMEOUT_SECS) && o.transport().proxy()
                    == accepted_proxy(proxy_url),
                (ClientPlanView::Gemini { api_key, model, proxy_url }, ApiClient::Google(g)) =>
                    g.key() == api_key && g.model_name() == model && g.transport().timeout_secs()
                    == Some(REQUEST_TIMEOUT_SECS) && g.transport().proxy() == accepted_proxy(proxy_url),
                _ => false,
            },
    {
        match self {
            ClientPlan::OpenRouter { api_key, model, proxy_url } => {
                let c = OpenRouterClient::new(api_key, model, proxy_url)?;
                Ok(ApiClient::OpenRouter(c))
            },
            ClientPlan::OpenRouterAt { api_key, model, proxy_url, base_url } => {
                let c = OpenRouterClient::new_with_url(api_key, model, proxy_url, base_url)?;
                Ok(ApiClient::OpenRouter(c))
            },
            ClientPlan::Gemini { api_key, model, proxy_url } => {
                let c = GeminiClient::new(api_key, model, proxy_url)?;
                Ok(ApiClient::Google(c))
            },
        }
    }
}


// ---------------------------------------------------------------------------
// The transitions
// ---------------------------------------------------------------------------

/// How long to wait after sending the copy shortcut.
pub const COPY_DELAY_MS: u64 = 100;

/// How long to wait after writing the refined text, before pasting.
pub const PASTE_DELAY_MS: u64 = 50;

/// Whether `event` is what the application reports in `phase`.
pub open spec fn event_fits(phase: Phase, event: Event) -> bool {
    match phase {
        Phase::SavingClipboard | Phase::ReadingSelection | Phase::ReadingText => event is ClipboardRead,
        Phase::CopyingSelection | Phase::SelectingAll | Phase::Pasting => event is KeysSent,
        Phase::WaitingAfterCopy | Phase::WaitingAfterSelectAll | Phase::WaitingBeforePaste
        | Phase::WaitingBeforeRestore => event is Slept,
        Phase::LoadingSettings => event is SettingsLoaded,
        Phase::LoadingInstruction => event is InstructionLoaded,
        Phase::DecryptingKey => event is KeyDecrypted,
        Phase::Refining => event is Refined,
        Phase::WritingResult | Phase::Restoring => event is ClipboardWritten,
        Phase::Finished => true,
    }
}

/// Whether `event` is what the application reports in `phase`.
pub fn event_fits_phase(phase: Phase, event: &Event) -> (res: bool)
    ensures
        res == event_fits(phase, *event),
{
    match phase {
        Phase::SavingClipboard | Phase::ReadingSelection | Phase::ReadingText => matches!(event, Event::ClipboardRead(_)),
        Phase::CopyingSelection | Phase::SelectingAll | Phase::Pasting => matches!(event, Event::KeysSent(_)),
        Phase::WaitingAfterCopy | Phase::WaitingAfterSelectAll | Phase::WaitingBeforePaste
        | Phase::WaitingBeforeRestore => matches!(event, Event::Slept),
        Phase::LoadingSettings => matches!(event, Event::SettingsLoaded(_)),
        Phase::LoadingInstruction => matches!(event, Event::InstructionLoaded(_)),
        Phase::DecryptingKey => matches!(event, Event::KeyDecrypted(_)),
        Phase::Refining => matches!(event, Event::Refined(_)),
        Phase::WritingResult | Phase::Restoring => matches!(event, Event::ClipboardWritten(_)),
        Phase::Finished => true,
    }
}

impl TextRun {
    /// The settings are there once loaded, and the text to refine is not
    /// blank once read.
    pub open spec fn wf(&self) -> bool {
        &&& (self.phase == Phase::LoadingInstruction || self.phase == Phase::DecryptingKey)
            ==> self.settings is Some
        &&& (self.phase == Phase::LoadingSettings || self.phase == Phase::LoadingInstruction
            || self.phase == Phase::DecryptingKey || self.phase == Phase::Refining) ==> !is_blank(
            self.text@,
        )
    }
}

/// `new` is `old` in phase `phase`, nothing else changed.
pub open spec fn moved_to(old: TextRun, new: TextRun, phase: Phase) -> bool {
    &&& new.phase == phase
    &&& new.saved == old.saved
    &&& new.text == old.text
    &&& new.instruction == old.instruction
    &&& new.settings == old.settings
    &&& new.paste_dispatched == old.paste_dispatched
    &&& new.outcome == old.outcome
}

/// The run ends with `outcome` (a paste sent or not): the result is
/// recorded, then the saved clipboard is put back, after a wait when a
/// paste was sent, and the run finishes.
pub open spec fn ended(old: TextRun, outcome: Result<(), Seq<char>>, dispatched: bool, new: TextRun, a: ActionView) -> bool {
    &&& new.saved == old.saved
    &&& new.text == old.text
    &&& new.instruction == old.instruction
    &&& new.settings == old.settings
    &&& new.paste_dispatched == dispatched
    &&& outcome_view(new.outcome) == outcome
    &&& if dispatched {
        new.phase == Phase::WaitingBeforeRestore && a == ActionView::Sleep(150)
    } else if old.saved@.len() > 0 {
        new.phase == Phase::Restoring && a == ActionView::RestoreClipboard(old.saved@)
    } else {
        new.phase == Phase::Finished && a == ActionView::Finish(outcome)
    }
}

/// The text a clipboard read gives, failures counting as empty.
pub open spec fn read_or_empty(r: Result<String, ClipboardError>) -> Seq<char> {
    match r {
        Ok(t) => t@,
        Err(_) => Seq::empty(),
    }
}

/// One step of a run: from `old`, on `event`, to `new`, asking for `a`.
pub open spec fn stepped(old: TextRun, event: Event, new: TextRun, a: ActionView) -> bool {
    match old.phase {
        Phase::SavingClipboard => match event {
            Event::ClipboardRead(r) => new.saved@ == read_or_empty(r) && new.phase
                == Phase::CopyingSelection && new.text == old.text && new.instruction
                == old.instruction && new.settings == old.settings && new.paste_dispatched
                == old.paste_dispatched && new.outcome == old.outcome && a
                == ActionView::CopySelection,
            _ => false,
        },
        Phase::CopyingSelection => match event {
            Event::KeysSent(Ok(())) => moved_to(old, new, Phase::WaitingAfterCopy) && a
                == ActionView::Sleep(100),
            Event::KeysSent(Err(m)) => ended(old, Err(m@), false, new, a),
            _ => false,
        },
        Phase::WaitingAfterCopy => moved_to(old, new, Phase::ReadingSelection) && a
            == ActionView::ReadClipboard,
        Phase::ReadingSelection => match event {
            Event::ClipboardRead(r) => {
                let selection = read_or_empty(r);
                if selection.len() > 0 && selection != old.saved@ {
                    moved_to(old, new, Phase::ReadingText) && a == ActionView::ReadClipboard
                } else {
                    moved_to(old, new, Phase::SelectingAll) && a == ActionView::SelectAllAndCopy
                }
            },
            _ => false,
        },
        Phase::SelectingAll => match event {
            Event::KeysSent(Ok(())) => moved_to(old, new, Phase::WaitingAfterSelectAll) && a
                == ActionView::Sleep(100),
            Event::KeysSent(Err(m)) => ended(old, Err(m@), false, new, a),
            _ => false,
        },
        Phase::WaitingAfterSelectAll => moved_to(old, new, Phase::ReadingText) && a
            == ActionView::ReadClipboard,
        Phase::ReadingText => match event {
            Event::ClipboardRead(Ok(t)) => if is_blank(t@) {
                ended(old, Ok(()), false, new, a)
            } else {
                new.text == t && new.phase == Phase::LoadingSettings && new.saved == old.saved
                    && new.instruction == old.instruction && new.settings == old.settings
                    && new.paste_dispatched == old.paste_dispatched && new.outcome == old.outcome
                    && a == ActionView::LoadSettings
            },
            Event::ClipboardRead(Err(e)) => ended(
                old,
                Err("Clipboard error: "@ + clipboard_error_text(&e)),
                false,
                new,
                a,
            ),
            _ => false,
        },
        Phase::LoadingSettings => match event {
            Event::SettingsLoaded(Ok(s)) => new.settings == Some(s) && new.phase
                == Phase::LoadingInstruction && new.saved == old.saved && new.text == old.text
                && new.instruction == old.instruction && new.paste_dispatched
                == old.paste_dispatched && new.outcome == old.outcome && a
                == ActionView::LoadInstruction(s.instruction_file@),
            Event::SettingsLoaded(Err(e)) => ended(
                old,
                Err("Config error: "@ + config_error_text(e@)),
                false,
                new,
                a,
            ),
            _ => false,
        },
        Phase::LoadingInstruction => match event {
            Event::InstructionLoaded(loaded) => {
                let instruction = match loaded {
                    Some(t) => t@,
                    None => DEFAULT_INSTRUCTION@,
                };
                let s = old.settings->0;
                &&& new.instruction@ == instruction
                &&& if s.api_key_encrypted@.len() == 0 {
                    ended(old, Err("API key missing"@), false, new.with_instruction(old.instruction), a)
                } else {
                    moved_to(old, new.with_instruction(old.instruction), Phase::DecryptingKey) && a
                        == ActionView::DecryptKey(s.api_key_encrypted@)
                }
            },
            _ => false,
        },
        Phase::DecryptingKey => match event {
            Event::KeyDecrypted(Ok(k)) => moved_to(old, new, Phase::Refining) && a
                == ActionView::Refine {
                client: planned_client(old.settings->0, k@),
                instruction: old.instruction@,
                text: old.text@,
            },
            Event::KeyDecrypted(Err(e)) => ended(
                old,
                Err("Failed to decrypt API key: "@ + config_error_text(e@)),
                false,
                new,
                a,
            ),
            _ => false,
        },
        Phase::Refining => match event {
            Event::Refined(RefineOutcome::ClientFailed(m)) => ended(
                old,
                Err("API client error: "@ + m@),
                false,
                new,
                a,
            ),
            Event::Refined(RefineOutcome::Replied(Ok(r))) => moved_to(old, new, Phase::WritingResult)
                && a == ActionView::WriteClipboard(r@),
            Event::Refined(RefineOutcome::Replied(Err(m))) => ended(
                old,
                Err("API error: "@ + m@),
                false,
                new,
                a,
            ),
            _ => false,
        },
        Phase::WritingResult => match event {
            Event::ClipboardWritten(Ok(())) => moved_to(old, new, Phase::WaitingBeforePaste) && a
                == ActionView::Sleep(50),
            Event::ClipboardWritten(Err(e)) => ended(
                old,
                Err("Clipboard error: "@ + clipboard_error_text(&e)),
                false,
                new,
                a,
            ),
            _ => false,
        },
        Phase::WaitingBeforePaste => moved_to(old, new, Phase::Pasting) && a == ActionView::Paste,
        Phase::Pasting => match event {
            Event::KeysSent(Ok(())) => ended(old, Ok(()), true, new, a),
            Event::KeysSent(Err(m)) => ended(old, Err(m@), false, new, a),
            _ => false,
        },
        Phase::WaitingBeforeRestore => if old.saved@.len() > 0 {
            moved_to(old, new, Phase::Restoring) && a == ActionView::RestoreClipboard(old.saved@)
        } else {
            moved_to(old, new, Phase::Finished) && a == ActionView::Finish(outcome_view(old.outcome))
        },
        Phase::Restoring => moved_to(old, new, Phase::Finished) && a == ActionView::Finish(
            outcome_view(old.outcome),
        ),
        Phase::Finished => moved_to(old, new, Phase::Finished) && a == ActionView::Finish(
            outcome_view(old.outcome),
        ),
    }
}

impl TextRun {
    /// This run with another instruction.
    pub open spec fn with_instruction(self, instruction: String) -> TextRun {
        TextRun { instruction, ..self }
    }

    /// A new run, and its first action: reading the clipboard to save it.
    pub fn start() -> (res: (TextRun, Action))
        ensures
            res.0.phase == Phase::SavingClipboard,
            res.0.wf(),
            res.0.saved@ == Seq::<char>::empty(),
            res.0.text@ == Seq::<char>::empty(),
            res.0.instruction@ == Seq::<char>::empty(),
            res.0.settings is None,
            !res.0.paste_dispatched,
            res.0.outcome is Ok,
            action_view(res.1) == ActionView::ReadClipboard,
    {
        (
            TextRun {
                phase: Phase::SavingClipboard,
                saved: String::new(),
                text: String::new(),
                instruction: String::new(),
                settings: None,
                paste_dispatched: false,
                outcome: Ok(()),
            },
            Action::ReadClipboard,
        )
    }

    /// A copy of the recorded result.
    fn outcome_copy(&self) -> (res: Result<(), String>)
        ensures
            outcome_view(res) == outcome_view(self.outcome),
    {
        match &self.outcome {
            Ok(()) => Ok(()),
            Err(m) => Err(m.clone()),
        }
    }

    /// Ends the run with `outcome`: records it and starts putting the
    /// clipboard back.
    fn end(&mut self, outcome: Result<(), String>, dispatched: bool) -> (a: Action)
        ensures
            ended(*old(self), outcome_view(outcome), dispatched, *final(self), action_view(a)),
    {
        self.paste_dispatched = dispatched;
        self.outcome = outcome;
        if dispatched {
            self.phase = Phase::WaitingBeforeRestore;
            Action::Sleep(crate::hotkey::RESTORE_PASTE_DELAY_MS)
        } else if !self.saved.as_str().is_empty() {
            self.phase = Phase::Restoring;
            Action::RestoreClipboard(self.saved.clone())
        } else {
            self.phase = Phase::Finished;
            Action::Finish(self.outcome_copy())
        }
    }

    /// The next state and action after `event`.
    pub fn step(&mut self, event: Event) -> (a: Action)
        requires
            old(self).wf(),
            event_fits(old(self).phase, event),
        ensures
            final(self).wf(),
            stepped(*old(self), event, *final(self), action_view(a)),
    {
        match self.phase {
            Phase::SavingClipboard => {
                self.saved = match event {
                    Event::ClipboardRead(Ok(t)) => t,
                    _ => String::new(),
                };
                self.phase = Phase::CopyingSelection;
                Action::CopySelection
            },
            Phase::CopyingSelection => match event {
                Event::KeysSent(Err(m)) => self.end(Err(m), false),
                _ => {
                    self.phase = Phase::WaitingAfterCopy;
                    Action::Sleep(COPY_DELAY_MS)
                },
            },
            Phase::WaitingAfterCopy => {
                self.phase = Phase::ReadingSelection;
                Action::ReadClipboard
            },
            Phase::ReadingSelection => {
                let selection = match event {
                    Event::ClipboardRead(Ok(t)) => t,
                    _ => String::new(),
                };
                if !selection.as_str().is_empty() && !(selection == self.saved) {
                    self.phase = Phase::ReadingText;
                    Action::ReadClipboard
                } else {
                    self.phase = Phase::SelectingAll;
                    Action::SelectAllAndCopy
                }
            },
            Phase::SelectingAll => match event {
                Event::KeysSent(Err(m)) => self.end(Err(m), false),
                _ => {
                    self.phase = Phase::WaitingAfterSelectAll;
                    Action::Sleep(COPY_DELAY_MS)
                },
            },
            Phase::WaitingAfterSelectAll => {
                self.phase = Phase::ReadingText;
                Action::ReadClipboard
            },
            Phase::ReadingText => match event {
                Event::ClipboardRead(Ok(t)) => {
                    if str_is_blank(t.as_str()) {
                        self.end(Ok(()), false)
                    } else {
                        self.text = t;
                        self.phase = Phase::LoadingSettings;
                        Action::LoadSettings
                    }
                },
                Event::ClipboardRead(Err(e)) => {
                    let m = concat_str("Clipboard error: ", e.to_string().as_str());
                    self.end(Err(m), false)
                },
                _ => Action::LoadSettings,
            },
            Phase::LoadingSettings => match event {
                Event::SettingsLoaded(Ok(s)) => {
                    let path = s.instruction_file.clone();
                    self.settings = Some(s);
                    self.phase = Phase::LoadingInstruction;
                    Action::LoadInstruction(path)
                },
                Event::SettingsLoaded(Err(e)) => {
                    let m = concat_str("Config error: ", e.to_string().as_str());
                    self.end(Err(m), false)
                },
                _ => Action::LoadSettings,
            },
            Phase::LoadingInstruction => {
                let loaded = match event {
                    Event::InstructionLoaded(o) => o,
                    _ => None,
                };
                let instruction = match loaded {
                    Some(t) => t,
                    None => default_instruction(),
                };
                let encrypted = match &self.settings {
                    Some(s) => s.api_key_encrypted.clone(),
                    None => String::new(),
                };
                if encrypted.as_str().is_empty() {
                    let a = self.end(Err("API key missing".to_string()), false);
                    self.instruction = instruction;
                    a
                } else {
                    self.instruction = instruction;
                    self.phase = Phase::DecryptingKey;
                    Action::DecryptKey(encrypted)
                }
            },
            Phase::DecryptingKey => match event {
                Event::KeyDecrypted(Ok(k)) => {
                    let client = match &self.settings {
                        Some(s) => plan_client(s, k),
                        None => ClientPlan::OpenRouter { api_key: k, model: String::new(), proxy_url: None },
                    };
                    self.phase = Phase::Refining;
                    Action::Refine(
                        RefineRequest {
                            client,
                            instruction: self.instruction.clone(),
                            text: self.text.clone(),
                        },
                    )
                },
                Event::KeyDecrypted(Err(e)) => {
                    let m = concat_str("Failed to decrypt API key: ", e.to_string().as_str());
                    self.end(Err(m), false)
                },
                _ => Action::LoadSettings,
            },
            Phase::Refining => match event {
                Event::Refined(RefineOutcome::ClientFailed(m)) => {
                    let msg = concat_str("API client error: ", m.as_str());
                    self.end(Err(msg), false)
                },
                Event::Refined(RefineOutcome::Replied(Ok(r))) => {
                    self.phase = Phase::WritingResult;
                    Action::WriteClipboard(r)
                },
                Event::Refined(RefineOutcome::Replied(Err(m))) => {
                    let msg = concat_str("API error: ", m.as_str());
                    self.end(Err(msg), false)
                },
                _ => Action::LoadSettings,
            },
            Phase::WritingResult => match event {
                Event::ClipboardWritten(Err(e)) => {
                    let m = concat_str("Clipboard error: ", e.to_string().as_str());
                    self.end(Err(m), false)
                },
                _ => {
                    self.phase = Phase::WaitingBeforePaste;
                    Action::Sleep(PASTE_DELAY_MS)
                },
            },
            Phase::WaitingBeforePaste => {
                self.phase = Phase::Pasting;
                Action::Paste
            },
            Phase::Pasting => match event {
                Event::KeysSent(Err(m)) => self.end(Err(m), false),
                _ => self.end(Ok(()), true),
            },
            Phase::WaitingBeforeRestore => {
                if !self.saved.as_str().is_empty() {
                    self.phase = Phase::Restoring;
                    Action::RestoreClipboard(self.saved.clone())
                } else {
                    self.phase = Phase::Finished;
                    Action::Finish(self.outcome_copy())
                }
            },
            Phase::Restoring | Phase::Finished => {
                self.phase = Phase::Finished;
                Action::Finish(self.outcome_copy())
            },
        }
    }
}


// ---------------------------------------------------------------------------
// What every run keeps to
// ---------------------------------------------------------------------------

/// The paste is sent only after the refined text was put on the clipboard:
/// a step asks for the paste only from the wait that follows a successful
/// write of the result, and that wait is entered only from such a write.
pub proof fn law_paste_follows_written_result(old: TextRun, event: Event, new: TextRun, a: ActionView)
    requires
        stepped(old, event, new, a),
    ensures
        a == ActionView::Paste ==> old.phase == Phase::WaitingBeforePaste,
        new.phase == Phase::WaitingBeforePaste ==> old.phase == Phase::WritingResult
            && event matches Event::ClipboardWritten(Ok(())),
{
}

/// A run that saved a non-empty clipboard does not finish before putting it
/// back: a step that finishes a run comes from the restoring phase, or the
/// saved content was empty, or the run had already finished. The content
/// put back is the saved one, and after a paste only once the wait is over.
pub proof fn law_clipboard_put_back(old: TextRun, event: Event, new: TextRun, a: ActionView)
    requires
        stepped(old, event, new, a),
    ensures
        a is Finish && old.phase != Phase::Finished ==> old.phase == Phase::Restoring
            || old.saved@.len() == 0,
        a matches ActionView::RestoreClipboard(t) ==> t == old.saved@ && old.saved@.len() > 0,
        a is RestoreClipboard && new.paste_dispatched ==> old.phase == Phase::WaitingBeforeRestore,
{
}

/// The model is asked only with the key just unlocked, the client the
/// settings call for, the loaded instruction, and text that is not blank.
pub proof fn law_model_gets_unlocked_key(old: TextRun, event: Event, new: TextRun, a: ActionView)
    requires
        old.wf(),
        stepped(old, event, new, a),
    ensures
        a matches ActionView::Refine { client, instruction, text } ==> {
            &&& old.phase == Phase::DecryptingKey
            &&& event matches Event::KeyDecrypted(Ok(k)) && client == planned_client(old.settings->0, k@)
            &&& instruction == old.instruction@
            &&& text == old.text@
            &&& !is_blank(text)
        },
{
}

/// When sending keys fails (the copy, the select-all-and-copy or the
/// paste), the run ends with that failure: it goes on to no wait, read or
/// model call, records `Err(m)`, sends no paste afterwards, and next puts
/// the saved clipboard back, or finishes with `Err(m)` when nothing was
/// saved.
pub proof fn law_key_failure_ends_run(old: TextRun, m: String, new: TextRun, a: ActionView)
    requires
        old.phase == Phase::CopyingSelection || old.phase == Phase::SelectingAll || old.phase
            == Phase::Pasting,
        stepped(old, Event::KeysSent(Err(m)), new, a),
    ensures
        outcome_view(new.outcome) == Err::<(), Seq<char>>(m@),
        !new.paste_dispatched,
        new.saved == old.saved,
        old.saved@.len() > 0 ==> new.phase == Phase::Restoring && a == ActionView::RestoreClipboard(
            old.saved@,
        ),
        old.saved@.len() == 0 ==> new.phase == Phase::Finished && a == ActionView::Finish(
            Err(m@),
        ),
{
}

/// A finished run stays finished and keeps reporting the result it ended with.
pub proof fn law_finished_is_final(old: TextRun, event: Event, new: TextRun, a: ActionView)
    requires
        stepped(old, event, new, a),
        old.phase == Phase::Finished,
    ensures
        new.phase == Phase::Finished,
        a == ActionView::Finish(outcome_view(old.outcome)),
        new.outcome == old.outcome,
{
}

} // verus!
