//! The application state and how the actions sent by the user interface
//! change it.
//!
//! The state handler runs a loop: it receives an action, updates the state and
//! sends the new state back to the user interface. The update of the state is
//! [step]; the loop itself, and the work that needs hardware tokens, key
//! derivation or the network, belong to the caller.

use crate::config::ConfigProtectionType;
use crate::main_page::{MainMenu, MainPageState, MainPanel};
use crate::recovery_phrase::BIP32_39;
use crate::setup_flow::{DIDKeysExportState, SetupPage};
use crate::state::{ActivePage, Interrupted};
use vstd::prelude::*;

verus! {

/// Whether a step of the setup has finished, and how.
#[derive(Clone, Copy, Debug, PartialEq, Eq, Structural)]
pub enum Completion {
    NotFinished,
    CompletedOK,
    CompletedFail,
}

/// A progress message shown on a setup page.
#[derive(Clone, Debug)]
pub enum SetupMessage {
    Info(String),
    Error(String),
}

/// What a progress message says: whether it reports an error, and its text.
pub open spec fn setup_message_view(m: SetupMessage) -> (bool, Seq<char>) {
    match m {
        SetupMessage::Info(t) => (false, t@),
        SetupMessage::Error(t) => (true, t@),
    }
}

/// What a list of progress messages says.
pub open spec fn setup_messages_view(v: Seq<SetupMessage>) -> Seq<(bool, Seq<char>)> {
    v.map_values(|m: SetupMessage| setup_message_view(m))
}

/// Progress of a setup step that runs outside the state handler (importing
/// a configuration backup, creating the profile).
#[derive(Clone, Debug)]
pub struct ProgressState {
    pub messages: Vec<SetupMessage>,
    pub completed: Completion,
}

impl Default for ProgressState {
    fn default() -> (state: Self)
        ensures
            state.messages@.len() == 0,
            state.completed == Completion::NotFinished,
    {
        ProgressState { messages: Vec::new(), completed: Completion::NotFinished }
    }
}

/// The WebVH DID of the persona: its DID, its DID document (JSON) and how
/// creating or resolving it went.
#[derive(Clone, Debug)]
pub struct WebVHState {
    pub did: String,
    pub document: String,
    pub messages: Vec<SetupMessage>,
    pub completed: Completion,
}

impl Default for WebVHState {
    fn default() -> (state: Self)
        ensures
            state.did@.len() == 0,
            state.document@.len() == 0,
            state.messages@.len() == 0,
            state.completed == Completion::NotFinished,
    {
        WebVHState {
            did: String::new(),
            document: String::new(),
            messages: Vec::new(),
            completed: Completion::NotFinished,
        }
    }
}

/// The key IDs of the persona DID keys. The secrets themselves are held by
/// the caller's secrets resolver.
#[derive(Clone, Debug)]
pub struct PersonaKeyIds {
    pub signing: String,
    pub authentication: String,
    pub decryption: String,
}

/// Hardware tokens that were found connected: how many, and the messages of
/// the last search.
#[derive(Clone, Debug)]
pub struct DetectedTokens {
    pub count: usize,
    pub messages: Vec<String>,
}

/// Progress of resetting a hardware token and writing the keys to it.
#[derive(Clone, Debug)]
pub struct TokenResetState {
    pub messages: Vec<SetupMessage>,
    pub completed_reset: bool,
    pub completed_writing: bool,
}

/// Progress of a hardware token setting (touch policy, cardholder name).
#[derive(Clone, Debug)]
pub struct TokenStepState {
    pub messages: Vec<SetupMessage>,
    pub completed: bool,
}

/// State of the setup sequence that the state handler keeps.
#[derive(Clone, Debug)]
pub struct SetupState {
    pub active_page: SetupPage,
    /// BIP32 mnemonic to use
    pub mnemonic: BIP32_39,
    /// How the configuration will be protected
    pub protection: ConfigProtectionType,
    /// DID Keys
    pub did_keys: Option<PersonaKeyIds>,
    /// Contains the PGP formatted export of DID keys if user selected to export
    pub did_keys_export: DIDKeysExportState,
    /// Progress of importing a configuration backup
    pub config_import: ProgressState,
    /// Has the user selected to use a custom Mediator?
    pub custom_mediator: Option<String>,
    /// What username is the user using?
    pub username: String,
    /// The WebVH DID and where it is hosted
    pub webvh_address: WebVHState,
    /// Progress of creating the profile
    pub final_page: ProgressState,
    /// PGP Hardware Tokens that are connected
    pub tokens: DetectedTokens,
    /// Progress of the token factory reset and key writing
    pub token_reset: TokenResetState,
    /// Progress of setting the token's touch policy
    pub token_set_touch: TokenStepState,
    /// Progress of setting the token's cardholder name
    pub token_cardholder_name: TokenStepState,
}

impl Default for SetupState {
    fn default() -> (state: Self)
        ensures
            state.active_page == SetupPage::StartAsk,
            state.mnemonic@.len() == 32,
            state.protection is Encrypted,
            state.did_keys is None,
            state.did_keys_export.messages@.len() == 0,
            state.did_keys_export.exported is None,
            state.config_import.messages@.len() == 0,
            state.config_import.completed == Completion::NotFinished,
            state.custom_mediator is None,
            state.username@.len() == 0,
            state.webvh_address.did@.len() == 0,
            state.webvh_address.messages@.len() == 0,
            state.webvh_address.completed == Completion::NotFinished,
            state.final_page.messages@.len() == 0,
            state.final_page.completed == Completion::NotFinished,
    {
        SetupState {
            active_page: SetupPage::StartAsk,
            mnemonic: BIP32_39::default(),
            protection: ConfigProtectionType::default(),
            did_keys: None,
            did_keys_export: DIDKeysExportState::default(),
            config_import: ProgressState::default(),
            custom_mediator: None,
            username: String::new(),
            webvh_address: WebVHState::default(),
            final_page: ProgressState::default(),
            tokens: DetectedTokens { count: 0, messages: Vec::new() },
            token_reset: TokenResetState {
                messages: Vec::new(),
                completed_reset: false,
                completed_writing: false,
            },
            token_set_touch: TokenStepState { messages: Vec::new(), completed: false },
            token_cardholder_name: TokenStepState { messages: Vec::new(), completed: false },
        }
    }
}

/// State holds the state of the application (it holds the token admin PIN,
/// so it has no debug text)
#[derive(Clone)]
pub struct State {
    pub active_page: ActivePage,
    pub main_page: MainPageState,
    pub setup: SetupState,
    /// Hardware token Admin PIN
    pub token_admin_pin: Option<String>,
}

impl Default for State {
    fn default() -> (state: Self)
        ensures
            state.active_page == ActivePage::Main,
            !state.main_page.menu_panel.selected,
            !state.main_page.content_panel.selected,
            state.setup.active_page == SetupPage::StartAsk,
            state.token_admin_pin is None,
    {
        State {
            active_page: ActivePage::Main,
            main_page: MainPageState::default(),
            setup: SetupState::default(),
            token_admin_pin: None,
        }
    }
}

/// Actions that the user interface sends to the state handler, and the
/// results of the work that the caller does for it. (An action may carry the
/// token admin PIN, so it has no debug text.)
pub enum Action {
    Exit,
    /// An unrecoverable error has occurred on the UX Side
    UXError(Interrupted),
    /// Switch to the main menu
    ActivateMainMenu,
    /// A main menu item has been selected
    MainMenuSelected(MainMenu),
    /// Active Panel switched to
    MainPanelSwitch(MainPanel),
    /// Importing a configuration backup has started
    ImportConfigStarted,
    /// Importing a configuration backup has finished, or failed for the
    /// given reason
    ImportConfigFinished(Result<(), String>),
    /// Set the configuration protection, then go to the given page
    SetProtection(ConfigProtectionType, SetupPage),
    /// Sets the DID Persona Keys
    SetDIDKeys(PersonaKeyIds),
    /// Exporting the DID private keys has started
    DIDKeysExportStarted,
    /// Exporting the DID private keys has finished: the armored export, or
    /// the message that describes why it failed
    DIDKeysExportFinished(Result<String, String>),
    /// Using a custom mediator DID
    SetCustomMediator(String),
    /// What username to be known as
    SetUsername(String),
    /// Creating the WebVH DID has finished: the DID, its document and the
    /// persona keys renamed for it, or why it failed
    WebVHDIDCreated(Result<(String, String, PersonaKeyIds), String>),
    /// Reset the WebVH DID state
    ResetWebVHDID,
    /// Resolving the DID has finished: its document, or why it failed
    WebVHDIDResolved(String, Result<String, String>),
    /// Final setup step started, with the WebVH hosting address
    SetupCompleted(String),
    /// Creating the profile configuration has finished, or failed for the
    /// given reason
    SetupFinished(Result<(), String>),
    /// Looking for connected hardware tokens has finished: how many were
    /// found, or why the search failed
    TokensFound(Result<usize, String>),
    /// Use the hardware token `0` with the admin PIN `1`
    SetAdminPin(String, String),
    /// Factory resetting the token has finished (`None`: no token was chosen)
    FactoryResetDone(Option<Result<(), String>>),
    /// Writing the keys to the token has finished (`None`: no token was chosen)
    TokenKeysWritten(Option<Result<(), String>>),
    /// Setting the touch policy has finished (`None`: no token was chosen)
    TouchPolicySet(Option<Result<(), String>>),
    /// Setting the cardholder name has finished (`None`: no token was chosen)
    CardholderNameSet(Option<Result<(), String>>),
}

/// The message added when a key export starts.
pub open spec fn export_started_text() -> Seq<char> {
    "Starting key export..."@
}

/// The message added when a key export completes.
pub open spec fn export_completed_text() -> Seq<char> {
    "Key export completed"@
}

/// The export messages after an export finished: the failure reason, if it
/// failed, and the completion message when an export is at hand.
pub open spec fn export_finished_messages(
    before: Seq<Seq<char>>,
    failure: Option<Seq<char>>,
    exported: bool,
) -> Seq<Seq<char>> {
    let reported = match failure {
        Some(reason) => before.push(reason),
        None => before,
    };
    if exported {
        reported.push(export_completed_text())
    } else {
        reported
    }
}

/// Whether an action stops the state handler's loop, and with what reason.
pub open spec fn stop_reason(action: Action) -> Option<Interrupted> {
    match action {
        Action::Exit => Some(Interrupted::UserInt),
        Action::UXError(reason) => Some(reason),
        _ => None,
    }
}

/// The messages of the final setup page when creating the profile starts.
pub open spec fn setup_started_messages() -> Seq<(bool, Seq<char>)> {
    seq![
        (false, "Generating your profile configuration..."@),
        (false, "Securing sensitive data for storage..."@),
        (false, "Your device may prompt for authentication to access OS secure storage."@),
    ]
}

/// The progress message and completion that the result of an outside step
/// leads to: `ok` on success, `failed` followed by the reason otherwise.
pub open spec fn outcome_message(result: Result<(), Seq<char>>, ok: Seq<char>, failed: Seq<char>) -> (
    (bool, Seq<char>),
    Completion,
) {
    match result {
        Ok(_) => ((false, ok), Completion::CompletedOK),
        Err(reason) => ((true, failed + reason), Completion::CompletedFail),
    }
}

/// Whether the progress `after` is `before` with `message` added and the
/// step completed as `completed`.
pub open spec fn progressed(
    before_messages: Seq<SetupMessage>,
    after: Seq<SetupMessage>,
    outcome: ((bool, Seq<char>), Completion),
    completed: Completion,
) -> bool {
    &&& setup_messages_view(after) == setup_messages_view(before_messages).push(outcome.0)
    &&& completed == outcome.1
}

/// The progress messages of a hardware token step: the failure text followed
/// by the reason when it failed, the given message when no token was chosen,
/// nothing when it succeeded.
pub open spec fn token_step_messages(result: Option<Result<(), String>>, failed: Seq<char>) -> Seq<
    (bool, Seq<char>),
> {
    match result {
        None => seq![(true, "No token was specified."@)],
        Some(Ok(_)) => Seq::empty(),
        Some(Err(e)) => seq![(true, failed + e@)],
    }
}

/// The progress messages of a token factory reset.
pub open spec fn factory_reset_messages(result: Option<Result<(), String>>) -> Seq<(bool, Seq<char>)> {
    match result {
        None => seq![(true, "No token was specified."@)],
        Some(Ok(_)) => seq![
            (false, "Starting factory reset..."@),
            (false, "Factory reset completed successfully."@),
        ],
        Some(Err(e)) => seq![
            (false, "Starting factory reset..."@),
            (true, "Factory reset failed: "@ + e@),
        ],
    }
}

/// The progress messages of writing the keys to a token.
pub open spec fn keys_written_messages(result: Option<Result<(), String>>) -> Seq<(bool, Seq<char>)> {
    match result {
        None => seq![(true, "No token was specified."@)],
        Some(Ok(_)) => seq![(false, "Keys written to token successfully."@)],
        Some(Err(e)) => seq![(true, "Error writing keys to token: "@ + e@)],
    }
}

/// Whether an action is the result of work on a hardware token.
pub open spec fn is_token_event(action: Action) -> bool {
    ||| action is TokensFound
    ||| action is SetAdminPin
    ||| action is FactoryResetDone
    ||| action is TokenKeysWritten
    ||| action is TouchPolicySet
    ||| action is CardholderNameSet
}

/// How the result of work on a hardware token changes the state from
/// `before` to `after`.
pub open spec fn token_event_effect(before: State, after: State, action: Action) -> bool {
    match action {
            Action::TokensFound(result) => {
                &&& after == (State {
                    setup: SetupState {
                        active_page: SetupPage::TokenSelect,
                        tokens: after.setup.tokens,
                        ..before.setup
                    },
                    ..before
                })
                &&& match result {
                    Ok(count) => after.setup.tokens.count == count
                        && after.setup.tokens.messages == before.setup.tokens.messages,
                    Err(e) => after.setup.tokens.count == 0
                        && after.setup.tokens.messages@.map_values(|m: String| m@)
                        == seq!["Error fetching tokens: "@ + e@],
                }
            },
            Action::SetAdminPin(token, pin) => after == (State {
                setup: SetupState {
                    protection: ConfigProtectionType::Token(token),
                    active_page: SetupPage::TokenFactoryReset,
                    ..before.setup
                },
                token_admin_pin: Some(pin),
                ..before
            }),
            Action::FactoryResetDone(result) => {
                &&& after == (State {
                    setup: SetupState {
                        active_page: SetupPage::TokenFactoryReset,
                        token_reset: TokenResetState {
                            messages: after.setup.token_reset.messages,
                            completed_reset: (match result {
                                Some(Ok(_)) => true,
                                _ => before.setup.token_reset.completed_reset,
                            }),
                            ..before.setup.token_reset
                        },
                        ..before.setup
                    },
                    ..before
                })
                &&& setup_messages_view(after.setup.token_reset.messages@)
                    == setup_messages_view(before.setup.token_reset.messages@)
                    + factory_reset_messages(result)
            },
            Action::TokenKeysWritten(result) => {
                &&& after == (State {
                    setup: SetupState {
                        token_reset: TokenResetState {
                            messages: after.setup.token_reset.messages,
                            completed_writing: (match result {
                                Some(Ok(_)) => true,
                                _ => before.setup.token_reset.completed_writing,
                            }),
                            ..before.setup.token_reset
                        },
                        ..before.setup
                    },
                    ..before
                })
                &&& setup_messages_view(after.setup.token_reset.messages@)
                    == setup_messages_view(before.setup.token_reset.messages@)
                    + keys_written_messages(result)
            },
            Action::TouchPolicySet(result) => {
                &&& after == (State {
                    setup: SetupState {
                        active_page: SetupPage::TokenSetTouch,
                        token_set_touch: TokenStepState {
                            messages: after.setup.token_set_touch.messages,
                            completed: true,
                        },
                        ..before.setup
                    },
                    ..before
                })
                &&& setup_messages_view(after.setup.token_set_touch.messages@)
                    == setup_messages_view(before.setup.token_set_touch.messages@)
                    + token_step_messages(result, "An error occurred when setting touch policy: "@)
            },
            Action::CardholderNameSet(result) => {
                &&& after == (State {
                    setup: SetupState {
                        active_page: SetupPage::TokenSetCardholderName,
                        token_cardholder_name: TokenStepState {
                            messages: after.setup.token_cardholder_name.messages,
                            completed: true,
                        },
                        ..before.setup
                    },
                    ..before
                })
                &&& setup_messages_view(after.setup.token_cardholder_name.messages@)
                    == setup_messages_view(before.setup.token_cardholder_name.messages@)
                    + token_step_messages(
                    result,
                    "An error occurred when setting cardholder name: "@,
                )
            },
            _ => true,
    }
}

/// What the result of an outside step is, without its payload.
pub open spec fn result_view<T>(r: Result<T, String>) -> Result<(), Seq<char>> {
    match r {
        Ok(_) => Ok(()),
        Err(e) => Err(e@),
    }
}

/// Applies an action to the application state. Returns the reason to stop
/// when the action ends the state handler's loop.
#[verifier::rlimit(60)]
#[verifier::spinoff_prover]
pub fn step(state: &mut State, action: Action) -> (stop: Option<Interrupted>)
    ensures
        stop == stop_reason(action),
        match action {
            Action::Exit | Action::UXError(_) => *final(state) == *old(state),
            Action::ActivateMainMenu => {
                &&& final(state).active_page == ActivePage::Main
                &&& final(state).main_page.menu_panel.selected
                &&& !final(state).main_page.content_panel.selected
                &&& final(state).main_page.menu_panel.selected_menu
                    == old(state).main_page.menu_panel.selected_menu
                &&& final(state).setup == old(state).setup
            },
            Action::MainMenuSelected(item) => {
                &&& final(state).main_page.menu_panel.selected_menu == item
                &&& final(state).main_page.menu_panel.selected
                    == old(state).main_page.menu_panel.selected
                &&& final(state).main_page.content_panel == old(state).main_page.content_panel
                &&& final(state).active_page == old(state).active_page
                &&& final(state).setup == old(state).setup
            },
            Action::MainPanelSwitch(panel) => {
                &&& final(state).main_page.menu_panel.selected == (panel == MainPanel::MainMenu)
                &&& final(state).main_page.content_panel.selected == (panel
                    == MainPanel::ContentPanel)
                &&& final(state).main_page.menu_panel.selected_menu
                    == old(state).main_page.menu_panel.selected_menu
                &&& final(state).active_page == old(state).active_page
                &&& final(state).setup == old(state).setup
            },
            Action::ImportConfigStarted => *final(state) == (State {
                setup: SetupState { active_page: SetupPage::ConfigImport, ..old(state).setup },
                ..*old(state)
            }),
            Action::ImportConfigFinished(result) => {
                &&& *final(state) == (State {
                    setup: SetupState { config_import: final(state).setup.config_import, ..old(state).setup },
                    ..*old(state)
                })
                &&& progressed(
                    old(state).setup.config_import.messages@,
                    final(state).setup.config_import.messages@,
                    outcome_message(
                        result_view(result),
                        "Configuration import completed successfully."@,
                        "Importing Config failed: "@,
                    ),
                    final(state).setup.config_import.completed,
                )
            },
            Action::SetProtection(protection, next_page) => *final(state) == (State {
                setup: SetupState { protection, active_page: next_page, ..old(state).setup },
                ..*old(state)
            }),
            Action::SetDIDKeys(keys) => *final(state) == (State {
                setup: SetupState {
                    did_keys: Some(keys),
                    active_page: SetupPage::DIDKeysShow,
                    ..old(state).setup
                },
                ..*old(state)
            }),
            Action::DIDKeysExportStarted => {
                &&& *final(state) == (State {
                    setup: SetupState {
                        active_page: SetupPage::DidKeysExportShow,
                        did_keys_export: final(state).setup.did_keys_export,
                        ..old(state).setup
                    },
                    ..*old(state)
                })
                &&& final(state).setup.did_keys_export.messages@.map_values(|m: String| m@)
                    == old(state).setup.did_keys_export.messages@.map_values(|m: String| m@).push(
                    export_started_text(),
                )
                &&& final(state).setup.did_keys_export.exported
                    == old(state).setup.did_keys_export.exported
            },
            Action::DIDKeysExportFinished(result) => {
                &&& *final(state) == (State {
                    setup: SetupState {
                        did_keys_export: final(state).setup.did_keys_export,
                        ..old(state).setup
                    },
                    ..*old(state)
                })
                &&& final(state).setup.did_keys_export.exported == (match result {
                    Ok(armored) => Some(armored),
                    Err(_) => old(state).setup.did_keys_export.exported,
                })
                &&& final(state).setup.did_keys_export.messages@.map_values(|m: String| m@)
                    == export_finished_messages(
                    old(state).setup.did_keys_export.messages@.map_values(|m: String| m@),
                    (match result {
                        Ok(_) => None,
                        Err(reason) => Some(reason@),
                    }),
                    final(state).setup.did_keys_export.exported is Some,
                )
            },
            Action::SetCustomMediator(mediator_did) => *final(state) == (State {
                setup: SetupState {
                    custom_mediator: Some(mediator_did),
                    active_page: SetupPage::UserName,
                    ..old(state).setup
                },
                ..*old(state)
            }),
            Action::SetUsername(username) => *final(state) == (State {
                setup: SetupState {
                    username,
                    active_page: SetupPage::WebVHAddress,
                    ..old(state).setup
                },
                ..*old(state)
            }),
            Action::WebVHDIDCreated(result) => {
                &&& *final(state) == (State {
                    setup: SetupState {
                        webvh_address: WebVHState {
                            messages: final(state).setup.webvh_address.messages,
                            completed: final(state).setup.webvh_address.completed,
                            did: final(state).setup.webvh_address.did,
                            document: final(state).setup.webvh_address.document,
                        },
                        did_keys: final(state).setup.did_keys,
                        ..old(state).setup
                    },
                    ..*old(state)
                })
                &&& progressed(
                    old(state).setup.webvh_address.messages@,
                    final(state).setup.webvh_address.messages@,
                    outcome_message(
                        result_view(result),
                        "WebVH DID created successfully."@,
                        "Error creating WebVH DID: "@,
                    ),
                    final(state).setup.webvh_address.completed,
                )
                &&& match result {
                    Ok((did, document, keys)) => {
                        &&& final(state).setup.webvh_address.did == did
                        &&& final(state).setup.webvh_address.document == document
                        &&& final(state).setup.did_keys == Some(keys)
                    },
                    Err(_) => {
                        &&& final(state).setup.webvh_address.did == old(state).setup.webvh_address.did
                        &&& final(state).setup.webvh_address.document
                            == old(state).setup.webvh_address.document
                        &&& final(state).setup.did_keys == old(state).setup.did_keys
                    },
                }
            },
            Action::ResetWebVHDID => {
                &&& *final(state) == (State {
                    setup: SetupState {
                        webvh_address: WebVHState {
                            messages: final(state).setup.webvh_address.messages,
                            completed: Completion::NotFinished,
                            ..old(state).setup.webvh_address
                        },
                        ..old(state).setup
                    },
                    ..*old(state)
                })
                &&& final(state).setup.webvh_address.messages@.len() == 0
            },
            Action::WebVHDIDResolved(did, result) => {
                &&& *final(state) == (State {
                    setup: SetupState {
                        webvh_address: WebVHState {
                            messages: final(state).setup.webvh_address.messages,
                            completed: final(state).setup.webvh_address.completed,
                            did: final(state).setup.webvh_address.did,
                            document: final(state).setup.webvh_address.document,
                        },
                        did_keys: final(state).setup.did_keys,
                        ..old(state).setup
                    },
                    ..*old(state)
                })
                &&& progressed(
                    old(state).setup.webvh_address.messages@,
                    final(state).setup.webvh_address.messages@,
                    outcome_message(
                        result_view(result),
                        "Your DID resolved successfully."@,
                        "Error resolving DID: "@,
                    ),
                    final(state).setup.webvh_address.completed,
                )
                &&& match result {
                    Ok(document) => {
                        &&& final(state).setup.webvh_address.did == did
                        &&& final(state).setup.webvh_address.document == document
                        &&& match old(state).setup.did_keys {
                            Some(_) => final(state).setup.did_keys matches Some(k) && k.signing@
                                == did@ + "#key-1"@ && k.authentication@ == did@ + "#key-2"@
                                && k.decryption@ == did@ + "#key-3"@,
                            None => final(state).setup.did_keys is None,
                        }
                    },
                    Err(_) => {
                        &&& final(state).setup.webvh_address.did == old(state).setup.webvh_address.did
                        &&& final(state).setup.webvh_address.document
                            == old(state).setup.webvh_address.document
                        &&& final(state).setup.did_keys == old(state).setup.did_keys
                    },
                }
            },
            Action::SetupCompleted(_) => {
                &&& *final(state) == (State {
                    setup: SetupState {
                        active_page: SetupPage::FinalPage,
                        final_page: ProgressState {
                            messages: final(state).setup.final_page.messages,
                            ..old(state).setup.final_page
                        },
                        ..old(state).setup
                    },
                    ..*old(state)
                })
                &&& setup_messages_view(final(state).setup.final_page.messages@)
                    == setup_messages_view(old(state).setup.final_page.messages@)
                    + setup_started_messages()
            },
            Action::SetupFinished(result) => {
                &&& *final(state) == (State {
                    setup: SetupState { final_page: final(state).setup.final_page, ..old(state).setup },
                    ..*old(state)
                })
                &&& progressed(
                    old(state).setup.final_page.messages@,
                    final(state).setup.final_page.messages@,
                    outcome_message(
                        result_view(result),
                        "Profile setup completed successfully."@,
                        "Couldn't create LKMV configuration. Reason: "@,
                    ),
                    final(state).setup.final_page.completed,
                )
            },
            _ => token_event_effect(*old(state), *final(state), action),
        },
{
    match action {
        Action::Exit => Some(Interrupted::UserInt),
        Action::UXError(interrupted) => Some(interrupted),
        Action::ActivateMainMenu => {
            state.active_page = ActivePage::Main;
            state.main_page.activate_main_menu();
            None
        },
        Action::MainMenuSelected(menu_item) => {
            state.main_page.select_menu(menu_item);
            None
        },
        Action::MainPanelSwitch(panel) => {
            state.main_page.switch_panel(panel);
            None
        },
        Action::ImportConfigStarted => {
            state.setup.active_page = SetupPage::ConfigImport;
            None
        },
        Action::ImportConfigFinished(result) => {
            record_outcome(
                &mut state.setup.config_import.messages,
                &mut state.setup.config_import.completed,
                result,
                "Configuration import completed successfully.",
                "Importing Config failed: ",
            );
            None
        },
        Action::SetProtection(protection, next_page) => {
            state.setup.protection = protection;
            state.setup.active_page = next_page;
            None
        },
        Action::SetDIDKeys(keys) => {
            state.setup.did_keys = Some(keys);
            state.setup.active_page = SetupPage::DIDKeysShow;
            None
        },
        Action::DIDKeysExportStarted => {
            state.setup.active_page = SetupPage::DidKeysExportShow;
            let ghost before = state.setup.did_keys_export.messages@;
            state.setup.did_keys_export.messages.push("Starting key export...".to_owned());
            proof {
                lemma_push_views(before, state.setup.did_keys_export.messages@);
            }
            None
        },
        Action::DIDKeysExportFinished(result) => {
            let ghost before = state.setup.did_keys_export.messages@;
            match result {
                Ok(armored) => {
                    state.setup.did_keys_export.exported = Some(armored);
                },
                Err(reason) => {
                    state.setup.did_keys_export.messages.push(reason);
                    proof {
                        lemma_push_views(before, state.setup.did_keys_export.messages@);
                    }
                },
            }
            let ghost middle = state.setup.did_keys_export.messages@;
            if state.setup.did_keys_export.exported.is_some() {
                state.setup.did_keys_export.messages.push("Key export completed".to_owned());
                proof {
                    lemma_push_views(middle, state.setup.did_keys_export.messages@);
                }
            }
            None
        },
        Action::SetCustomMediator(mediator_did) => {
            state.setup.custom_mediator = Some(mediator_did);
            state.setup.active_page = SetupPage::UserName;
            None
        },
        Action::SetUsername(username) => {
            state.setup.username = username;
            state.setup.active_page = SetupPage::WebVHAddress;
            None
        },
        Action::WebVHDIDCreated(result) => {
            match result {
                Ok((did, document, keys)) => {
                    state.setup.webvh_address.did = did;
                    state.setup.webvh_address.document = document;
                    state.setup.did_keys = Some(keys);
                    state.setup.webvh_address.completed = Completion::CompletedOK;
                    push_setup_message(
                        &mut state.setup.webvh_address.messages,
                        SetupMessage::Info("WebVH DID created successfully.".to_owned()),
                    );
                },
                Err(reason) => {
                    state.setup.webvh_address.completed = Completion::CompletedFail;
                    push_setup_message(
                        &mut state.setup.webvh_address.messages,
                        SetupMessage::Error(
                            "Error creating WebVH DID: ".to_owned().concat(reason.as_str()),
                        ),
                    );
                },
            }
            None
        },
        Action::ResetWebVHDID => {
            state.setup.webvh_address.messages = Vec::new();
            state.setup.webvh_address.completed = Completion::NotFinished;
            None
        },
        Action::WebVHDIDResolved(did, result) => {
            match result {
                Ok(document) => {
                    let renamed = match &state.setup.did_keys {
                        Some(_) => Some(
                            PersonaKeyIds {
                                signing: did.clone().concat("#key-1"),
                                authentication: did.clone().concat("#key-2"),
                                decryption: did.clone().concat("#key-3"),
                            },
                        ),
                        None => None,
                    };
                    state.setup.did_keys = renamed;
                    state.setup.webvh_address.did = did;
                    state.setup.webvh_address.document = document;
                    state.setup.webvh_address.completed = Completion::CompletedOK;
                    push_setup_message(
                        &mut state.setup.webvh_address.messages,
                        SetupMessage::Info("Your DID resolved successfully.".to_owned()),
                    );
                },
                Err(reason) => {
                    state.setup.webvh_address.completed = Completion::CompletedFail;
                    push_setup_message(
                        &mut state.setup.webvh_address.messages,
                        SetupMessage::Error("Error resolving DID: ".to_owned().concat(reason.as_str())),
                    );
                },
            }
            None
        },
        Action::SetupCompleted(_) => {
            state.setup.active_page = SetupPage::FinalPage;
            let ghost before = state.setup.final_page.messages@;
            push_setup_message(
                &mut state.setup.final_page.messages,
                SetupMessage::Info("Generating your profile configuration...".to_owned()),
            );
            push_setup_message(
                &mut state.setup.final_page.messages,
                SetupMessage::Info("Securing sensitive data for storage...".to_owned()),
            );
            push_setup_message(
                &mut state.setup.final_page.messages,
                SetupMessage::Info(
                    "Your device may prompt for authentication to access OS secure storage.".to_owned(),
                ),
            );
            assert(setup_messages_view(state.setup.final_page.messages@) =~= setup_messages_view(
                before,
            ) + setup_started_messages());
            None
        },
        Action::SetupFinished(result) => {
            record_outcome(
                &mut state.setup.final_page.messages,
                &mut state.setup.final_page.completed,
                result,
                "Profile setup completed successfully.",
                "Couldn't create LKMV configuration. Reason: ",
            );
            None
        },
        _ => {
            apply_token_event(state, action);
            None
        },
    }
}

/// Records the result of a hardware token setting; the step counts as
/// completed either way.
fn record_token_step(step: &mut TokenStepState, result: Option<Result<(), String>>, failed: &str)
    ensures
        final(step).completed,
        setup_messages_view(final(step).messages@) == setup_messages_view(old(step).messages@)
            + token_step_messages(result, failed@),
{
    let ghost before = step.messages@;
    match result {
        Some(Ok(())) => {},
        Some(Err(reason)) => {
            push_setup_message(
                &mut step.messages,
                SetupMessage::Error(failed.to_owned().concat(reason.as_str())),
            );
        },
        None => {
            push_setup_message(
                &mut step.messages,
                SetupMessage::Error("No token was specified.".to_owned()),
            );
        },
    }
    assert(setup_messages_view(step.messages@) =~= setup_messages_view(before)
        + token_step_messages(result, failed@));
    step.completed = true;
}

/// Applies the result of work on a hardware token.
#[verifier::rlimit(100)]
#[verifier::spinoff_prover]
fn apply_token_event(state: &mut State, action: Action)
    requires
        is_token_event(action),
    ensures
        token_event_effect(*old(state), *final(state), action),
{
    match action {
        Action::TokensFound(result) => {
            state.setup.active_page = SetupPage::TokenSelect;
            match result {
                Ok(count) => {
                    state.setup.tokens.count = count;
                },
                Err(reason) => {
                    let mut messages: Vec<String> = Vec::new();
                    messages.push("Error fetching tokens: ".to_owned().concat(reason.as_str()));
                    assert(messages@.map_values(|m: String| m@) =~= seq![
                        "Error fetching tokens: "@ + reason@,
                    ]);
                    state.setup.tokens.messages = messages;
                    state.setup.tokens.count = 0;
                },
            }
        },
        Action::SetAdminPin(token, pin) => {
            state.setup.protection = ConfigProtectionType::Token(token);
            state.token_admin_pin = Some(pin);
            state.setup.active_page = SetupPage::TokenFactoryReset;
        },
        Action::FactoryResetDone(result) => {
            let ghost before = state.setup.token_reset.messages@;
            match result {
                Some(done) => {
                    push_setup_message(
                        &mut state.setup.token_reset.messages,
                        SetupMessage::Info("Starting factory reset...".to_owned()),
                    );
                    match done {
                        Ok(()) => {
                            push_setup_message(
                                &mut state.setup.token_reset.messages,
                                SetupMessage::Info("Factory reset completed successfully.".to_owned()),
                            );
                            state.setup.token_reset.completed_reset = true;
                        },
                        Err(reason) => {
                            push_setup_message(
                                &mut state.setup.token_reset.messages,
                                SetupMessage::Error(
                                    "Factory reset failed: ".to_owned().concat(reason.as_str()),
                                ),
                            );
                        },
                    }
                },
                None => {
                    push_setup_message(
                        &mut state.setup.token_reset.messages,
                        SetupMessage::Error("No token was specified.".to_owned()),
                    );
                },
            }
            assert(setup_messages_view(state.setup.token_reset.messages@) =~= setup_messages_view(
                before,
            ) + factory_reset_messages(result));
            state.setup.active_page = SetupPage::TokenFactoryReset;
        },
        Action::TokenKeysWritten(result) => {
            let ghost before = state.setup.token_reset.messages@;
            match result {
                Some(Ok(())) => {
                    push_setup_message(
                        &mut state.setup.token_reset.messages,
                        SetupMessage::Info("Keys written to token successfully.".to_owned()),
                    );
                    state.setup.token_reset.completed_writing = true;
                },
                Some(Err(reason)) => {
                    push_setup_message(
                        &mut state.setup.token_reset.messages,
                        SetupMessage::Error(
                            "Error writing keys to token: ".to_owned().concat(reason.as_str()),
                        ),
                    );
                },
                None => {
                    push_setup_message(
                        &mut state.setup.token_reset.messages,
                        SetupMessage::Error("No token was specified.".to_owned()),
                    );
                },
            }
            assert(setup_messages_view(state.setup.token_reset.messages@) =~= setup_messages_view(
                before,
            ) + keys_written_messages(result));
        },
        Action::TouchPolicySet(result) => {
            state.setup.active_page = SetupPage::TokenSetTouch;
            record_token_step(
                &mut state.setup.token_set_touch,
                result,
                "An error occurred when setting touch policy: ",
            );
        },
        Action::CardholderNameSet(result) => {
            state.setup.active_page = SetupPage::TokenSetCardholderName;
            record_token_step(
                &mut state.setup.token_cardholder_name,
                result,
                "An error occurred when setting cardholder name: ",
            );
        },
        _ => {},
    }
}

/// Adds a progress message.
fn push_setup_message(messages: &mut Vec<SetupMessage>, message: SetupMessage)
    ensures
        setup_messages_view(final(messages)@) == setup_messages_view(old(messages)@).push(
            setup_message_view(message),
        ),
{
    let ghost before = messages@;
    messages.push(message);
    assert(setup_messages_view(messages@) =~= setup_messages_view(before).push(
        setup_message_view(message),
    ));
}

/// Records the result of an outside step: the success message, or the
/// failure text followed by the reason, and the completion.
fn record_outcome(
    messages: &mut Vec<SetupMessage>,
    completed: &mut Completion,
    result: Result<(), String>,
    ok: &str,
    failed: &str,
)
    ensures
        progressed(
            old(messages)@,
            final(messages)@,
            outcome_message(result_view(result), ok@, failed@),
            *final(completed),
        ),
{
    match result {
        Ok(()) => {
            *completed = Completion::CompletedOK;
            push_setup_message(messages, SetupMessage::Info(ok.to_owned()));
        },
        Err(reason) => {
            *completed = Completion::CompletedFail;
            push_setup_message(messages, SetupMessage::Error(failed.to_owned().concat(reason.as_str())));
        },
    }
}

proof fn lemma_push_views(before: Seq<String>, after: Seq<String>)
    requires
        after.len() == before.len() + 1,
        forall|i: int| 0 <= i < before.len() ==> after[i] == before[i],
    ensures
        after.map_values(|m: String| m@) == before.map_values(|m: String| m@).push(
            after.last()@,
        ),
{
    assert(after.map_values(|m: String| m@) =~= before.map_values(|m: String| m@).push(
        after.last()@,
    ));
}

/// Whether the public configuration of the profile could be loaded at
/// start-up.
#[derive(Clone, Copy, Debug, PartialEq, Eq, Structural)]
pub enum ConfigLoad {
    Loaded,
    NotFound,
    Failed,
}

/// The page the application starts on: the main page when the profile's
/// configuration was loaded, the setup wizard when there is none yet; a
/// configuration that exists but cannot be loaded stops the application with
/// a system error.
pub fn startup_page(load: ConfigLoad) -> (res: Result<ActivePage, Interrupted>)
    ensures
        res == (match load {
            ConfigLoad::Loaded => Ok::<ActivePage, Interrupted>(ActivePage::Main),
            ConfigLoad::NotFound => Ok(ActivePage::Setup),
            ConfigLoad::Failed => Err(Interrupted::SystemError),
        }),
{
    match load {
        ConfigLoad::Loaded => Ok(ActivePage::Main),
        ConfigLoad::NotFound => Ok(ActivePage::Setup),
        ConfigLoad::Failed => Err(Interrupted::SystemError),
    }
}

} // verus!
