use lkmv::config::ConfigProtectionType;
use lkmv::state_handler::{Completion, PersonaKeyIds, SetupMessage};
use lkmv::main_page::{MainMenu, MainPanel};
use lkmv::setup_flow::SetupPage;
use lkmv::state::{ActivePage, Interrupted};
use lkmv::state_handler::{startup_page, step, Action, ConfigLoad, State};

#[test]
fn exit_stops_with_user_interrupt_and_keeps_state() {
    let mut state = State::default();
    assert_eq!(step(&mut state, Action::Exit), Some(Interrupted::UserInt));
    assert_eq!(state.active_page, ActivePage::Main);
    assert!(!state.main_page.menu_panel.selected);
}

#[test]
fn ux_error_stops_with_its_reason() {
    let mut state = State::default();
    assert_eq!(
        step(&mut state, Action::UXError(Interrupted::SystemError)),
        Some(Interrupted::SystemError)
    );
    assert_eq!(
        step(&mut state, Action::UXError(Interrupted::OsSigInt)),
        Some(Interrupted::OsSigInt)
    );
}

#[test]
fn activate_main_menu_selects_the_menu_panel() {
    let mut state = State::default();
    state.active_page = ActivePage::Setup;
    state.main_page.content_panel.selected = true;
    assert_eq!(step(&mut state, Action::ActivateMainMenu), None);
    assert_eq!(state.active_page, ActivePage::Main);
    assert!(state.main_page.menu_panel.selected);
    assert!(!state.main_page.content_panel.selected);
}

#[test]
fn main_menu_selection_moves_the_highlight_only() {
    let mut state = State::default();
    assert_eq!(step(&mut state, Action::MainMenuSelected(MainMenu::Help)), None);
    assert_eq!(state.main_page.menu_panel.selected_menu, MainMenu::Help);
    assert!(!state.main_page.menu_panel.selected);
    assert_eq!(state.active_page, ActivePage::Main);
}

#[test]
fn panel_switch_selects_exactly_one_panel() {
    let mut state = State::default();
    assert_eq!(step(&mut state, Action::MainPanelSwitch(MainPanel::ContentPanel)), None);
    assert!(state.main_page.content_panel.selected);
    assert!(!state.main_page.menu_panel.selected);
    assert_eq!(step(&mut state, Action::MainPanelSwitch(MainPanel::MainMenu)), None);
    assert!(state.main_page.menu_panel.selected);
    assert!(!state.main_page.content_panel.selected);
}

#[test]
fn key_export_started_then_finished() {
    let mut state = State::default();
    assert_eq!(step(&mut state, Action::DIDKeysExportStarted), None);
    assert_eq!(state.setup.active_page, SetupPage::DidKeysExportShow);
    assert_eq!(state.setup.did_keys_export.messages, vec!["Starting key export...".to_string()]);
    assert_eq!(
        step(&mut state, Action::DIDKeysExportFinished(Ok("-----BEGIN PGP-----".to_string()))),
        None
    );
    assert_eq!(
        state.setup.did_keys_export.messages,
        vec!["Starting key export...".to_string(), "Key export completed".to_string()]
    );
    assert_eq!(state.setup.did_keys_export.exported, Some("-----BEGIN PGP-----".to_string()));
    assert_eq!(state.setup.active_page, SetupPage::DidKeysExportShow);
}

#[test]
fn failed_key_export_records_the_reason() {
    let mut state = State::default();
    step(&mut state, Action::DIDKeysExportStarted);
    step(&mut state, Action::DIDKeysExportFinished(Err("no passphrase".to_string())));
    assert_eq!(
        state.setup.did_keys_export.messages,
        vec!["Starting key export...".to_string(), "no passphrase".to_string()]
    );
    assert_eq!(state.setup.did_keys_export.exported, None);
}

#[test]
fn custom_mediator_then_username_advance_the_setup() {
    let mut state = State::default();
    assert_eq!(step(&mut state, Action::SetCustomMediator("did:web:mediator.example".to_string())), None);
    assert_eq!(state.setup.custom_mediator, Some("did:web:mediator.example".to_string()));
    assert_eq!(state.setup.active_page, SetupPage::UserName);
    assert_eq!(step(&mut state, Action::SetUsername("ada".to_string())), None);
    assert_eq!(state.setup.username, "ada");
    assert_eq!(state.setup.active_page, SetupPage::WebVHAddress);
    assert_eq!(state.setup.custom_mediator, Some("did:web:mediator.example".to_string()));
}

#[test]
fn startup_page_follows_the_configuration() {
    assert_eq!(startup_page(ConfigLoad::Loaded), Ok(ActivePage::Main));
    assert_eq!(startup_page(ConfigLoad::NotFound), Ok(ActivePage::Setup));
    assert_eq!(startup_page(ConfigLoad::Failed), Err(Interrupted::SystemError));
}

#[test]
fn failed_export_after_a_successful_one_keeps_the_earlier_export() {
    let mut state = State::default();
    step(&mut state, Action::DIDKeysExportStarted);
    step(&mut state, Action::DIDKeysExportFinished(Ok("armored".to_string())));
    step(&mut state, Action::DIDKeysExportFinished(Err("boom".to_string())));
    assert_eq!(state.setup.did_keys_export.exported, Some("armored".to_string()));
    assert_eq!(
        state.setup.did_keys_export.messages,
        vec![
            "Starting key export...".to_string(),
            "Key export completed".to_string(),
            "boom".to_string(),
            "Key export completed".to_string()
        ]
    );
}

#[test]
fn config_import_progress() {
    let mut state = State::default();
    step(&mut state, Action::ImportConfigStarted);
    assert_eq!(state.setup.active_page, SetupPage::ConfigImport);
    step(&mut state, Action::ImportConfigFinished(Err("bad passphrase".to_string())));
    assert_eq!(state.setup.config_import.completed, Completion::CompletedFail);
    assert!(matches!(&state.setup.config_import.messages[0], SetupMessage::Error(m) if m == "Importing Config failed: bad passphrase"));
    step(&mut state, Action::ImportConfigFinished(Ok(())));
    assert_eq!(state.setup.config_import.completed, Completion::CompletedOK);
    assert!(matches!(&state.setup.config_import.messages[1], SetupMessage::Info(m) if m == "Configuration import completed successfully."));
}

#[test]
fn webvh_did_resolution_renames_the_keys() {
    let mut state = State::default();
    step(
        &mut state,
        Action::SetDIDKeys(PersonaKeyIds {
            signing: "z6Mk1".to_string(),
            authentication: "z6Mk2".to_string(),
            decryption: "z6LS3".to_string(),
        }),
    );
    assert_eq!(state.setup.active_page, SetupPage::DIDKeysShow);
    step(&mut state, Action::WebVHDIDResolved("did:webvh:ada".to_string(), Ok("{}".to_string())));
    let keys = state.setup.did_keys.clone().unwrap();
    assert_eq!(keys.signing, "did:webvh:ada#key-1");
    assert_eq!(keys.authentication, "did:webvh:ada#key-2");
    assert_eq!(keys.decryption, "did:webvh:ada#key-3");
    assert_eq!(state.setup.webvh_address.did, "did:webvh:ada");
    assert_eq!(state.setup.webvh_address.completed, Completion::CompletedOK);
    step(&mut state, Action::ResetWebVHDID);
    assert!(state.setup.webvh_address.messages.is_empty());
    assert_eq!(state.setup.webvh_address.completed, Completion::NotFinished);
    step(&mut state, Action::WebVHDIDCreated(Err("offline".to_string())));
    assert_eq!(state.setup.webvh_address.completed, Completion::CompletedFail);
}

#[test]
fn setup_completion_messages() {
    let mut state = State::default();
    step(&mut state, Action::SetupCompleted("ada.example.com".to_string()));
    assert_eq!(state.setup.active_page, SetupPage::FinalPage);
    assert_eq!(state.setup.final_page.messages.len(), 3);
    step(&mut state, Action::SetupFinished(Ok(())));
    assert_eq!(state.setup.final_page.completed, Completion::CompletedOK);
    assert!(matches!(&state.setup.final_page.messages[3], SetupMessage::Info(m) if m == "Profile setup completed successfully."));
}

#[test]
fn token_events() {
    let mut state = State::default();
    step(&mut state, Action::TokensFound(Err("no pcsc".to_string())));
    assert_eq!(state.setup.active_page, SetupPage::TokenSelect);
    assert_eq!(state.setup.tokens.messages, vec!["Error fetching tokens: no pcsc".to_string()]);
    step(&mut state, Action::SetAdminPin("0006:1234".to_string(), "12345678".to_string()));
    assert!(matches!(&state.setup.protection, ConfigProtectionType::Token(t) if t == "0006:1234"));
    assert_eq!(state.token_admin_pin.as_deref(), Some("12345678"));
    assert_eq!(state.setup.active_page, SetupPage::TokenFactoryReset);
    step(&mut state, Action::FactoryResetDone(Some(Ok(()))));
    assert!(state.setup.token_reset.completed_reset);
    assert_eq!(state.setup.token_reset.messages.len(), 2);
    step(&mut state, Action::TokenKeysWritten(None));
    assert!(!state.setup.token_reset.completed_writing);
    step(&mut state, Action::TouchPolicySet(Some(Err("denied".to_string()))));
    assert!(state.setup.token_set_touch.completed);
    assert_eq!(state.setup.token_set_touch.messages.len(), 1);
}
