use lkmv::main_page::{MainMenu, MainPageKeyOutcome, MainPageState, MainPanel};
use lkmv::setup_flow::{
    admin_pin_or_default, setup_header, token_selection_choice, token_selection_next,
    token_selection_prev, user_pin_or_default, BIP32PhraseAskChoice, BIP32PhraseShow,
    ChoiceKeyOutcome, ConfigImport, DIDKeysAsk, DIDKeysDecision, DIDKeysExportAsk,
    DIDKeysExportShow, DIDKeysExportState, DIDKeysShow, ExportShowKey, HeaderTone, KeyPress,
    KeysShowKey, MediatorAsk, PersonaKey, PhraseShowKey, SetupPage, TokenChoice, UnlockCodeWarn,
};
use lkmv::setup_page::{BIP32Choice, ChoicePanel, KeyRecoveryState, SetupPageState, SetupPages};
use lkmv::state::{ActivePage, Interrupted};

#[test]
fn switching_twice_returns_to_start() {
    for c in [BIP32PhraseAskChoice::Create, BIP32PhraseAskChoice::Import] {
        assert_ne!(c.switch(), c);
        assert_eq!(c.switch().switch(), c);
    }
    assert_eq!(DIDKeysAsk::Create.switch(), DIDKeysAsk::Import);
    assert_eq!(DIDKeysExportAsk::Skip.switch(), DIDKeysExportAsk::Export);
    assert_eq!(MediatorAsk::Custom.switch(), MediatorAsk::Default);
    assert_eq!(UnlockCodeWarn::UseCode.switch(), UnlockCodeWarn::AckRisk);
    assert_eq!(MainPanel::MainMenu.switch(), MainPanel::ContentPanel);
    assert_eq!(MainPanel::ContentPanel.switch().switch(), MainPanel::ContentPanel);
    assert_eq!(ChoicePanel::Left.switch(), ChoicePanel::Right);
    assert_eq!(BIP32Choice::Import.switch(), BIP32Choice::Create);
}

#[test]
fn choice_defaults() {
    assert_eq!(BIP32PhraseAskChoice::default(), BIP32PhraseAskChoice::Create);
    assert_eq!(DIDKeysExportAsk::default(), DIDKeysExportAsk::Skip);
    assert_eq!(MediatorAsk::default(), MediatorAsk::Default);
    assert_eq!(UnlockCodeWarn::default(), UnlockCodeWarn::UseCode);
    assert_eq!(SetupPage::default(), SetupPage::StartAsk);
    assert_eq!(KeyRecoveryState::default().active_choice, BIP32Choice::Create);
    assert_eq!(
        SetupPageState::default().active_page,
        SetupPages::Choice(lkmv::setup_page::ChoiceState { active_panel: ChoicePanel::Left })
    );
    assert_eq!(ActivePage::default(), ActivePage::Main);
    let export = DIDKeysExportState::default();
    assert!(export.messages.is_empty() && export.exported.is_none());
}

#[test]
fn choice_keys() {
    let c = MediatorAsk::Default;
    assert_eq!(c.on_key(KeyPress::Function(10)), ChoiceKeyOutcome::Quit);
    assert_eq!(c.on_key(KeyPress::Tab), ChoiceKeyOutcome::Selected(MediatorAsk::Custom));
    assert_eq!(c.on_key(KeyPress::Up), ChoiceKeyOutcome::Selected(MediatorAsk::Custom));
    assert_eq!(c.on_key(KeyPress::Down), ChoiceKeyOutcome::Selected(MediatorAsk::Custom));
    assert_eq!(c.on_key(KeyPress::Enter), ChoiceKeyOutcome::Confirmed(MediatorAsk::Default));
    assert_eq!(c.on_key(KeyPress::Function(9)), ChoiceKeyOutcome::Ignored);
    assert_eq!(c.on_key(KeyPress::Char('x')), ChoiceKeyOutcome::Ignored);
}

#[test]
fn confirmed_answers_lead_to_next_pages() {
    assert_eq!(BIP32PhraseAskChoice::Create.next_page(), SetupPage::BIP32PhraseShow);
    assert_eq!(BIP32PhraseAskChoice::Import.next_page(), SetupPage::BIP32PhraseImport);
    assert_eq!(DIDKeysAsk::Create.decision(), DIDKeysDecision::DeriveKeys);
    assert_eq!(DIDKeysAsk::Import.decision(), DIDKeysDecision::GoTo(SetupPage::DidKeysImport));
    assert_eq!(DIDKeysExportAsk::Skip.next_page(), SetupPage::TokenStart);
    assert_eq!(DIDKeysExportAsk::Export.next_page(), SetupPage::DidKeysExportInputs);
    assert_eq!(MediatorAsk::Default.next_page(), SetupPage::UserName);
    assert_eq!(MediatorAsk::Custom.next_page(), SetupPage::MediatorCustom);
    assert_eq!(UnlockCodeWarn::UseCode.next_page(), SetupPage::UnlockCodeSet);
    assert_eq!(UnlockCodeWarn::AckRisk.next_page(), SetupPage::MediatorAsk);
}

#[test]
fn result_pages_keys() {
    assert_eq!(BIP32PhraseShow::on_key(KeyPress::Char('C')), PhraseShowKey::CopyPhrase);
    assert_eq!(BIP32PhraseShow::on_key(KeyPress::Enter), PhraseShowKey::DeriveKeys);
    assert_eq!(BIP32PhraseShow::on_key(KeyPress::Function(10)), PhraseShowKey::Quit);
    let mut show = BIP32PhraseShow::default();
    assert!(!show.copied());
    show.mark_copied();
    assert!(show.copied());

    assert_eq!(DIDKeysShow::on_key(KeyPress::Char('2')), KeysShowKey::Copy(PersonaKey::Authentication));
    assert_eq!(DIDKeysShow::on_key(KeyPress::Char('4')), KeysShowKey::Ignored);
    assert_eq!(DIDKeysShow::on_key(KeyPress::Enter), KeysShowKey::GoTo(SetupPage::DidKeysExportAsk));
    let mut keys = DIDKeysShow::default();
    assert_eq!(keys.show_clipboard_copy, 0);
    keys.mark_copied(PersonaKey::Decryption);
    assert_eq!(keys.show_clipboard_copy, 3);

    assert_eq!(DIDKeysExportShow::on_key(KeyPress::Char('c')), ExportShowKey::CopyExport);
    assert_eq!(DIDKeysExportShow::on_key(KeyPress::Enter), ExportShowKey::GoTo(SetupPage::TokenStart));
    let mut export = DIDKeysExportShow::default();
    export.mark_copied();
    assert!(export.copied());

    assert!(ConfigImport::quits_on(KeyPress::Function(10)));
    assert!(!ConfigImport::quits_on(KeyPress::Enter));
}

#[test]
fn setup_header_sections() {
    let start = setup_header(SetupPage::StartAsk);
    assert_eq!(start.step, 1);
    assert_eq!(start.spans[0].text, "● Choice");
    assert_eq!(start.spans[0].tone, HeaderTone::Active);
    assert_eq!(start.spans.len(), 3);
    assert_eq!(start.spans[2].text, " → ○ Identity → ○ Verify ");

    let keys = setup_header(SetupPage::DIDKeysShow);
    assert_eq!(keys.step, 2);
    let texts: Vec<&str> = keys.spans.iter().map(|s| s.text.as_str()).collect();
    assert_eq!(
        texts,
        vec!["✓ Choice", " → ", "● Key Management", " → ○ Security", " → ○ Identity → ○ Verify "]
    );

    assert_eq!(setup_header(SetupPage::ConfigImport).step, 2);
    assert_eq!(setup_header(SetupPage::UnlockCodeWarn).step, 3);
    assert_eq!(setup_header(SetupPage::MediatorCustom).step, 4);
    let user = setup_header(SetupPage::UserName);
    assert_eq!(user.step, 5);
    assert_eq!(user.spans.len(), 10);
    assert_eq!(user.spans[8].text, "● Identity");
    let fin = setup_header(SetupPage::FinalPage);
    assert_eq!(fin.step, 0);
    assert_eq!(fin.spans[1].tone, HeaderTone::Pending);
}

#[test]
fn token_list_navigation_wraps() {
    assert_eq!(token_selection_next(0, 2), 1);
    assert_eq!(token_selection_next(2, 2), 0);
    assert_eq!(token_selection_prev(0, 2), 2);
    assert_eq!(token_selection_prev(1, 2), 0);
    assert_eq!(token_selection_next(0, 0), 0);
    for s in 0..=3 {
        assert_eq!(token_selection_prev(token_selection_next(s, 3), 3), s);
    }
    assert_eq!(token_selection_choice(2, 2), TokenChoice::NoToken);
    assert_eq!(token_selection_choice(1, 2), TokenChoice::Token(1));
}

#[test]
fn default_pins() {
    assert_eq!(admin_pin_or_default(""), "12345678");
    assert_eq!(admin_pin_or_default("87654321"), "87654321");
    assert_eq!(user_pin_or_default(""), "123456");
    assert_eq!(user_pin_or_default("654321"), "654321");
}

#[test]
fn main_page_keys_and_panels() {
    let mut state = MainPageState::default();
    assert_eq!(state.on_key(KeyPress::Tab), MainPageKeyOutcome::SwitchPanel(MainPanel::MainMenu));
    state.activate_main_menu();
    assert!(state.menu_panel.selected && !state.content_panel.selected);
    assert_eq!(state.on_key(KeyPress::Down), MainPageKeyOutcome::SelectMenu(MainMenu::Help));
    assert_eq!(state.on_key(KeyPress::Up), MainPageKeyOutcome::SelectMenu(MainMenu::Quit));
    assert_eq!(state.on_key(KeyPress::Tab), MainPageKeyOutcome::SwitchPanel(MainPanel::ContentPanel));
    assert_eq!(state.on_key(KeyPress::Enter), MainPageKeyOutcome::SwitchPanel(MainPanel::ContentPanel));
    state.switch_panel(MainPanel::ContentPanel);
    assert!(!state.menu_panel.selected && state.content_panel.selected);
    assert_eq!(state.on_key(KeyPress::Up), MainPageKeyOutcome::Ignored);
    assert_eq!(state.on_key(KeyPress::Enter), MainPageKeyOutcome::Ignored);
    state.select_menu(MainMenu::Quit);
    assert_eq!(state.on_key(KeyPress::Enter), MainPageKeyOutcome::Quit);
    assert_eq!(state.on_key(KeyPress::Function(10)), MainPageKeyOutcome::Quit);
    assert_eq!(MainMenu::Quit.next(), MainMenu::Settings);
    assert_eq!(MainMenu::Settings.prev().next(), MainMenu::Settings);
}

#[test]
fn exit_messages() {
    assert_eq!(Interrupted::UserInt.exit_message(), "exited per user request");
    assert_eq!(Interrupted::OsSigInt.exit_message(), "exited because of an os sig int");
    assert_eq!(Interrupted::SystemError.exit_message(), "exited because of a system error");
}
