//! The setup wizard: its pages, the choices asked on them, what each key
//! press does, and the progress header shown above every page.
//!
//! Terminal input and drawing are done by the caller; this module holds the
//! decisions.

use crate::recovery_phrase::{bip39_phrase_parse, BIP32_39};
use crate::state_handler::SetupState;
use vstd::prelude::*;

verus! {

/// A key press, as far as the setup pages tell keys apart.
#[derive(Copy, Clone, Debug, PartialEq, Eq, Structural)]
pub enum KeyPress {
    /// A function key F1..F12 (F10 quits).
    Function(u8),
    Tab,
    Up,
    Down,
    Left,
    Right,
    Enter,
    Esc,
    Char(char),
    /// Any other key.
    Other,
}

/// Setup flow has many pages, they are listed here
#[derive(Copy, Clone, Debug, PartialEq, Eq, Structural)]
pub enum SetupPage {
    StartAsk,
    /// Optional path where user will import existing config
    ConfigImport,
    BIP32PhraseAsk,
    BIP32PhraseShow,
    BIP32PhraseImport,
    DIDKeysAsk,
    DIDKeysShow,
    DidKeysImport,
    DidKeysExportAsk,
    DidKeysExportInputs,
    DidKeysExportShow,
    /// Optional PGP Token setup occurs here
    TokenStart,
    TokenSelect,
    TokenFactoryReset,
    TokenSetTouch,
    TokenSetCardholderName,
    UnlockCodeAsk,
    UnlockCodeSet,
    UnlockCodeWarn,
    MediatorAsk,
    MediatorCustom,
    UserName,
    WebVHAddress,
    FinalPage,
}

impl Default for SetupPage {
    fn default() -> (page: Self)
        ensures
            page == SetupPage::StartAsk,
    {
        SetupPage::StartAsk
    }
}

/// What a key press does on a page that asks to pick one of two answers.
#[derive(Copy, Clone, Debug, PartialEq, Eq, Structural)]
pub enum ChoiceKeyOutcome<T> {
    /// Quit the application.
    Quit,
    /// The highlighted answer is now the given one.
    Selected(T),
    /// The given answer was confirmed.
    Confirmed(T),
    /// The key has no effect on this page.
    Ignored,
}

/// The effect of `key` on a two-answer page showing `current`, whose other
/// answer is `other`.
pub open spec fn choice_key_outcome<T>(current: T, other: T, key: KeyPress) -> ChoiceKeyOutcome<T> {
    match key {
        KeyPress::Function(n) => if n == 10 {
            ChoiceKeyOutcome::Quit
        } else {
            ChoiceKeyOutcome::Ignored
        },
        KeyPress::Tab | KeyPress::Up | KeyPress::Down => ChoiceKeyOutcome::Selected(other),
        KeyPress::Enter => ChoiceKeyOutcome::Confirmed(current),
        _ => ChoiceKeyOutcome::Ignored,
    }
}

/// BIP32 seed phrase: generate a new recovery phrase or import an existing one.
#[derive(Copy, Clone, Debug, PartialEq, Eq, Structural)]
pub enum BIP32PhraseAskChoice {
    Create,
    Import,
}

impl Default for BIP32PhraseAskChoice {
    fn default() -> (choice: Self)
        ensures
            choice == BIP32PhraseAskChoice::Create,
    {
        BIP32PhraseAskChoice::Create
    }
}

/// The other answer of a BIP32PhraseAskChoice choice.
pub open spec fn bip32_phrase_ask_switched(c: BIP32PhraseAskChoice) -> BIP32PhraseAskChoice {
    match c {
        BIP32PhraseAskChoice::Create => BIP32PhraseAskChoice::Import,
        BIP32PhraseAskChoice::Import => BIP32PhraseAskChoice::Create,
    }
}

impl BIP32PhraseAskChoice {
    /// Switches to the next panel when pressing <TAB>
    pub fn switch(&self) -> (next: Self)
        ensures
            next == bip32_phrase_ask_switched(*self),
    {
        match self {
            BIP32PhraseAskChoice::Create => BIP32PhraseAskChoice::Import,
            BIP32PhraseAskChoice::Import => BIP32PhraseAskChoice::Create,
        }
    }

    /// What a key press does while this choice is shown: F10 quits, TAB and
    /// the arrow keys switch the answer, ENTER confirms it.
    pub fn on_key(&self, key: KeyPress) -> (outcome: ChoiceKeyOutcome<Self>)
        ensures
            outcome == choice_key_outcome(*self, bip32_phrase_ask_switched(*self), key),
    {
        match key {
            KeyPress::Function(10) => ChoiceKeyOutcome::Quit,
            KeyPress::Tab | KeyPress::Up | KeyPress::Down => ChoiceKeyOutcome::Selected(self.switch()),
            KeyPress::Enter => ChoiceKeyOutcome::Confirmed(*self),
            _ => ChoiceKeyOutcome::Ignored,
        }
    }
}

/// Switching a BIP32PhraseAskChoice twice gives back the original answer, and switching
/// always changes the answer.
pub proof fn lemma_bip32_phrase_ask_switch_involutive(c: BIP32PhraseAskChoice)
    ensures
        bip32_phrase_ask_switched(bip32_phrase_ask_switched(c)) == c,
        bip32_phrase_ask_switched(c) != c,
{
}

/// DID keys: derive new keys from the recovery phrase or import existing PGP keys.
#[derive(Copy, Clone, Debug, PartialEq, Eq, Structural)]
pub enum DIDKeysAsk {
    Create,
    Import,
}

impl Default for DIDKeysAsk {
    fn default() -> (choice: Self)
        ensures
            choice == DIDKeysAsk::Create,
    {
        DIDKeysAsk::Create
    }
}

/// The other answer of a DIDKeysAsk choice.
pub open spec fn did_keys_ask_switched(c: DIDKeysAsk) -> DIDKeysAsk {
    match c {
        DIDKeysAsk::Create => DIDKeysAsk::Import,
        DIDKeysAsk::Import => DIDKeysAsk::Create,
    }
}

impl DIDKeysAsk {
    /// Switches to the next panel when pressing <TAB>
    pub fn switch(&self) -> (next: Self)
        ensures
            next == did_keys_ask_switched(*self),
    {
        match self {
            DIDKeysAsk::Create => DIDKeysAsk::Import,
            DIDKeysAsk::Import => DIDKeysAsk::Create,
        }
    }

    /// What a key press does while this choice is shown: F10 quits, TAB and
    /// the arrow keys switch the answer, ENTER confirms it.
    pub fn on_key(&self, key: KeyPress) -> (outcome: ChoiceKeyOutcome<Self>)
        ensures
            outcome == choice_key_outcome(*self, did_keys_ask_switched(*self), key),
    {
        match key {
            KeyPress::Function(10) => ChoiceKeyOutcome::Quit,
            KeyPress::Tab | KeyPress::Up | KeyPress::Down => ChoiceKeyOutcome::Selected(self.switch()),
            KeyPress::Enter => ChoiceKeyOutcome::Confirmed(*self),
            _ => ChoiceKeyOutcome::Ignored,
        }
    }
}

/// Switching a DIDKeysAsk twice gives back the original answer, and switching
/// always changes the answer.
pub proof fn lemma_did_keys_ask_switch_involutive(c: DIDKeysAsk)
    ensures
        did_keys_ask_switched(did_keys_ask_switched(c)) == c,
        did_keys_ask_switched(c) != c,
{
}

/// Whether to export the private DID keys for use in other tools.
#[derive(Copy, Clone, Debug, PartialEq, Eq, Structural)]
pub enum DIDKeysExportAsk {
    Skip,
    Export,
}

impl Default for DIDKeysExportAsk {
    fn default() -> (choice: Self)
        ensures
            choice == DIDKeysExportAsk::Skip,
    {
        DIDKeysExportAsk::Skip
    }
}

/// The other answer of a DIDKeysExportAsk choice.
pub open spec fn did_keys_export_ask_switched(c: DIDKeysExportAsk) -> DIDKeysExportAsk {
    match c {
        DIDKeysExportAsk::Skip => DIDKeysExportAsk::Export,
        DIDKeysExportAsk::Export => DIDKeysExportAsk::Skip,
    }
}

impl DIDKeysExportAsk {
    /// Switches to the next panel when pressing <TAB>
    pub fn switch(&self) -> (next: Self)
        ensures
            next == did_keys_export_ask_switched(*self),
    {
        match self {
            DIDKeysExportAsk::Skip => DIDKeysExportAsk::Export,
            DIDKeysExportAsk::Export => DIDKeysExportAsk::Skip,
        }
    }

    /// What a key press does while this choice is shown: F10 quits, TAB and
    /// the arrow keys switch the answer, ENTER confirms it.
    pub fn on_key(&self, key: KeyPress) -> (outcome: ChoiceKeyOutcome<Self>)
        ensures
            outcome == choice_key_outcome(*self, did_keys_export_ask_switched(*self), key),
    {
        match key {
            KeyPress::Function(10) => ChoiceKeyOutcome::Quit,
            KeyPress::Tab | KeyPress::Up | KeyPress::Down => ChoiceKeyOutcome::Selected(self.switch()),
            KeyPress::Enter => ChoiceKeyOutcome::Confirmed(*self),
            _ => ChoiceKeyOutcome::Ignored,
        }
    }
}

/// Switching a DIDKeysExportAsk twice gives back the original answer, and switching
/// always changes the answer.
pub proof fn lemma_did_keys_export_ask_switch_involutive(c: DIDKeysExportAsk)
    ensures
        did_keys_export_ask_switched(did_keys_export_ask_switched(c)) == c,
        did_keys_export_ask_switched(c) != c,
{
}

/// Which DIDComm messaging mediator to use.
#[derive(Copy, Clone, Debug, PartialEq, Eq, Structural)]
pub enum MediatorAsk {
    Default,
    Custom,
}

impl Default for MediatorAsk {
    fn default() -> (choice: Self)
        ensures
            choice == MediatorAsk::Default,
    {
        MediatorAsk::Default
    }
}

/// The other answer of a MediatorAsk choice.
pub open spec fn mediator_ask_switched(c: MediatorAsk) -> MediatorAsk {
    match c {
        MediatorAsk::Default => MediatorAsk::Custom,
        MediatorAsk::Custom => MediatorAsk::Default,
    }
}

impl MediatorAsk {
    /// Switches to the next panel when pressing <TAB>
    pub fn switch(&self) -> (next: Self)
        ensures
            next == mediator_ask_switched(*self),
    {
        match self {
            MediatorAsk::Default => MediatorAsk::Custom,
            MediatorAsk::Custom => MediatorAsk::Default,
        }
    }

    /// What a key press does while this choice is shown: F10 quits, TAB and
    /// the arrow keys switch the answer, ENTER confirms it.
    pub fn on_key(&self, key: KeyPress) -> (outcome: ChoiceKeyOutcome<Self>)
        ensures
            outcome == choice_key_outcome(*self, mediator_ask_switched(*self), key),
    {
        match key {
            KeyPress::Function(10) => ChoiceKeyOutcome::Quit,
            KeyPress::Tab | KeyPress::Up | KeyPress::Down => ChoiceKeyOutcome::Selected(self.switch()),
            KeyPress::Enter => ChoiceKeyOutcome::Confirmed(*self),
            _ => ChoiceKeyOutcome::Ignored,
        }
    }
}

/// Switching a MediatorAsk twice gives back the original answer, and switching
/// always changes the answer.
pub proof fn lemma_mediator_ask_switch_involutive(c: MediatorAsk)
    ensures
        mediator_ask_switched(mediator_ask_switched(c)) == c,
        mediator_ask_switched(c) != c,
{
}

/// Answer to the warning shown when no unlock code is chosen.
#[derive(Copy, Clone, Debug, PartialEq, Eq, Structural)]
pub enum UnlockCodeWarn {
    UseCode,
    AckRisk,
}

impl Default for UnlockCodeWarn {
    fn default() -> (choice: Self)
        ensures
            choice == UnlockCodeWarn::UseCode,
    {
        UnlockCodeWarn::UseCode
    }
}

/// The other answer of a UnlockCodeWarn choice.
pub open spec fn unlock_code_warn_switched(c: UnlockCodeWarn) -> UnlockCodeWarn {
    match c {
        UnlockCodeWarn::UseCode => UnlockCodeWarn::AckRisk,
        UnlockCodeWarn::AckRisk => UnlockCodeWarn::UseCode,
    }
}

impl UnlockCodeWarn {
    /// Switches to the next panel when pressing <TAB>
    pub fn switch(&self) -> (next: Self)
        ensures
            next == unlock_code_warn_switched(*self),
    {
        match self {
            UnlockCodeWarn::UseCode => UnlockCodeWarn::AckRisk,
            UnlockCodeWarn::AckRisk => UnlockCodeWarn::UseCode,
        }
    }

    /// What a key press does while this choice is shown: F10 quits, TAB and
    /// the arrow keys switch the answer, ENTER confirms it.
    pub fn on_key(&self, key: KeyPress) -> (outcome: ChoiceKeyOutcome<Self>)
        ensures
            outcome == choice_key_outcome(*self, unlock_code_warn_switched(*self), key),
    {
        match key {
            KeyPress::Function(10) => ChoiceKeyOutcome::Quit,
            KeyPress::Tab | KeyPress::Up | KeyPress::Down => ChoiceKeyOutcome::Selected(self.switch()),
            KeyPress::Enter => ChoiceKeyOutcome::Confirmed(*self),
            _ => ChoiceKeyOutcome::Ignored,
        }
    }
}

/// Switching a UnlockCodeWarn twice gives back the original answer, and switching
/// always changes the answer.
pub proof fn lemma_unlock_code_warn_switch_involutive(c: UnlockCodeWarn)
    ensures
        unlock_code_warn_switched(unlock_code_warn_switched(c)) == c,
        unlock_code_warn_switched(c) != c,
{
}

// ****************************************************************************
// Where confirmed answers lead
// ****************************************************************************

impl BIP32PhraseAskChoice {
    /// The page that follows once the answer is confirmed.
    pub fn next_page(&self) -> (page: SetupPage)
        ensures
            page == (match *self {
                BIP32PhraseAskChoice::Create => SetupPage::BIP32PhraseShow,
                BIP32PhraseAskChoice::Import => SetupPage::BIP32PhraseImport,
            }),
    {
        match self {
            BIP32PhraseAskChoice::Create => SetupPage::BIP32PhraseShow,
            BIP32PhraseAskChoice::Import => SetupPage::BIP32PhraseImport,
        }
    }
}

/// What confirming the DID keys question leads to.
#[derive(Copy, Clone, Debug, PartialEq, Eq, Structural)]
pub enum DIDKeysDecision {
    /// Derive the persona keys from the recovery phrase.
    DeriveKeys,
    /// Go to the given page.
    GoTo(SetupPage),
}

impl DIDKeysAsk {
    /// What confirming this answer leads to.
    pub fn decision(&self) -> (decision: DIDKeysDecision)
        ensures
            decision == (match *self {
                DIDKeysAsk::Create => DIDKeysDecision::DeriveKeys,
                DIDKeysAsk::Import => DIDKeysDecision::GoTo(SetupPage::DidKeysImport),
            }),
    {
        match self {
            DIDKeysAsk::Create => DIDKeysDecision::DeriveKeys,
            DIDKeysAsk::Import => DIDKeysDecision::GoTo(SetupPage::DidKeysImport),
        }
    }
}

impl DIDKeysExportAsk {
    /// The page that follows once the answer is confirmed: skipping the export
    /// continues with the hardware token setup.
    pub fn next_page(&self) -> (page: SetupPage)
        ensures
            page == (match *self {
                DIDKeysExportAsk::Skip => SetupPage::TokenStart,
                DIDKeysExportAsk::Export => SetupPage::DidKeysExportInputs,
            }),
    {
        match self {
            DIDKeysExportAsk::Skip => SetupPage::TokenStart,
            DIDKeysExportAsk::Export => SetupPage::DidKeysExportInputs,
        }
    }
}

impl MediatorAsk {
    /// The page that follows once the answer is confirmed: a custom mediator
    /// is asked for on its own page.
    pub fn next_page(&self) -> (page: SetupPage)
        ensures
            page == (match *self {
                MediatorAsk::Default => SetupPage::UserName,
                MediatorAsk::Custom => SetupPage::MediatorCustom,
            }),
    {
        match self {
            MediatorAsk::Default => SetupPage::UserName,
            MediatorAsk::Custom => SetupPage::MediatorCustom,
        }
    }
}

impl UnlockCodeWarn {
    /// The page that follows once the answer is confirmed.
    pub fn next_page(&self) -> (page: SetupPage)
        ensures
            page == (match *self {
                UnlockCodeWarn::UseCode => SetupPage::UnlockCodeSet,
                UnlockCodeWarn::AckRisk => SetupPage::MediatorAsk,
            }),
    {
        match self {
            UnlockCodeWarn::UseCode => SetupPage::UnlockCodeSet,
            UnlockCodeWarn::AckRisk => SetupPage::MediatorAsk,
        }
    }
}

// ****************************************************************************
// Pages that show results
// ****************************************************************************

/// What a key press does on the page that shows the new recovery phrase.
#[derive(Copy, Clone, Debug, PartialEq, Eq, Structural)]
pub enum PhraseShowKey {
    Quit,
    /// Copy the recovery phrase to the clipboard.
    CopyPhrase,
    /// Derive the persona DID keys from the recovery phrase.
    DeriveKeys,
    Ignored,
}

/// The page that shows a newly generated recovery phrase.
#[derive(Copy, Clone, Debug)]
pub struct BIP32PhraseShow {
    /// Have we copied this to the clipboard?
    cc_copy: bool,
}

impl Default for BIP32PhraseShow {
    fn default() -> (page: Self)
        ensures
            !page.is_copied(),
    {
        BIP32PhraseShow { cc_copy: false }
    }
}

impl BIP32PhraseShow {
    /// Has the content of this page been copied to the clipboard?
    pub closed spec fn is_copied(&self) -> bool {
        self.cc_copy
    }

    /// Has the recovery phrase been copied to the clipboard?
    pub fn copied(&self) -> (copied: bool)
        ensures
            copied == self.is_copied(),
    {
        self.cc_copy
    }

    /// Records that the recovery phrase was copied to the clipboard.
    pub fn mark_copied(&mut self)
        ensures
            final(self).is_copied(),
    {
        self.cc_copy = true;
    }

    /// What a key press does on this page: F10 quits, `c` or `C` copies the
    /// phrase, ENTER derives the keys.
    pub fn on_key(key: KeyPress) -> (outcome: PhraseShowKey)
        ensures
            outcome == (match key {
                KeyPress::Function(n) => if n == 10 {
                    PhraseShowKey::Quit
                } else {
                    PhraseShowKey::Ignored
                },
                KeyPress::Char(c) => if c == 'c' || c == 'C' {
                    PhraseShowKey::CopyPhrase
                } else {
                    PhraseShowKey::Ignored
                },
                KeyPress::Enter => PhraseShowKey::DeriveKeys,
                _ => PhraseShowKey::Ignored,
            }),
    {
        match key {
            KeyPress::Function(10) => PhraseShowKey::Quit,
            KeyPress::Char('c') | KeyPress::Char('C') => PhraseShowKey::CopyPhrase,
            KeyPress::Enter => PhraseShowKey::DeriveKeys,
            _ => PhraseShowKey::Ignored,
        }
    }
}

/// What a key press does on a page where text is typed in (the recovery
/// phrase import and the WebVH address pages).
#[derive(Copy, Clone, Debug, PartialEq, Eq, Structural)]
pub enum TextInputKey {
    Quit,
    /// Submit the text typed in.
    Submit,
    /// Clear the text typed in.
    Clear,
    /// The key edits the text.
    Edit,
}

/// What a key press does on a page where text is typed in: F10 quits, ENTER
/// submits the text, ESC clears it, every other key edits it.
pub fn text_input_on_key(key: KeyPress) -> (outcome: TextInputKey)
    ensures
        outcome == (match key {
            KeyPress::Function(n) => if n == 10 {
                TextInputKey::Quit
            } else {
                TextInputKey::Edit
            },
            KeyPress::Enter => TextInputKey::Submit,
            KeyPress::Esc => TextInputKey::Clear,
            _ => TextInputKey::Edit,
        }),
{
    match key {
        KeyPress::Function(10) => TextInputKey::Quit,
        KeyPress::Enter => TextInputKey::Submit,
        KeyPress::Esc => TextInputKey::Clear,
        _ => TextInputKey::Edit,
    }
}

/// The page where an existing recovery phrase is typed in.
#[derive(Clone, Debug)]
pub struct BIP32PhraseImport {
    /// Why the phrase last submitted was refused.
    pub warning_msg: Option<String>,
}

impl Default for BIP32PhraseImport {
    fn default() -> (page: Self)
        ensures
            page.warning_msg is None,
    {
        BIP32PhraseImport { warning_msg: None }
    }
}

impl BIP32PhraseImport {
    /// ENTER on the import page: a valid recovery phrase becomes the seed of
    /// the setup, which moves on to the DID keys question; an invalid one
    /// leaves the setup as it was and the page shows why it was refused.
    pub fn submit(&mut self, setup: &mut SetupState, phrase: &str)
        ensures
            match bip39_phrase_parse(phrase@) {
                Ok(entropy) => {
                    &&& final(setup).mnemonic@ == entropy
                    &&& *final(setup) == (SetupState {
                        mnemonic: final(setup).mnemonic,
                        active_page: SetupPage::DIDKeysAsk,
                        ..*old(setup)
                    })
                    &&& final(self).warning_msg == old(self).warning_msg
                },
                Err(reason) => {
                    &&& *final(setup) == *old(setup)
                    &&& final(self).warning_msg matches Some(w) && w@ == reason
                },
            },
    {
        match BIP32_39::from_mnemonic(phrase) {
            Ok(seed) => {
                setup.mnemonic = seed;
                setup.active_page = SetupPage::DIDKeysAsk;
            },
            Err(reason) => {
                self.warning_msg = Some(reason);
            },
        }
    }
}

/// One of the three persona DID keys.
#[derive(Copy, Clone, Debug, PartialEq, Eq, Structural)]
pub enum PersonaKey {
    Signing,
    Authentication,
    Decryption,
}

/// The number shown for a persona key: 1 signing, 2 authentication,
/// 3 encryption.
pub open spec fn persona_key_number(k: PersonaKey) -> u8 {
    match k {
        PersonaKey::Signing => 1,
        PersonaKey::Authentication => 2,
        PersonaKey::Decryption => 3,
    }
}

/// What a key press does on the page that shows the derived DID keys.
#[derive(Copy, Clone, Debug, PartialEq, Eq, Structural)]
pub enum KeysShowKey {
    Quit,
    /// Copy the public key of the given persona key to the clipboard.
    Copy(PersonaKey),
    /// Go to the given page.
    GoTo(SetupPage),
    Ignored,
}

/// The page that shows the derived DID keys.
#[derive(Copy, Clone, Debug)]
pub struct DIDKeysShow {
    /// 0 = Nothing copied to clipboard
    /// 1 = Signing Key copied
    /// 2 = Authentication Key copied
    /// 3 = Encryption Key copied
    pub show_clipboard_copy: u8,
}

impl Default for DIDKeysShow {
    fn default() -> (page: Self)
        ensures
            page.show_clipboard_copy == 0,
    {
        DIDKeysShow { show_clipboard_copy: 0 }
    }
}

impl DIDKeysShow {
    /// Records that the public key of `key` was copied to the clipboard.
    pub fn mark_copied(&mut self, key: PersonaKey)
        ensures
            final(self).show_clipboard_copy == persona_key_number(key),
    {
        self.show_clipboard_copy = match key {
            PersonaKey::Signing => 1,
            PersonaKey::Authentication => 2,
            PersonaKey::Decryption => 3,
        };
    }

    /// What a key press does on this page: F10 quits, `1`, `2` and `3` copy
    /// the signing, authentication and encryption public key, ENTER moves on
    /// to the key export question.
    pub fn on_key(key: KeyPress) -> (outcome: KeysShowKey)
        ensures
            outcome == (match key {
                KeyPress::Function(n) => if n == 10 {
                    KeysShowKey::Quit
                } else {
                    KeysShowKey::Ignored
                },
                KeyPress::Char(c) => if c == '1' {
                    KeysShowKey::Copy(PersonaKey::Signing)
                } else if c == '2' {
                    KeysShowKey::Copy(PersonaKey::Authentication)
                } else if c == '3' {
                    KeysShowKey::Copy(PersonaKey::Decryption)
                } else {
                    KeysShowKey::Ignored
                },
                KeyPress::Enter => KeysShowKey::GoTo(SetupPage::DidKeysExportAsk),
                _ => KeysShowKey::Ignored,
            }),
    {
        match key {
            KeyPress::Function(10) => KeysShowKey::Quit,
            KeyPress::Char('1') => KeysShowKey::Copy(PersonaKey::Signing),
            KeyPress::Char('2') => KeysShowKey::Copy(PersonaKey::Authentication),
            KeyPress::Char('3') => KeysShowKey::Copy(PersonaKey::Decryption),
            KeyPress::Enter => KeysShowKey::GoTo(SetupPage::DidKeysExportAsk),
            _ => KeysShowKey::Ignored,
        }
    }
}

/// What a key press does on the page that shows the exported private keys.
#[derive(Copy, Clone, Debug, PartialEq, Eq, Structural)]
pub enum ExportShowKey {
    Quit,
    /// Copy the armored export to the clipboard.
    CopyExport,
    /// Go to the given page.
    GoTo(SetupPage),
    Ignored,
}

/// The page that shows the exported private DID keys.
#[derive(Copy, Clone, Debug)]
pub struct DIDKeysExportShow {
    clipboard_copy: bool,
}

impl Default for DIDKeysExportShow {
    fn default() -> (page: Self)
        ensures
            !page.is_copied(),
    {
        DIDKeysExportShow { clipboard_copy: false }
    }
}

impl DIDKeysExportShow {
    /// Has the content of this page been copied to the clipboard?
    pub closed spec fn is_copied(&self) -> bool {
        self.clipboard_copy
    }

    /// Has the export been copied to the clipboard?
    pub fn copied(&self) -> (copied: bool)
        ensures
            copied == self.is_copied(),
    {
        self.clipboard_copy
    }

    /// Records that the export was copied to the clipboard.
    pub fn mark_copied(&mut self)
        ensures
            final(self).is_copied(),
    {
        self.clipboard_copy = true;
    }

    /// What a key press does on this page: `c` or `C` copies the export, F10
    /// quits, ENTER continues with the hardware token setup.
    pub fn on_key(key: KeyPress) -> (outcome: ExportShowKey)
        ensures
            outcome == (match key {
                KeyPress::Function(n) => if n == 10 {
                    ExportShowKey::Quit
                } else {
                    ExportShowKey::Ignored
                },
                KeyPress::Char(c) => if c == 'c' || c == 'C' {
                    ExportShowKey::CopyExport
                } else {
                    ExportShowKey::Ignored
                },
                KeyPress::Enter => ExportShowKey::GoTo(SetupPage::TokenStart),
                _ => ExportShowKey::Ignored,
            }),
    {
        match key {
            KeyPress::Char('c') | KeyPress::Char('C') => ExportShowKey::CopyExport,
            KeyPress::Function(10) => ExportShowKey::Quit,
            KeyPress::Enter => ExportShowKey::GoTo(SetupPage::TokenStart),
            _ => ExportShowKey::Ignored,
        }
    }
}

/// The page that imports a configuration backup.
#[derive(Copy, Clone, Debug)]
pub struct ConfigImport {}

impl Default for ConfigImport {
    fn default() -> (page: Self) {
        ConfigImport {}
    }
}

impl ConfigImport {
    /// Whether a key press quits the application on this page (F10 does;
    /// every other key is ignored).
    pub fn quits_on(key: KeyPress) -> (quit: bool)
        ensures
            quit == (key == KeyPress::Function(10)),
    {
        match key {
            KeyPress::Function(10) => true,
            _ => false,
        }
    }
}

/// Update messages as the Key export works through
#[derive(Clone, Debug)]
pub struct DIDKeysExportState {
    pub messages: Vec<String>,
    pub exported: Option<String>,
}

impl Default for DIDKeysExportState {
    fn default() -> (state: Self)
        ensures
            state.messages@.len() == 0,
            state.exported is None,
    {
        DIDKeysExportState { messages: Vec::new(), exported: None }
    }
}

// ****************************************************************************
// Hardware token selection
// ****************************************************************************

/// The highlighted entry after moving down the token list. The list shows
/// `token_count` tokens followed by a "no token" entry, and wraps around.
pub fn token_selection_next(selected: usize, token_count: usize) -> (next: usize)
    requires
        token_count < usize::MAX,
        selected < usize::MAX,
    ensures
        next == (selected + 1) % (token_count + 1),
{
    (selected + 1) % (token_count + 1)
}

/// The highlighted entry after moving up the token list, wrapping from the
/// first entry to the "no token" entry at the end.
pub fn token_selection_prev(selected: usize, token_count: usize) -> (prev: usize)
    requires
        selected > 0 ==> selected - 1 < usize::MAX,
    ensures
        prev == (if selected == 0 {
            token_count
        } else {
            (selected - 1) as usize
        }),
{
    if selected == 0 {
        token_count
    } else {
        selected - 1
    }
}

/// Moving down and then up the token list, or up and then down, returns to
/// the entry that was highlighted, and the highlight never leaves the list.
pub proof fn lemma_token_selection_round_trip(selected: usize, token_count: usize)
    requires
        selected <= token_count,
        token_count < usize::MAX,
    ensures
        ((selected + 1) % (token_count + 1)) as usize <= token_count,
        (if ((selected + 1) % (token_count + 1)) as usize == 0 {
            token_count
        } else {
            (((selected + 1) % (token_count + 1)) - 1) as usize
        }) == selected,
        ({
            let prev = if selected == 0 {
                token_count
            } else {
                (selected - 1) as usize
            };
            (prev + 1) % (token_count + 1)
        }) == selected,
        (if selected == 0 {
            token_count as int
        } else {
            selected - 1
        }) == (selected + token_count) % (token_count + 1),
{
    if selected == 0 {
        assert((token_count as int) % (token_count + 1) == token_count) by (nonlinear_arith)
            requires
                token_count < usize::MAX,
        ;
    } else {
        assert((selected + token_count) % (token_count + 1) == selected - 1) by (nonlinear_arith)
            requires
                0 < selected <= token_count,
        {
            assert(selected + token_count == (token_count + 1) + (selected - 1));
            vstd::arithmetic::div_mod::lemma_mod_add_multiples_vanish(
                (selected - 1) as int,
                (token_count + 1) as int,
            );
            vstd::arithmetic::div_mod::lemma_small_mod((selected - 1) as nat, (token_count + 1) as nat);
        }
    }
    if selected < token_count {
        assert((selected + 1) % (token_count + 1) == selected + 1) by (nonlinear_arith)
            requires
                selected < token_count,
        ;
    } else {
        assert((token_count + 1) % (token_count + 1) == 0) by (nonlinear_arith)
            requires
                token_count < usize::MAX,
        ;
    }
    if selected == 0 {
        assert((token_count + 1) % (token_count + 1) == 0) by (nonlinear_arith)
            requires
                token_count < usize::MAX,
        ;
    } else {
        assert((selected as int) % (token_count + 1) == selected as int) by (nonlinear_arith)
            requires
                0 < selected <= token_count,
        ;
    }
}

/// What ENTER on the token list chooses.
#[derive(Copy, Clone, Debug, PartialEq, Eq, Structural)]
pub enum TokenChoice {
    /// The "no token" entry: continue without a hardware token.
    NoToken,
    /// The token at this position of the list.
    Token(usize),
}

/// What ENTER on the token list chooses when entry `selected` is highlighted.
pub fn token_selection_choice(selected: usize, token_count: usize) -> (choice: TokenChoice)
    requires
        selected <= token_count,
    ensures
        choice == (if selected == token_count {
            TokenChoice::NoToken
        } else {
            TokenChoice::Token(selected)
        }),
{
    if selected == token_count {
        TokenChoice::NoToken
    } else {
        TokenChoice::Token(selected)
    }
}

/// What a key press does on the token selection page.
#[derive(Copy, Clone, Debug, PartialEq, Eq, Structural)]
pub enum TokenSelectKey {
    Quit,
    /// The highlight moved through the token list.
    Moved,
    /// Look for connected tokens again.
    RefreshTokens,
    /// Continue without a hardware token, on the unlock code page.
    NoToken,
    /// The token at this position was chosen; its admin PIN is asked next.
    AskAdminPin(usize),
    /// Clear the admin PIN typed in.
    ClearPin,
    /// The key edits the admin PIN typed in.
    EditPin,
    /// Submit the admin PIN typed in (see [admin_pin_or_default]).
    SubmitPin,
    Ignored,
}

/// The token selection page: the highlighted entry of the token list, and
/// whether the admin PIN of the chosen token is being asked for.
#[derive(Copy, Clone, Debug, PartialEq, Eq, Structural)]
pub struct TokenSelect {
    pub selected: usize,
    /// The position of the chosen token, once one was chosen.
    pub selected_token: Option<usize>,
    pub ask_admin_pin: bool,
}

impl Default for TokenSelect {
    fn default() -> (page: Self)
        ensures
            page.selected == 0,
            page.selected_token is None,
            !page.ask_admin_pin,
    {
        TokenSelect { selected: 0, selected_token: None, ask_admin_pin: false }
    }
}

/// The page after a key press on the token selection page showing
/// `token_count` tokens, and what the key does.
pub open spec fn token_select_key(page: TokenSelect, key: KeyPress, token_count: int) -> (
    TokenSelect,
    TokenSelectKey,
) {
    if key == KeyPress::Function(10) {
        (page, TokenSelectKey::Quit)
    } else if !page.ask_admin_pin {
        match key {
            KeyPress::Tab | KeyPress::Down => (
                TokenSelect { selected: ((page.selected + 1) % (token_count + 1)) as usize, ..page },
                TokenSelectKey::Moved,
            ),
            KeyPress::Up => (
                TokenSelect {
                    selected: if page.selected == 0 {
                        token_count as usize
                    } else {
                        (page.selected - 1) as usize
                    },
                    ..page
                },
                TokenSelectKey::Moved,
            ),
            KeyPress::Char(c) => if c == 'r' || c == 'R' {
                (page, TokenSelectKey::RefreshTokens)
            } else {
                (page, TokenSelectKey::Ignored)
            },
            KeyPress::Enter => if page.selected == token_count {
                (TokenSelect { selected_token: None, ..page }, TokenSelectKey::NoToken)
            } else {
                (
                    TokenSelect {
                        ask_admin_pin: true,
                        selected_token: Some(page.selected as usize),
                        ..page
                    },
                    TokenSelectKey::AskAdminPin(page.selected),
                )
            },
            _ => (page, TokenSelectKey::Ignored),
        }
    } else {
        match key {
            KeyPress::Esc => (page, TokenSelectKey::ClearPin),
            KeyPress::Enter => (page, TokenSelectKey::SubmitPin),
            _ => (page, TokenSelectKey::EditPin),
        }
    }
}

impl TokenSelect {
    /// Handles a key press on the token selection page (choosing "no token"
    /// moves the setup on to the unlock code page), which lists
    /// `token_count` tokens followed by a "no token" entry: F10 quits; while
    /// the list is shown TAB and the arrows move the highlight (wrapping
    /// around), `r` looks for tokens again and ENTER chooses the highlighted
    /// entry; while the admin PIN is asked for, ESC clears it, ENTER submits
    /// it and other keys edit it.
    pub fn on_key(&mut self, setup: &mut SetupState, key: KeyPress, token_count: usize) -> (outcome:
        TokenSelectKey)
        requires
            token_count < usize::MAX,
            !old(self).ask_admin_pin && (key == KeyPress::Tab || key == KeyPress::Down) ==> old(
                self,
            ).selected < usize::MAX,
            !old(self).ask_admin_pin && key == KeyPress::Enter ==> old(self).selected
                <= token_count,
        ensures
            (*final(self), outcome) == token_select_key(*old(self), key, token_count as int),
            *final(setup) == (if outcome == TokenSelectKey::NoToken {
                SetupState { active_page: SetupPage::UnlockCodeAsk, ..*old(setup) }
            } else {
                *old(setup)
            }),
    {
        if let KeyPress::Function(10) = key {
            return TokenSelectKey::Quit;
        }
        if !self.ask_admin_pin {
            match key {
                KeyPress::Tab | KeyPress::Down => {
                    self.selected = token_selection_next(self.selected, token_count);
                    TokenSelectKey::Moved
                },
                KeyPress::Up => {
                    self.selected = token_selection_prev(self.selected, token_count);
                    TokenSelectKey::Moved
                },
                KeyPress::Char('r') | KeyPress::Char('R') => TokenSelectKey::RefreshTokens,
                KeyPress::Enter => match token_selection_choice(self.selected, token_count) {
                    TokenChoice::NoToken => {
                        self.selected_token = None;
                        setup.active_page = SetupPage::UnlockCodeAsk;
                        TokenSelectKey::NoToken
                    },
                    TokenChoice::Token(position) => {
                        self.selected_token = Some(position);
                        self.ask_admin_pin = true;
                        TokenSelectKey::AskAdminPin(position)
                    },
                },
                _ => TokenSelectKey::Ignored,
            }
        } else {
            match key {
                KeyPress::Esc => TokenSelectKey::ClearPin,
                KeyPress::Enter => TokenSelectKey::SubmitPin,
                _ => TokenSelectKey::EditPin,
            }
        }
    }
}

/// The default admin PIN of an OpenPGP card.
pub open spec fn default_admin_pin() -> Seq<char> {
    "12345678"@
}

/// The default user PIN of an OpenPGP card.
pub open spec fn default_user_pin() -> Seq<char> {
    "123456"@
}

/// The admin PIN to use: the entered one, or the card default when nothing
/// was entered.
pub fn admin_pin_or_default(entered: &str) -> (pin: String)
    ensures
        pin@ == (if entered@.len() == 0 {
            default_admin_pin()
        } else {
            entered@
        }),
{
    if entered.unicode_len() == 0 {
        "12345678".to_owned()
    } else {
        entered.to_owned()
    }
}

/// The user PIN to use: the entered one, or the card default when nothing
/// was entered.
pub fn user_pin_or_default(entered: &str) -> (pin: String)
    ensures
        pin@ == (if entered@.len() == 0 {
            default_user_pin()
        } else {
            entered@
        }),
{
    if entered.unicode_len() == 0 {
        "123456".to_owned()
    } else {
        entered.to_owned()
    }
}

// ****************************************************************************
// Progress header
// ****************************************************************************

/// How a piece of the progress header is shown.
#[derive(Copy, Clone, Debug, PartialEq, Eq, Structural)]
pub enum HeaderTone {
    /// The section the user is in (highlighted).
    Active,
    /// A finished section.
    Done,
    /// Sections still ahead (muted).
    Pending,
    /// The arrow between sections.
    Separator,
}

/// A piece of text of the progress header.
#[derive(Clone, Debug)]
pub struct HeaderSpan {
    pub text: String,
    pub tone: HeaderTone,
}

impl View for HeaderSpan {
    type V = (Seq<char>, HeaderTone);

    open spec fn view(&self) -> (Seq<char>, HeaderTone) {
        (self.text@, self.tone)
    }
}

/// The progress header of a setup page: the section number shown as
/// `Section <step>/6`, and the line of sections.
#[derive(Clone, Debug)]
pub struct SetupHeader {
    pub step: u8,
    pub spans: Vec<HeaderSpan>,
}

/// Pages of the key management section.
pub open spec fn is_key_management_page(page: SetupPage) -> bool {
    page == SetupPage::BIP32PhraseAsk || page == SetupPage::BIP32PhraseShow || page
        == SetupPage::BIP32PhraseImport || page == SetupPage::DIDKeysAsk || page
        == SetupPage::DIDKeysShow || page == SetupPage::DidKeysExportAsk || page
        == SetupPage::DidKeysExportInputs || page == SetupPage::DidKeysExportShow
}

/// Pages of the security (unlock code) section.
pub open spec fn is_security_page(page: SetupPage) -> bool {
    page == SetupPage::UnlockCodeAsk || page == SetupPage::UnlockCodeSet || page
        == SetupPage::UnlockCodeWarn
}

/// Pages of the messaging (mediator) section.
pub open spec fn is_messaging_page(page: SetupPage) -> bool {
    page == SetupPage::MediatorAsk || page == SetupPage::MediatorCustom
}

/// The section number shown on a page (0 where none applies).
pub open spec fn header_step(page: SetupPage) -> u8 {
    if page == SetupPage::StartAsk {
        1
    } else if is_key_management_page(page) || page == SetupPage::ConfigImport {
        2
    } else if is_security_page(page) {
        3
    } else if is_messaging_page(page) {
        4
    } else if page == SetupPage::UserName {
        5
    } else {
        0
    }
}

/// The line of sections shown on a page.
pub open spec fn header_spans(page: SetupPage) -> Seq<(Seq<char>, HeaderTone)> {
    let sep = (" → "@, HeaderTone::Separator);
    let first = if page == SetupPage::StartAsk {
        seq![("● Choice"@, HeaderTone::Active)]
    } else {
        seq![("✓ Choice"@, HeaderTone::Done)]
    };
    let middle = if is_key_management_page(page) {
        seq![sep, ("● Key Management"@, HeaderTone::Active), (" → ○ Security"@, HeaderTone::Pending)]
    } else if page == SetupPage::ConfigImport {
        seq![sep, ("● Locate Backup"@, HeaderTone::Active)]
    } else if is_security_page(page) {
        seq![sep, ("✓ Key Management"@, HeaderTone::Done), sep, ("● Security"@, HeaderTone::Active)]
    } else if is_messaging_page(page) {
        seq![
            sep,
            ("✓ Key Management"@, HeaderTone::Done),
            sep,
            ("✓ Security"@, HeaderTone::Done),
            sep,
            ("● Messaging"@, HeaderTone::Active),
        ]
    } else if page == SetupPage::UserName {
        seq![
            sep,
            ("✓ Key Management"@, HeaderTone::Done),
            sep,
            ("✓ Security"@, HeaderTone::Done),
            sep,
            ("✓ Messaging"@, HeaderTone::Done),
            sep,
            ("● Identity"@, HeaderTone::Active),
        ]
    } else {
        seq![(" → ○ Key Management → ○ Security → ○ Messaging"@, HeaderTone::Pending)]
    };
    first + middle + seq![(" → ○ Identity → ○ Verify "@, HeaderTone::Pending)]
}

fn push_span(spans: &mut Vec<HeaderSpan>, text: &str, tone: HeaderTone)
    ensures
        final(spans)@.map_values(|s: HeaderSpan| s@) == old(spans)@.map_values(
            |s: HeaderSpan| s@,
        ).push((text@, tone)),
{
    let ghost before = spans@.map_values(|s: HeaderSpan| s@);
    spans.push(HeaderSpan { text: text.to_owned(), tone });
    assert(spans@.map_values(|s: HeaderSpan| s@) =~= before.push((text@, tone)));
}

/// Computes the progress header shown above a setup page.
pub fn setup_header(page: SetupPage) -> (header: SetupHeader)
    ensures
        header.step == header_step(page),
        header.spans@.map_values(|s: HeaderSpan| s@) == header_spans(page),
{
    let mut spans: Vec<HeaderSpan> = Vec::new();
    let mut step: u8 = 0;

    if let SetupPage::StartAsk = page {
        step = 1;
        push_span(&mut spans, "● Choice", HeaderTone::Active);
    } else {
        push_span(&mut spans, "✓ Choice", HeaderTone::Done);
    }

    match page {
        SetupPage::BIP32PhraseAsk | SetupPage::BIP32PhraseShow | SetupPage::BIP32PhraseImport
        | SetupPage::DIDKeysAsk | SetupPage::DIDKeysShow | SetupPage::DidKeysExportAsk
        | SetupPage::DidKeysExportInputs | SetupPage::DidKeysExportShow => {
            step = 2;
            push_span(&mut spans, " → ", HeaderTone::Separator);
            push_span(&mut spans, "● Key Management", HeaderTone::Active);
            push_span(&mut spans, " → ○ Security", HeaderTone::Pending);
        },
        SetupPage::ConfigImport => {
            step = 2;
            push_span(&mut spans, " → ", HeaderTone::Separator);
            push_span(&mut spans, "● Locate Backup", HeaderTone::Active);
        },
        SetupPage::UnlockCodeAsk | SetupPage::UnlockCodeSet | SetupPage::UnlockCodeWarn => {
            step = 3;
            push_span(&mut spans, " → ", HeaderTone::Separator);
            push_span(&mut spans, "✓ Key Management", HeaderTone::Done);
            push_span(&mut spans, " → ", HeaderTone::Separator);
            push_span(&mut spans, "● Security", HeaderTone::Active);
        },
        SetupPage::MediatorAsk | SetupPage::MediatorCustom => {
            step = 4;
            push_span(&mut spans, " → ", HeaderTone::Separator);
            push_span(&mut spans, "✓ Key Management", HeaderTone::Done);
            push_span(&mut spans, " → ", HeaderTone::Separator);
            push_span(&mut spans, "✓ Security", HeaderTone::Done);
            push_span(&mut spans, " → ", HeaderTone::Separator);
            push_span(&mut spans, "● Messaging", HeaderTone::Active);
        },
        SetupPage::UserName => {
            step = 5;
            push_span(&mut spans, " → ", HeaderTone::Separator);
            push_span(&mut spans, "✓ Key Management", HeaderTone::Done);
            push_span(&mut spans, " → ", HeaderTone::Separator);
            push_span(&mut spans, "✓ Security", HeaderTone::Done);
            push_span(&mut spans, " → ", HeaderTone::Separator);
            push_span(&mut spans, "✓ Messaging", HeaderTone::Done);
            push_span(&mut spans, " → ", HeaderTone::Separator);
            push_span(&mut spans, "● Identity", HeaderTone::Active);
        },
        _ => {
            push_span(
                &mut spans,
                " → ○ Key Management → ○ Security → ○ Messaging",
                HeaderTone::Pending,
            );
        },
    }
    push_span(&mut spans, " → ○ Identity → ○ Verify ", HeaderTone::Pending);
    assert(spans@.map_values(|s: HeaderSpan| s@) =~= header_spans(page));
    SetupHeader { step, spans }
}

} // verus!
