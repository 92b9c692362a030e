//! The text of the setup pages that list hardware tokens and derived DID
//! keys, line by line. Drawing it (colours, layout) is done by the caller.

use crate::setup_flow::PersonaKey;
use vstd::prelude::*;

verus! {

/// What a list of lines says.
pub open spec fn lines_view(lines: Seq<String>) -> Seq<Seq<char>> {
    lines.map_values(|l: String| l@)
}

fn push_line(lines: &mut Vec<String>, line: String)
    ensures
        lines_view(final(lines)@) == lines_view(old(lines)@).push(line@),
{
    let ghost before = lines@;
    lines.push(line);
    assert(lines_view(lines@) =~= lines_view(before).push(line@));
}

// ****************************************************************************
// Hardware token list
// ****************************************************************************

/// What is shown of a connected hardware token.
#[derive(Clone, Debug)]
pub struct TokenInfo {
    pub ident: String,
    pub manufacturer: String,
    pub cardholder_name: Option<String>,
}

/// The line of a token in the list.
pub open spec fn token_line(token: TokenInfo, highlighted: bool) -> Seq<char> {
    (if highlighted {
        "[\u{2713}] Card: "@
    } else {
        "[ ] Card: "@
    }) + token.ident@ + " Manufacturer: "@ + token.manufacturer@ + " CardHolder Name: "@ + (
    match token.cardholder_name {
        Some(n) => n@,
        None => "NOT SET"@,
    })
}

/// The lines of the tokens from position `from` on.
pub open spec fn token_lines(tokens: Seq<TokenInfo>, selected: nat, from: nat) -> Seq<Seq<char>>
    decreases tokens.len() - from,
{
    if from >= tokens.len() {
        Seq::empty()
    } else {
        seq![token_line(tokens[from as int], from == selected)] + token_lines(
            tokens,
            selected,
            from + 1,
        )
    }
}

/// The text of the token list page: the errors of the last search, then
/// either the note that no token was found or one line per token and the
/// "no token" entry, with the highlighted entry ticked.
pub open spec fn token_list_text(errors: Seq<Seq<char>>, tokens: Seq<TokenInfo>, selected: nat) -> Seq<
    Seq<char>,
> {
    let error_lines = errors.map_values(|e: Seq<char>| "ERROR: "@ + e) + (if errors.len() > 0 {
        seq![Seq::<char>::empty()]
    } else {
        Seq::empty()
    });
    error_lines + if tokens.len() == 0 {
        seq![
            "No hardware tokens were detected. Ensure tokens are plugged in and rescan."@,
            Seq::<char>::empty(),
            "[R] to rescan for tokens  |  [ENTER] to continue with no tokens"@,
        ]
    } else {
        seq!["Select token to use from detected hardware tokens:"@, Seq::<char>::empty()]
            + token_lines(tokens, selected, 0) + seq![
            if selected >= tokens.len() {
                "[\u{2713}] Do not use a hardware token"@
            } else {
                "[ ] Do not use a hardware token"@
            },
            Seq::<char>::empty(),
            "[R] to rescan for tokens  |  [TAB] to select  |  [ENTER] to continue with selected"@,
        ]
    }
}

fn token_line_text(token: &TokenInfo, highlighted: bool) -> (line: String)
    ensures
        line@ == token_line(*token, highlighted),
{
    let start = if highlighted {
        "[\u{2713}] Card: ".to_owned()
    } else {
        "[ ] Card: ".to_owned()
    };
    let name = match &token.cardholder_name {
        Some(n) => n.clone(),
        None => "NOT SET".to_owned(),
    };
    start.concat(token.ident.as_str()).concat(" Manufacturer: ").concat(
        token.manufacturer.as_str(),
    ).concat(" CardHolder Name: ").concat(name.as_str())
}

/// The lines of the token list page, for the errors of the last search, the
/// tokens found and the highlighted entry.
pub fn token_list_lines(errors: &Vec<String>, tokens: &Vec<TokenInfo>, selected: usize) -> (lines:
    Vec<String>)
    ensures
        lines_view(lines@) == token_list_text(
            errors@.map_values(|e: String| e@),
            tokens@,
            selected as nat,
        ),
{
    let mut lines: Vec<String> = Vec::new();
    let ghost errs = errors@.map_values(|e: String| e@);
    let mut i: usize = 0;
    while i < errors.len()
        invariant
            i <= errors@.len(),
            errs == errors@.map_values(|e: String| e@),
            lines_view(lines@) == errs.take(i as int).map_values(|e: Seq<char>| "ERROR: "@ + e),
        decreases errors@.len() - i,
    {
        push_line(&mut lines, "ERROR: ".to_owned().concat(errors[i].as_str()));
        assert(errs.take(i + 1).map_values(|e: Seq<char>| "ERROR: "@ + e) =~= errs.take(
            i as int,
        ).map_values(|e: Seq<char>| "ERROR: "@ + e).push("ERROR: "@ + errors@[i as int]@));
        i = i + 1;
    }
    assert(errs.take(errors@.len() as int) =~= errs);
    if errors.len() > 0 {
        push_line(&mut lines, String::new());
    }
    let ghost head = lines_view(lines@);
    if tokens.len() == 0 {
        push_line(
            &mut lines,
            "No hardware tokens were detected. Ensure tokens are plugged in and rescan.".to_owned(),
        );
        push_line(&mut lines, String::new());
        push_line(
            &mut lines,
            "[R] to rescan for tokens  |  [ENTER] to continue with no tokens".to_owned(),
        );
        assert(lines_view(lines@) =~= head + seq![
            "No hardware tokens were detected. Ensure tokens are plugged in and rescan."@,
            Seq::<char>::empty(),
            "[R] to rescan for tokens  |  [ENTER] to continue with no tokens"@,
        ]);
    } else {
        push_line(&mut lines, "Select token to use from detected hardware tokens:".to_owned());
        push_line(&mut lines, String::new());
        let ghost intro = lines_view(lines@);
        let mut k: usize = 0;
        while k < tokens.len()
            invariant
                k <= tokens@.len(),
                lines_view(lines@) + token_lines(tokens@, selected as nat, k as nat) == intro
                    + token_lines(tokens@, selected as nat, 0),
            decreases tokens@.len() - k,
        {
            let line = token_line_text(&tokens[k], k == selected);
            let ghost before = lines_view(lines@);
            push_line(&mut lines, line);
            assert(token_lines(tokens@, selected as nat, k as nat) =~= seq![
                token_line(tokens@[k as int], k == selected),
            ] + token_lines(tokens@, selected as nat, (k + 1) as nat));
            assert(before + token_lines(tokens@, selected as nat, k as nat) =~= before.push(
                token_line(tokens@[k as int], k == selected),
            ) + token_lines(tokens@, selected as nat, (k + 1) as nat));
            k = k + 1;
        }
        assert(token_lines(tokens@, selected as nat, k as nat) =~= Seq::<Seq<char>>::empty());
        assert(lines_view(lines@) =~= intro + token_lines(tokens@, selected as nat, 0));
        let ghost listed = lines_view(lines@);
        if selected >= tokens.len() {
            push_line(&mut lines, "[\u{2713}] Do not use a hardware token".to_owned());
        } else {
            push_line(&mut lines, "[ ] Do not use a hardware token".to_owned());
        }
        push_line(&mut lines, String::new());
        push_line(
            &mut lines,
            "[R] to rescan for tokens  |  [TAB] to select  |  [ENTER] to continue with selected".to_owned(),
        );
        assert(lines_view(lines@) =~= head + (seq![
            "Select token to use from detected hardware tokens:"@,
            Seq::<char>::empty(),
        ] + token_lines(tokens@, selected as nat, 0) + seq![
            if selected >= tokens@.len() {
                "[\u{2713}] Do not use a hardware token"@
            } else {
                "[ ] Do not use a hardware token"@
            },
            Seq::<char>::empty(),
            "[R] to rescan for tokens  |  [TAB] to select  |  [ENTER] to continue with selected"@,
        ]));
    }
    lines
}

/// Whether a line of a list is ticked: it starts with "[✓]".
pub open spec fn ticked(line: Seq<char>) -> bool {
    line.len() >= 3 && line.subrange(0, 3) == "[\u{2713}]"@
}

/// The number of lines that come before the token lines on the token list
/// page: one per error, a blank line after any errors, the heading and a
/// blank line.
pub open spec fn token_list_offset(errors_len: nat) -> nat {
    errors_len + (if errors_len > 0 {
        1nat
    } else {
        0nat
    }) + 2
}

/// The position in the list (tokens, then the "no token" entry) of the entry
/// that is ticked: the highlighted token, or the "no token" entry when the
/// highlight is past the last token.
pub open spec fn ticked_entry(tokens_len: nat, selected: nat) -> nat {
    if selected < tokens_len {
        selected
    } else {
        tokens_len
    }
}

proof fn lemma_ticked_by_prefix(s: Seq<char>, p: Seq<char>)
    requires
        p.len() >= 3,
        s.len() >= p.len(),
        s.subrange(0, p.len() as int) == p,
    ensures
        ticked(s) == ticked(p),
{
    assert(s.subrange(0, 3) =~= p.subrange(0, 3));
}

proof fn lemma_token_line_ticked(token: TokenInfo, highlighted: bool)
    ensures
        ticked(token_line(token, highlighted)) == highlighted,
{
    reveal_strlit("[\u{2713}] Card: ");
    reveal_strlit("[ ] Card: ");
    reveal_strlit("[\u{2713}]");
    let p = if highlighted {
        "[\u{2713}] Card: "@
    } else {
        "[ ] Card: "@
    };
    let s = token_line(token, highlighted);
    assert(s.subrange(0, p.len() as int) =~= p);
    lemma_ticked_by_prefix(s, p);
    if highlighted {
        assert(p.subrange(0, 3) =~= "[\u{2713}]"@);
    } else {
        assert(p.subrange(0, 3)[1] != "[\u{2713}]"@[1]);
    }
}

proof fn lemma_token_lines_index(tokens: Seq<TokenInfo>, selected: nat, from: nat)
    requires
        from <= tokens.len(),
    ensures
        token_lines(tokens, selected, from).len() == tokens.len() - from,
        forall|i: int|
            0 <= i < tokens.len() - from ==> token_lines(tokens, selected, from)[i] == token_line(
                tokens[from + i],
                from + i == selected,
            ),
    decreases tokens.len() - from,
{
    if from < tokens.len() {
        lemma_token_lines_index(tokens, selected, from + 1);
    }
}

/// On the token list page exactly one line is ticked when tokens were found:
/// the line of the highlighted token, or the "no token" entry when the
/// highlight is past the last token, which then reads "[✓] Do not use a
/// hardware token". The entries are listed in order, one line each, after
/// the error lines and the heading. When no token was found nothing is
/// ticked.
pub proof fn lemma_token_list_ticks_highlighted(
    errors: Seq<Seq<char>>,
    tokens: Seq<TokenInfo>,
    selected: nat,
)
    ensures
        tokens.len() > 0 ==> token_list_text(errors, tokens, selected).len() == token_list_offset(
            errors.len(),
        ) + tokens.len() + 3,
        tokens.len() > 0 ==> forall|i: int|
            0 <= i < token_list_text(errors, tokens, selected).len() ==> (ticked(
                token_list_text(errors, tokens, selected)[i],
            ) <==> i == token_list_offset(errors.len()) + ticked_entry(tokens.len(), selected)),
        tokens.len() > 0 ==> forall|j: int|
            0 <= j < tokens.len() ==> token_list_text(errors, tokens, selected)[token_list_offset(
                errors.len(),
            ) + j] == token_line(tokens[j], j == selected),
        tokens.len() > 0 && selected >= tokens.len() ==> token_list_text(errors, tokens, selected)[
            token_list_offset(errors.len()) + tokens.len() as int] == "[\u{2713}] Do not use a hardware token"@,
        tokens.len() > 0 && selected < tokens.len() ==> token_list_text(errors, tokens, selected)[
            token_list_offset(errors.len()) + tokens.len() as int] == "[ ] Do not use a hardware token"@,
        tokens.len() == 0 ==> forall|i: int|
            0 <= i < token_list_text(errors, tokens, selected).len() ==> !ticked(
                token_list_text(errors, tokens, selected)[i],
            ),
{
    reveal_strlit("[\u{2713}]");
    reveal_strlit("ERROR: ");
    reveal_strlit("No hardware tokens were detected. Ensure tokens are plugged in and rescan.");
    reveal_strlit("[R] to rescan for tokens  |  [ENTER] to continue with no tokens");
    reveal_strlit("Select token to use from detected hardware tokens:");
    reveal_strlit("[\u{2713}] Do not use a hardware token");
    reveal_strlit("[ ] Do not use a hardware token");
    reveal_strlit("[R] to rescan for tokens  |  [TAB] to select  |  [ENTER] to continue with selected");
    let t = token_list_text(errors, tokens, selected);
    let error_lines = errors.map_values(|e: Seq<char>| "ERROR: "@ + e) + (if errors.len() > 0 {
        seq![Seq::<char>::empty()]
    } else {
        Seq::empty()
    });
    let n = error_lines.len();
    assert(n == token_list_offset(errors.len()) - 2);
    assert forall|i: int| 0 <= i < n implies !ticked(#[trigger] t[i]) by {
        assert(t[i] == error_lines[i]);
        if i < errors.len() {
            assert(t[i] == "ERROR: "@ + errors[i]);
            assert(t[i][1] == 'R');
            if t[i].len() >= 3 {
                assert(t[i].subrange(0, 3)[1] != "[\u{2713}]"@[1]);
            }
        }
    }
    if tokens.len() == 0 {
        let rest = seq![
            "No hardware tokens were detected. Ensure tokens are plugged in and rescan."@,
            Seq::<char>::empty(),
            "[R] to rescan for tokens  |  [ENTER] to continue with no tokens"@,
        ];
        assert(t == error_lines + rest);
        assert forall|i: int| n <= i < t.len() implies !ticked(#[trigger] t[i]) by {
            assert(t[i] == rest[i - n]);
            if t[i].len() >= 3 {
                assert(t[i].subrange(0, 3)[1] != "[\u{2713}]"@[1]);
            }
        }
    } else {
        let tl = token_lines(tokens, selected, 0);
        lemma_token_lines_index(tokens, selected, 0);
        let entry = if selected >= tokens.len() {
            "[\u{2713}] Do not use a hardware token"@
        } else {
            "[ ] Do not use a hardware token"@
        };
        let head = seq!["Select token to use from detected hardware tokens:"@, Seq::<char>::empty()];
        let tail = seq![
            entry,
            Seq::<char>::empty(),
            "[R] to rescan for tokens  |  [TAB] to select  |  [ENTER] to continue with selected"@,
        ];
        assert(t == error_lines + (head + tl + tail));
        let m: int = (n + 2 + tokens.len()) as int;
        assert forall|i: int| n <= i < t.len() implies (ticked(#[trigger] t[i]) <==> i
            == token_list_offset(errors.len()) + ticked_entry(tokens.len(), selected)) by {
            if i < n + 2 {
                assert(t[i] == head[i - n]);
                if t[i].len() >= 3 {
                    assert(t[i].subrange(0, 3)[1] != "[\u{2713}]"@[1]);
                }
            } else if i < m {
                assert(t[i] == tl[i - n - 2]);
                lemma_token_line_ticked(tokens[i - n - 2], i - n - 2 == selected);
            } else {
                assert(t[i] == tail[i - m]);
                if i == m {
                    if selected >= tokens.len() {
                        assert(entry.subrange(0, 3) =~= "[\u{2713}]"@);
                    } else {
                        assert(entry.subrange(0, 3)[1] != "[\u{2713}]"@[1]);
                    }
                } else if t[i].len() >= 3 {
                    assert(t[i].subrange(0, 3)[1] != "[\u{2713}]"@[1]);
                }
            }
        }
        assert forall|j: int| 0 <= j < tokens.len() implies #[trigger] t[n + 2 + j] == token_line(
            tokens[j],
            j == selected,
        ) by {
            assert(t[n + 2 + j] == tl[j]);
        }
        assert(t[m] == entry);
    }
}

// ****************************************************************************
// Derived DID keys
// ****************************************************************************

/// What is shown of a derived key: its key type and public key (multibase).
#[derive(Clone, Debug)]
pub struct KeyDisplay {
    pub key_type: String,
    pub public_key: String,
}

/// What is shown of the three derived persona keys.
#[derive(Clone, Debug)]
pub struct DerivedKeysDisplay {
    pub signing: KeyDisplay,
    pub authentication: KeyDisplay,
    pub decryption: KeyDisplay,
}

/// The three lines of one key: its name and type, its public key with the
/// key that copies it (and a note when it was just copied), and a blank.
pub open spec fn key_lines(label: Seq<char>, key: KeyDisplay, digit: Seq<char>, copied: bool) -> Seq<
    Seq<char>,
> {
    seq![
        label + " ("@ + key.key_type@ + ") created:"@,
        "\u{1f511} "@ + key.public_key@ + "  ["@ + digit + "] to copy"@ + (if copied {
            "  (copied!)"@
        } else {
            Seq::empty()
        }),
        Seq::<char>::empty(),
    ]
}

/// The text of the page that shows the derived DID keys.
pub open spec fn did_keys_text(keys: Option<DerivedKeysDisplay>, copied: Option<PersonaKey>) -> Seq<
    Seq<char>,
> {
    seq![
        "\u{2713} The following keys were successfully derived from your BIP32 seed:"@,
        Seq::<char>::empty(),
    ] + match keys {
        Some(k) => key_lines("Signing Key"@, k.signing, "1"@, copied == Some(PersonaKey::Signing))
            + key_lines(
            "Authentication Key"@,
            k.authentication,
            "2"@,
            copied == Some(PersonaKey::Authentication),
        ) + key_lines(
            "Decryption Key"@,
            k.decryption,
            "3"@,
            copied == Some(PersonaKey::Decryption),
        ),
        None => seq!["ERROR: Expected to see DID Keys, instead they don't exist!"@],
    } + seq![
        "NOTE: You can export these keys for use in other applications from within LKMV at any point in the future."@,
        Seq::<char>::empty(),
        "[ENTER] Continue to next step"@,
    ]
}

fn push_key_lines(lines: &mut Vec<String>, label: &str, key: &KeyDisplay, digit: &str, copied: bool)
    ensures
        lines_view(final(lines)@) == lines_view(old(lines)@) + key_lines(label@, *key, digit@, copied),
{
    let ghost before = lines_view(lines@);
    push_line(
        lines,
        label.to_owned().concat(" (").concat(key.key_type.as_str()).concat(") created:"),
    );
    let line = "\u{1f511} ".to_owned().concat(key.public_key.as_str()).concat("  [").concat(
        digit,
    ).concat("] to copy");
    let line = if copied {
        line.concat("  (copied!)")
    } else {
        line
    };
    proof {
        if !copied {
            assert(line@ =~= line@ + Seq::<char>::empty());
        }
    }
    push_line(lines, line);
    push_line(lines, String::new());
    assert(lines_view(lines@) =~= before + key_lines(label@, *key, digit@, copied));
}

/// The lines of the page that shows the derived DID keys, with the note on
/// the key that was just copied.
pub fn did_keys_lines(keys: Option<&DerivedKeysDisplay>, copied: Option<PersonaKey>) -> (lines: Vec<
    String,
>)
    ensures
        lines_view(lines@) == did_keys_text(
            match keys {
                Some(k) => Some(*k),
                None => None,
            },
            copied,
        ),
{
    let mut lines: Vec<String> = Vec::new();
    push_line(
        &mut lines,
        "\u{2713} The following keys were successfully derived from your BIP32 seed:".to_owned(),
    );
    push_line(&mut lines, String::new());
    match keys {
        Some(k) => {
            push_key_lines(
                &mut lines,
                "Signing Key",
                &k.signing,
                "1",
                copied == Some(PersonaKey::Signing),
            );
            push_key_lines(
                &mut lines,
                "Authentication Key",
                &k.authentication,
                "2",
                copied == Some(PersonaKey::Authentication),
            );
            push_key_lines(
                &mut lines,
                "Decryption Key",
                &k.decryption,
                "3",
                copied == Some(PersonaKey::Decryption),
            );
        },
        None => {
            push_line(
                &mut lines,
                "ERROR: Expected to see DID Keys, instead they don't exist!".to_owned(),
            );
        },
    }
    push_line(
        &mut lines,
        "NOTE: You can export these keys for use in other applications from within LKMV at any point in the future.".to_owned(),
    );
    push_line(&mut lines, String::new());
    push_line(&mut lines, "[ENTER] Continue to next step".to_owned());
    assert(lines_view(lines@) =~= did_keys_text(
        match keys {
            Some(k) => Some(*k),
            None => None,
        },
        copied,
    ));
    lines
}

/// The note after a key's line when it was just copied.
pub open spec fn copied_note(copied: bool) -> Seq<char> {
    if copied {
        "  (copied!)"@
    } else {
        Seq::empty()
    }
}

/// Each derived key is shown with its own key type and its own public key,
/// in the order signing, authentication, decryption, with the digit that
/// copies it, and the "copied" note on exactly the key that was copied.
pub proof fn lemma_did_keys_lines_show_each_key(k: DerivedKeysDisplay, c: Option<PersonaKey>)
    ensures
        did_keys_text(Some(k), c).len() == 14,
        did_keys_text(Some(k), c)[2] == "Signing Key"@ + " ("@ + k.signing.key_type@
            + ") created:"@,
        did_keys_text(Some(k), c)[3] == "\u{1f511} "@ + k.signing.public_key@ + "  ["@ + "1"@
            + "] to copy"@ + copied_note(c == Some(PersonaKey::Signing)),
        did_keys_text(Some(k), c)[5] == "Authentication Key"@ + " ("@
            + k.authentication.key_type@ + ") created:"@,
        did_keys_text(Some(k), c)[6] == "\u{1f511} "@ + k.authentication.public_key@ + "  ["@
            + "2"@ + "] to copy"@ + copied_note(c == Some(PersonaKey::Authentication)),
        did_keys_text(Some(k), c)[8] == "Decryption Key"@ + " ("@ + k.decryption.key_type@
            + ") created:"@,
        did_keys_text(Some(k), c)[9] == "\u{1f511} "@ + k.decryption.public_key@ + "  ["@ + "3"@
            + "] to copy"@ + copied_note(c == Some(PersonaKey::Decryption)),
{
    let s = key_lines("Signing Key"@, k.signing, "1"@, c == Some(PersonaKey::Signing));
    let a = key_lines(
        "Authentication Key"@,
        k.authentication,
        "2"@,
        c == Some(PersonaKey::Authentication),
    );
    let d = key_lines("Decryption Key"@, k.decryption, "3"@, c == Some(PersonaKey::Decryption));
    let head = seq![
        "\u{2713} The following keys were successfully derived from your BIP32 seed:"@,
        Seq::<char>::empty(),
    ];
    let tail = seq![
        "NOTE: You can export these keys for use in other applications from within LKMV at any point in the future."@,
        Seq::<char>::empty(),
        "[ENTER] Continue to next step"@,
    ];
    let t = did_keys_text(Some(k), c);
    assert(t == head + (s + a + d) + tail);
    assert(t[2] == s[0]);
    assert(t[3] == s[1]);
    assert(t[5] == a[0]);
    assert(t[6] == a[1]);
    assert(t[8] == d[0]);
    assert(t[9] == d[1]);
}

} // verus!
