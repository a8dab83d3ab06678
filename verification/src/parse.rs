//! The grammar of action strings: `modifier+modifier+primary`.
//!
//! An action string is cut at every `+`. Each piece is folded into a token
//! (see [`crate::text::folded`]), and each token names a modifier key, a
//! primary action, or nothing.

use vstd::prelude::*;
use vstd::string::*;
use crate::action::{Action, ActionView, Button, Key, PrimaryAction};
use crate::text::{
    first_index_of, fold, folded, is_digit, is_one_byte, lowercase, lowercase_of, one_byte, split,
    split_spec, str_eq, trim, trimmed,
};

verus! {

/// Why an action string was refused.
#[derive(Debug)]
pub enum ParseError {
    /// The string names no primary action and no modifier.
    NoPrimaryAction,
    /// The string names more than one primary action.
    MultiplePrimaryActions,
    /// The string holds this token, which names nothing.
    UnknownKey(String),
}

/// A parse error as a mathematical value.
pub enum ParseErrorView {
    NoPrimaryAction,
    MultiplePrimaryActions,
    UnknownKey(Seq<char>),
}

impl View for ParseError {
    type V = ParseErrorView;

    open spec fn view(&self) -> ParseErrorView {
        match self {
            ParseError::NoPrimaryAction => ParseErrorView::NoPrimaryAction,
            ParseError::MultiplePrimaryActions => ParseErrorView::MultiplePrimaryActions,
            ParseError::UnknownKey(token) => ParseErrorView::UnknownKey(token@),
        }
    }
}

impl ParseError {
    /// The message of the error as text.
    pub open spec fn message_spec(&self) -> Seq<char> {
        match self {
            ParseError::NoPrimaryAction => "no primary action found"@,
            ParseError::MultiplePrimaryActions => "more than one primary action found"@,
            ParseError::UnknownKey(token) => "unrecognized key: "@ + token@,
        }
    }

    /// The message of the error as text.
    pub fn message(&self) -> (text: String)
        ensures
            text@ == self.message_spec(),
    {
        match self {
            ParseError::NoPrimaryAction => String::from_str("no primary action found"),
            ParseError::MultiplePrimaryActions => String::from_str(
                "more than one primary action found",
            ),
            ParseError::UnknownKey(token) => {
                String::from_str("unrecognized key: ").concat(token.as_str())
            },
        }
    }
}

/// What a token names.
pub enum Token {
    Modifier(Key),
    Primary(PrimaryAction),
    Unknown,
}

/// The modifier key that a token names.
pub open spec fn modifier_of(token: Seq<char>) -> Option<Key> {
    if token == "ctrl"@ || token == "control"@ {
        Some(Key::Control)
    } else if token == "shift"@ {
        Some(Key::Shift)
    } else if token == "alt"@ {
        Some(Key::Alt)
    } else if token == "meta"@ || token == "cmd"@ || token == "win"@ {
        Some(Key::Meta)
    } else {
        None
    }
}

/// The mouse or on-screen-keyboard action that a token names.
pub open spec fn pointer_action_of(token: Seq<char>) -> Option<PrimaryAction> {
    if token == "mouseleft"@ {
        Some(PrimaryAction::MouseClick { button: Button::Left })
    } else if token == "mouseright"@ {
        Some(PrimaryAction::MouseClick { button: Button::Right })
    } else if token == "mousemiddle"@ {
        Some(PrimaryAction::MouseClick { button: Button::Middle })
    } else if token == "mousex1"@ {
        Some(PrimaryAction::MouseClick { button: Button::Forward })
    } else if token == "mousex2"@ {
        Some(PrimaryAction::MouseClick { button: Button::Back })
    } else if token == "mousewheelup"@ {
        Some(PrimaryAction::MouseWheel { amount: -1i32 })
    } else if token == "mousewheeldown"@ {
        Some(PrimaryAction::MouseWheel { amount: 1 })
    } else if token == "virtualkeyboard"@ {
        Some(PrimaryAction::VirtualKeyboard { virtual_keyboard: Some(true) })
    } else {
        None
    }
}

/// The key with a name of its own that a token names.
pub open spec fn named_key_of(token: Seq<char>) -> Option<Key> {
    if token == "space"@ {
        Some(Key::Space)
    } else if token == "enter"@ {
        Some(Key::Unicode('\r'))
    } else if token == "backspace"@ {
        Some(Key::Backspace)
    } else if token == "tab"@ {
        Some(Key::Tab)
    } else if token == "delete"@ {
        Some(Key::Delete)
    } else if token == "pageup"@ {
        Some(Key::PageUp)
    } else if token == "pagedown"@ {
        Some(Key::PageDown)
    } else if token == "home"@ {
        Some(Key::Home)
    } else if token == "end"@ {
        Some(Key::End)
    } else if token == "capslock"@ {
        Some(Key::CapsLock)
    } else if token == "printscreen"@ {
        Some(Key::PrintScr)
    } else if token == "scrolllock"@ {
        Some(Key::Scroll)
    } else if token == "pause"@ {
        Some(Key::Pause)
    } else {
        None
    }
}

/// The number that a text of decimal digits writes.
pub open spec fn digits_value(digits: Seq<char>) -> nat
    decreases digits.len(),
{
    if digits.len() == 0 {
        0
    } else {
        digits_value(digits.drop_last()) * 10 + ((digits.last() as u32) - ('0' as u32)) as nat
    }
}

/// Whether a token has the form of a function key: an `f` and then digits,
/// at least one.
pub open spec fn function_key_form(token: Seq<char>) -> bool {
    token.len() > 1 && token[0] == 'f' && forall|i: int|
        1 <= i < token.len() ==> is_digit(#[trigger] token[i])
}

/// The function key with the given number, if there is one.
pub open spec fn function_key_spec(num: int) -> Option<Key> {
    if 1 <= num <= 24 {
        Some(Key::F(num as u8))
    } else {
        None
    }
}

/// The key that a token names: a key with a name of its own, a function key
/// from `f1` to `f24`, or the key of a single one-byte character.
pub open spec fn key_of(token: Seq<char>) -> Option<Key> {
    if named_key_of(token) is Some {
        named_key_of(token)
    } else if function_key_form(token) {
        function_key_spec(digits_value(token.skip(1)) as int)
    } else if one_byte(token) {
        Some(Key::Unicode(token[0]))
    } else {
        None
    }
}

/// What a token names. Modifiers come first, then mouse actions, then keys.
pub open spec fn token_of(token: Seq<char>) -> Token {
    if modifier_of(token) is Some {
        Token::Modifier(modifier_of(token)->0)
    } else if pointer_action_of(token) is Some {
        Token::Primary(pointer_action_of(token)->0)
    } else if key_of(token) is Some {
        Token::Primary(PrimaryAction::KeyPress { key: key_of(token)->0 })
    } else {
        Token::Unknown
    }
}

/// The result of reading the tokens from place `i` on, with the modifiers
/// and the primary action that the tokens before `i` gave.
///
/// The first token that names nothing, or that names a second primary
/// action, ends the reading with its error. Tokens that name only modifiers
/// give an action that holds them and does nothing else.
pub open spec fn parse_tokens_from(
    tokens: Seq<Seq<char>>,
    i: int,
    modifiers: Seq<Key>,
    primary: Option<PrimaryAction>,
) -> Result<ActionView, ParseErrorView>
    decreases tokens.len() - i,
{
    if i < 0 || i >= tokens.len() {
        match primary {
            Some(p) => Ok(ActionView { modifiers, primary: p }),
            None => if modifiers.len() > 0 {
                Ok(ActionView { modifiers, primary: PrimaryAction::NoAction { none: None } })
            } else {
                Err(ParseErrorView::NoPrimaryAction)
            },
        }
    } else {
        match token_of(tokens[i]) {
            Token::Modifier(key) => parse_tokens_from(tokens, i + 1, modifiers.push(key), primary),
            Token::Primary(p) => if primary is Some {
                Err(ParseErrorView::MultiplePrimaryActions)
            } else {
                parse_tokens_from(tokens, i + 1, modifiers, Some(p))
            },
            Token::Unknown => Err(ParseErrorView::UnknownKey(tokens[i])),
        }
    }
}

/// The action that a list of tokens describes.
pub open spec fn parse_tokens_spec(tokens: Seq<Seq<char>>) -> Result<ActionView, ParseErrorView> {
    parse_tokens_from(tokens, 0, Seq::empty(), None)
}

/// The tokens of an action string.
pub open spec fn tokens_of(composed: Seq<char>) -> Seq<Seq<char>> {
    split_spec(composed, '+').map_values(|piece: Seq<char>| folded(piece))
}

/// The action that an action string describes.
pub open spec fn parse_spec(composed: Seq<char>) -> Result<ActionView, ParseErrorView> {
    parse_tokens_spec(tokens_of(composed))
}

/// The views of the two sides of a parse result.
pub open spec fn result_view(result: Result<Action, ParseError>) -> Result<
    ActionView,
    ParseErrorView,
> {
    match result {
        Ok(action) => Ok(action@),
        Err(error) => Err(error@),
    }
}

/// Puts `action` into `primary_field` if it is still empty.
pub fn set_primary(primary_field: &mut Option<PrimaryAction>, action: PrimaryAction) -> (result:
    Result<(), ParseError>)
    ensures
        *old(primary_field) is None ==> result is Ok && *final(primary_field) == Some(action),
        *old(primary_field) is Some ==> result is Err && result->Err_0 is MultiplePrimaryActions
            && *final(primary_field) == *old(primary_field),
{
    if primary_field.is_some() {
        Err(ParseError::MultiplePrimaryActions)
    } else {
        *primary_field = Some(action);
        Ok(())
    }
}

/// The function key with number `num`, for numbers from 1 to 24.
pub fn get_function_key(num: u8) -> (key: Option<Key>)
    ensures
        key == function_key_spec(num as int),
{
    if 1 <= num && num <= 24 {
        Some(Key::F(num))
    } else {
        None
    }
}

fn modifier(token: &str) -> (key: Option<Key>)
    ensures
        key == modifier_of(token@),
{
    if str_eq(token, "ctrl") || str_eq(token, "control") {
        Some(Key::Control)
    } else if str_eq(token, "shift") {
        Some(Key::Shift)
    } else if str_eq(token, "alt") {
        Some(Key::Alt)
    } else if str_eq(token, "meta") || str_eq(token, "cmd") || str_eq(token, "win") {
        Some(Key::Meta)
    } else {
        None
    }
}

fn pointer_action(token: &str) -> (action: Option<PrimaryAction>)
    ensures
        action == pointer_action_of(token@),
{
    if str_eq(token, "mouseleft") {
        Some(PrimaryAction::MouseClick { button: Button::Left })
    } else if str_eq(token, "mouseright") {
        Some(PrimaryAction::MouseClick { button: Button::Right })
    } else if str_eq(token, "mousemiddle") {
        Some(PrimaryAction::MouseClick { button: Button::Middle })
    } else if str_eq(token, "mousex1") {
        Some(PrimaryAction::MouseClick { button: Button::Forward })
    } else if str_eq(token, "mousex2") {
        Some(PrimaryAction::MouseClick { button: Button::Back })
    } else if str_eq(token, "mousewheelup") {
        Some(PrimaryAction::MouseWheel { amount: -1 })
    } else if str_eq(token, "mousewheeldown") {
        Some(PrimaryAction::MouseWheel { amount: 1 })
    } else if str_eq(token, "virtualkeyboard") {
        Some(PrimaryAction::VirtualKeyboard { virtual_keyboard: Some(true) })
    } else {
        None
    }
}

fn named_key(token: &str) -> (key: Option<Key>)
    ensures
        key == named_key_of(token@),
{
    if str_eq(token, "space") {
        Some(Key::Space)
    } else if str_eq(token, "enter") {
        Some(Key::Unicode('\r'))
    } else if str_eq(token, "backspace") {
        Some(Key::Backspace)
    } else if str_eq(token, "tab") {
        Some(Key::Tab)
    } else if str_eq(token, "delete") {
        Some(Key::Delete)
    } else if str_eq(token, "pageup") {
        Some(Key::PageUp)
    } else if str_eq(token, "pagedown") {
        Some(Key::PageDown)
    } else if str_eq(token, "home") {
        Some(Key::Home)
    } else if str_eq(token, "end") {
        Some(Key::End)
    } else if str_eq(token, "capslock") {
        Some(Key::CapsLock)
    } else if str_eq(token, "printscreen") {
        Some(Key::PrintScr)
    } else if str_eq(token, "scrolllock") {
        Some(Key::Scroll)
    } else if str_eq(token, "pause") {
        Some(Key::Pause)
    } else {
        None
    }
}

proof fn lemma_digits_value_grows(digits: Seq<char>, n: int)
    requires
        0 <= n < digits.len(),
        forall|i: int| 0 <= i < digits.len() ==> is_digit(#[trigger] digits[i]),
    ensures
        digits_value(digits.take(n)) <= digits_value(digits),
    decreases digits.len() - n,
{
    let longer = digits.take(n + 1);
    assert(longer.drop_last() =~= digits.take(n));
    assert(is_digit(digits[n]));
    assert(longer.last() == digits[n]);
    assert(digits_value(longer) >= digits_value(digits.take(n)));
    if n + 1 < digits.len() {
        lemma_digits_value_grows(digits, n + 1);
    } else {
        assert(longer =~= digits);
    }
}

/// Says whether `token` has the form of a function key, and if so which key
/// it names, if any.
fn function_key(token: &str) -> (found: Option<Option<Key>>)
    ensures
        found is Some == function_key_form(token@),
        found is Some ==> found->0 == function_key_spec(digits_value(token@.skip(1)) as int),
{
    let n = token.unicode_len();
    if n <= 1 || token.get_char(0) != 'f' {
        return None;
    }
    let ghost digits = token@.skip(1);
    let mut value: u32 = 0;
    let mut i: usize = 1;
    while i < n
        invariant
            1 <= i <= n,
            n == token@.len(),
            token@[0] == 'f',
            digits == token@.skip(1),
            forall|k: int| 1 <= k < i ==> is_digit(#[trigger] token@[k]),
            value <= 255,
            value == digits_value(digits.take(i - 1)),
        decreases n - i,
    {
        let c = token.get_char(i);
        if !('0' <= c && c <= '9') {
            return None;
        }
        let digit: u32 = (c as u32) - ('0' as u32);
        proof {
            assert(digits.take(i as int).drop_last() =~= digits.take(i - 1));
            assert(digits.take(i as int).last() == token@[i as int]);
        }
        let next: u32 = value * 10 + digit;
        if next > 255 {
            // Every digit from here on must still be one, or the token has
            // another form.
            let mut j: usize = i + 1;
            while j < n
                invariant
                    i < j <= n,
                    n == token@.len(),
                    forall|k: int| 1 <= k < j ==> is_digit(#[trigger] token@[k]),
                decreases n - j,
            {
                let d = token.get_char(j);
                if !('0' <= d && d <= '9') {
                    return None;
                }
                j += 1;
            }
            proof {
                assert forall|k: int| 0 <= k < digits.len() implies is_digit(
                    #[trigger] digits[k],
                ) by {
                    assert(digits[k] == token@[k + 1]);
                }
                if (i as int) < digits.len() {
                    lemma_digits_value_grows(digits, i as int);
                } else {
                    assert(digits.take(i as int) =~= digits);
                }
            }
            return Some(None);
        }
        value = next;
        i += 1;
    }
    proof {
        assert(digits.take(n - 1) =~= digits);
    }
    Some(get_function_key(value as u8))
}

fn key(token: &str) -> (found: Option<Key>)
    ensures
        found == key_of(token@),
{
    let named = named_key(token);
    if named.is_some() {
        return named;
    }
    match function_key(token) {
        Some(found) => found,
        None => {
            if is_one_byte(token) {
                Some(Key::Unicode(token.get_char(0)))
            } else {
                None
            }
        },
    }
}

/// Says what a token names.
pub fn classify(token: &str) -> (class: Token)
    ensures
        class == token_of(token@),
{
    match modifier(token) {
        Some(key) => Token::Modifier(key),
        None => match pointer_action(token) {
            Some(action) => Token::Primary(action),
            None => match key(token) {
                Some(key) => Token::Primary(PrimaryAction::KeyPress { key }),
                None => Token::Unknown,
            },
        },
    }
}

/// The texts of a list of strings.
pub open spec fn texts(tokens: Seq<String>) -> Seq<Seq<char>> {
    tokens.map_values(|token: String| token@)
}

/// Reads an action from tokens that are already folded.
///
/// Succeeds exactly when every token names something and at most one of
/// them names a primary action. Fails at the first token that names nothing
/// with `UnknownKey`, at a second primary action with
/// `MultiplePrimaryActions`, and on an empty list with `NoPrimaryAction`.
pub fn parse_tokens(tokens: &Vec<String>) -> (result: Result<Action, ParseError>)
    ensures
        result_view(result) == parse_tokens_spec(texts(tokens@)),
{
    let ghost all = texts(tokens@);
    let mut modifiers: Vec<Key> = Vec::new();
    let mut primary: Option<PrimaryAction> = None;
    let mut i: usize = 0;
    while i < tokens.len()
        invariant
            i <= tokens.len(),
            all == texts(tokens@),
            parse_tokens_spec(all) == parse_tokens_from(all, i as int, modifiers@, primary),
        decreases tokens.len() - i,
    {
        assert(all[i as int] == tokens@[i as int]@);
        match classify(tokens[i].as_str()) {
            Token::Modifier(key) => {
                modifiers.push(key);
            },
            Token::Primary(action) => {
                match set_primary(&mut primary, action) {
                    Ok(()) => {},
                    Err(error) => {
                        return Err(error);
                    },
                }
            },
            Token::Unknown => {
                return Err(ParseError::UnknownKey(tokens[i].clone()));
            },
        }
        i += 1;
    }
    match primary {
        Some(p) => Ok(Action { modifiers, primary: p }),
        None => {
            if modifiers.len() > 0 {
                Ok(Action { modifiers, primary: PrimaryAction::NoAction { none: None } })
            } else {
                Err(ParseError::NoPrimaryAction)
            }
        },
    }
}

/// Reads the action that an action string describes.
///
/// The string is cut at every `+`; each piece that takes more than one byte
/// loses the white space round it, and every piece is put into lower case.
/// The tokens are then read as `parse_tokens` reads them. Because even the
/// empty string has one piece, `NoPrimaryAction` never comes from here.
pub fn parse_composed_key_to_action(composed: &str) -> (result: Result<Action, ParseError>)
    ensures
        result_view(result) == parse_spec(composed@),
        !(result_view(result) matches Err(ParseErrorView::NoPrimaryAction)),
{
    let pieces = split(composed, '+');
    let mut tokens: Vec<String> = Vec::new();
    let mut i: usize = 0;
    while i < pieces.len()
        invariant
            i <= pieces.len(),
            pieces@.len() == split_spec(composed@, '+').len(),
            forall|k: int|
                0 <= k < pieces@.len() ==> (#[trigger] pieces@[k])@ == split_spec(composed@, '+')[k],
            tokens@.len() == i,
            forall|k: int| 0 <= k < i ==> (#[trigger] tokens@[k])@ == tokens_of(composed@)[k],
        decreases pieces.len() - i,
    {
        let token = fold(pieces[i]);
        tokens.push(token);
        i += 1;
    }
    proof {
        assert(texts(tokens@) =~= tokens_of(composed@));
        lemma_split_nonempty(composed@, '+');
        lemma_some_token_never_lacks_primary(tokens_of(composed@), 0, Seq::empty(), None);
    }
    parse_tokens(&tokens)
}

/// A text always splits into at least one piece.
pub proof fn lemma_split_nonempty(text: Seq<char>, sep: char)
    ensures
        split_spec(text, sep).len() >= 1,
    decreases text.len(),
{
    let i = first_index_of(text, sep);
    if 0 <= i < text.len() {
        lemma_split_nonempty(text.skip(i + 1), sep);
    }
}

/// Reading at least one token never ends for want of a primary action: a
/// token is a modifier, a primary action or an error of its own.
pub proof fn lemma_some_token_never_lacks_primary(
    tokens: Seq<Seq<char>>,
    i: int,
    modifiers: Seq<Key>,
    primary: Option<PrimaryAction>,
)
    requires
        0 <= i <= tokens.len(),
        i < tokens.len() || primary is Some || modifiers.len() > 0,
    ensures
        !(parse_tokens_from(tokens, i, modifiers, primary) matches Err(
            ParseErrorView::NoPrimaryAction,
        )),
    decreases tokens.len() - i,
{
    if i < tokens.len() {
        match token_of(tokens[i]) {
            Token::Modifier(key) => {
                lemma_some_token_never_lacks_primary(tokens, i + 1, modifiers.push(key), primary);
            },
            Token::Primary(p) => {
                if primary is None {
                    lemma_some_token_never_lacks_primary(tokens, i + 1, modifiers, Some(p));
                }
            },
            Token::Unknown => {},
        }
    }
}

/// The key that a token of a plain key combination names: a modifier, the
/// space key under its name, or the key of a single one-byte character.
pub open spec fn plain_key_of(token: Seq<char>) -> Option<Key> {
    if modifier_of(token) is Some {
        modifier_of(token)
    } else if token == "space"@ || token == " "@ {
        Some(Key::Unicode(' '))
    } else if one_byte(token) {
        Some(Key::Unicode(token[0]))
    } else {
        None
    }
}

/// The keys that the tokens of a plain key combination name, in order;
/// tokens that name nothing are passed over.
pub open spec fn plain_keys_of(tokens: Seq<Seq<char>>) -> Seq<Key>
    decreases tokens.len(),
{
    if tokens.len() == 0 {
        Seq::empty()
    } else {
        let before = plain_keys_of(tokens.drop_last());
        match plain_key_of(tokens.last()) {
            Some(key) => before.push(key),
            None => before,
        }
    }
}

/// The tokens of a plain key combination: every piece without the white
/// space round it, in lower case.
pub open spec fn plain_tokens_of(composed: Seq<char>) -> Seq<Seq<char>> {
    split_spec(composed, '+').map_values(|piece: Seq<char>| lowercase_of(trimmed(piece)))
}

fn plain_key(token: &str) -> (key: Option<Key>)
    ensures
        key == plain_key_of(token@),
{
    let found = modifier(token);
    if found.is_some() {
        found
    } else if str_eq(token, "space") || str_eq(token, " ") {
        Some(Key::Unicode(' '))
    } else if is_one_byte(token) {
        Some(Key::Unicode(token.get_char(0)))
    } else {
        None
    }
}

/// Reads a plain key combination such as `ctrl+shift+a` as the list of its
/// keys. Pieces that name no key are passed over.
pub fn parse_composed_key(composed: &str) -> (keys: Vec<Key>)
    ensures
        keys@ == plain_keys_of(plain_tokens_of(composed@)),
{
    let pieces = split(composed, '+');
    let ghost tokens = plain_tokens_of(composed@);
    let mut keys: Vec<Key> = Vec::new();
    let mut i: usize = 0;
    assert(tokens.take(0) =~= Seq::<Seq<char>>::empty());
    while i < pieces.len()
        invariant
            i <= pieces.len(),
            tokens == plain_tokens_of(composed@),
            pieces@.len() == split_spec(composed@, '+').len(),
            forall|k: int|
                0 <= k < pieces@.len() ==> (#[trigger] pieces@[k])@ == split_spec(composed@, '+')[k],
            keys@ == plain_keys_of(tokens.take(i as int)),
        decreases pieces.len() - i,
    {
        let token = lowercase(trim(pieces[i]));
        proof {
            assert(tokens.take(i + 1).drop_last() =~= tokens.take(i as int));
            assert(tokens.take(i + 1).last() == token@);
        }
        match plain_key(token.as_str()) {
            Some(key) => {
                keys.push(key);
            },
            None => {},
        }
        i += 1;
    }
    assert(tokens.take(i as int) =~= tokens);
    keys
}

} // verus!
