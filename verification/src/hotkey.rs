//! The text form of a global shortcut, such as `CommandOrControl+Shift+\`.
//!
//! A shortcut is written as parts joined by `+`. Each part names a
//! modifier or a key, in any letter case. The last key named is the key of
//! the shortcut.

use vstd::prelude::*;
use vstd::string::StringExecFns;
use crate::error::AppError;
use crate::text::{chars_of, spells, split, split_on};

verus! {

/// Name of the event that a pressed shortcut announces.
pub const EVENT_TOGGLE_RECORDING: &'static str = "toggle-recording";

/// The shortcut that is registered where the configured one cannot be.
pub const DEFAULT_HOTKEY: &'static str = "CommandOrControl+Shift+\\";

/// The modifier keys of a shortcut.
#[derive(Debug, Clone, Copy, PartialEq, Eq, Structural)]
pub struct Modifiers {
    pub super_key: bool,
    pub control: bool,
    pub shift: bool,
    pub alt: bool,
    pub meta: bool,
}

/// The key of a shortcut.
#[derive(Debug, Clone, Copy, PartialEq, Eq, Structural)]
pub enum KeyCode {
    Backslash,
    Slash,
    Space,
    Enter,
    Tab,
    Escape,
    Backspace,
    Delete,
    ArrowUp,
    ArrowDown,
    ArrowLeft,
    ArrowRight,
    /// `F1` to `F12`, by number.
    Function(u8),
    /// `a` to `z`, by the lowercase letter.
    Letter(char),
    /// `0` to `9`, by value.
    Digit(u8),
}

/// A parsed shortcut.
#[derive(Debug, Clone, Copy, PartialEq, Eq, Structural)]
pub struct Hotkey {
    pub modifiers: Modifiers,
    pub key: KeyCode,
}

/// What one part of a shortcut stands for.
#[derive(Debug, Clone, PartialEq, Eq)]
pub enum Token {
    Super,
    Control,
    Shift,
    Alt,
    Meta,
    Key(KeyCode),
    /// A single character that names no key; the part is kept for the report.
    UnknownKey(String),
    /// A longer word that is not known. It is passed over.
    Ignored,
}

/// The mathematical content of a `Token`.
pub enum TokenView {
    Super,
    Control,
    Shift,
    Alt,
    Meta,
    Key(KeyCode),
    UnknownKey(Seq<char>),
    Ignored,
}

impl View for Token {
    type V = TokenView;

    open spec fn view(&self) -> TokenView {
        match self {
            Token::Super => TokenView::Super,
            Token::Control => TokenView::Control,
            Token::Shift => TokenView::Shift,
            Token::Alt => TokenView::Alt,
            Token::Meta => TokenView::Meta,
            Token::Key(k) => TokenView::Key(*k),
            Token::UnknownKey(text) => TokenView::UnknownKey(text@),
            Token::Ignored => TokenView::Ignored,
        }
    }
}

/// The contents of a sequence of tokens.
pub open spec fn token_views(tokens: Seq<Token>) -> Seq<TokenView> {
    tokens.map_values(|t: Token| t@)
}

impl Modifiers {
    /// No modifier at all.
    pub open spec fn spec_none() -> Modifiers {
        Modifiers { super_key: false, control: false, shift: false, alt: false, meta: false }
    }

    /// These modifiers and the one that `token` names, if it names one.
    pub open spec fn spec_with(self, token: TokenView) -> Modifiers {
        match token {
            TokenView::Super => Modifiers { super_key: true, ..self },
            TokenView::Control => Modifiers { control: true, ..self },
            TokenView::Shift => Modifiers { shift: true, ..self },
            TokenView::Alt => Modifiers { alt: true, ..self },
            TokenView::Meta => Modifiers { meta: true, ..self },
            _ => self,
        }
    }

    /// No modifier at all.
    pub fn none() -> (m: Modifiers)
        ensures
            m == Modifiers::spec_none(),
    {
        Modifiers { super_key: false, control: false, shift: false, alt: false, meta: false }
    }

    /// Whether no modifier is set.
    pub fn is_empty(&self) -> (b: bool)
        ensures
            b == (*self == Modifiers::spec_none()),
    {
        !self.super_key && !self.control && !self.shift && !self.alt && !self.meta
    }
}

/// The function key that `token` names: `f1` to `f12`.
pub open spec fn function_key(token: Seq<char>) -> Option<u8> {
    if token == "f1"@ {
        Some(1u8)
    } else if token == "f2"@ {
        Some(2u8)
    } else if token == "f3"@ {
        Some(3u8)
    } else if token == "f4"@ {
        Some(4u8)
    } else if token == "f5"@ {
        Some(5u8)
    } else if token == "f6"@ {
        Some(6u8)
    } else if token == "f7"@ {
        Some(7u8)
    } else if token == "f8"@ {
        Some(8u8)
    } else if token == "f9"@ {
        Some(9u8)
    } else if token == "f10"@ {
        Some(10u8)
    } else if token == "f11"@ {
        Some(11u8)
    } else if token == "f12"@ {
        Some(12u8)
    } else {
        None
    }
}

/// The key that `token` names by a word or a sign of its own.
pub open spec fn named_key(token: Seq<char>) -> Option<KeyCode> {
    if token == "\\"@ || token == "backslash"@ {
        Some(KeyCode::Backslash)
    } else if token == "/"@ || token == "slash"@ {
        Some(KeyCode::Slash)
    } else if token == "space"@ {
        Some(KeyCode::Space)
    } else if token == "enter"@ || token == "return"@ {
        Some(KeyCode::Enter)
    } else if token == "tab"@ {
        Some(KeyCode::Tab)
    } else if token == "escape"@ || token == "esc"@ {
        Some(KeyCode::Escape)
    } else if token == "backspace"@ {
        Some(KeyCode::Backspace)
    } else if token == "delete"@ {
        Some(KeyCode::Delete)
    } else if token == "up"@ || token == "arrowup"@ {
        Some(KeyCode::ArrowUp)
    } else if token == "down"@ || token == "arrowdown"@ {
        Some(KeyCode::ArrowDown)
    } else if token == "left"@ || token == "arrowleft"@ {
        Some(KeyCode::ArrowLeft)
    } else if token == "right"@ || token == "arrowright"@ {
        Some(KeyCode::ArrowRight)
    } else {
        match function_key(token) {
            Some(n) => Some(KeyCode::Function(n)),
            None => None,
        }
    }
}

/// The modifier that `token` names.
pub open spec fn named_modifier(token: Seq<char>) -> Option<TokenView> {
    if token == "commandorcontrol"@ || token == "cmdorctrl"@ || token == "command"@ || token
        == "cmd"@ || token == "super"@ {
        Some(TokenView::Super)
    } else if token == "control"@ || token == "ctrl"@ {
        Some(TokenView::Control)
    } else if token == "shift"@ {
        Some(TokenView::Shift)
    } else if token == "alt"@ || token == "option"@ {
        Some(TokenView::Alt)
    } else if token == "meta"@ {
        Some(TokenView::Meta)
    } else {
        None
    }
}

/// Whether `token` is one character of the basic Latin range.
pub open spec fn is_single_ascii(token: Seq<char>) -> bool {
    token.len() == 1 && (token[0] as u32) < 128
}

/// What a lowercase part stands for, in this order: a modifier; a key
/// with a name; a letter or a digit; a single other character, which is an
/// unknown key; anything else, which is passed over.
pub open spec fn spec_classify(token: Seq<char>) -> TokenView {
    match named_modifier(token) {
        Some(m) => m,
        None => match named_key(token) {
            Some(k) => TokenView::Key(k),
            None => if is_single_ascii(token) {
                let c = token[0];
                if 'a' <= c <= 'z' {
                    TokenView::Key(KeyCode::Letter(c))
                } else if '0' <= c <= '9' {
                    TokenView::Key(KeyCode::Digit((c as u8 - '0' as u8) as u8))
                } else {
                    TokenView::UnknownKey(token)
                }
            } else {
                TokenView::Ignored
            },
        },
    }
}

fn classify_modifier(chars: &Vec<char>) -> (t: Option<Token>)
    ensures
        match named_modifier(chars@) {
            Some(m) => t matches Some(found) && found@ == m,
            None => t is None,
        },
{
    if spells(chars, "commandorcontrol") || spells(chars, "cmdorctrl") || spells(chars, "command")
        || spells(chars, "cmd") || spells(chars, "super") {
        Some(Token::Super)
    } else if spells(chars, "control") || spells(chars, "ctrl") {
        Some(Token::Control)
    } else if spells(chars, "shift") {
        Some(Token::Shift)
    } else if spells(chars, "alt") || spells(chars, "option") {
        Some(Token::Alt)
    } else if spells(chars, "meta") {
        Some(Token::Meta)
    } else {
        None
    }
}

fn classify_function_key(chars: &Vec<char>) -> (n: Option<u8>)
    ensures
        n == function_key(chars@),
{
    if spells(chars, "f1") {
        Some(1)
    } else if spells(chars, "f2") {
        Some(2)
    } else if spells(chars, "f3") {
        Some(3)
    } else if spells(chars, "f4") {
        Some(4)
    } else if spells(chars, "f5") {
        Some(5)
    } else if spells(chars, "f6") {
        Some(6)
    } else if spells(chars, "f7") {
        Some(7)
    } else if spells(chars, "f8") {
        Some(8)
    } else if spells(chars, "f9") {
        Some(9)
    } else if spells(chars, "f10") {
        Some(10)
    } else if spells(chars, "f11") {
        Some(11)
    } else if spells(chars, "f12") {
        Some(12)
    } else {
        None
    }
}

fn classify_named_key(chars: &Vec<char>) -> (k: Option<KeyCode>)
    ensures
        k == named_key(chars@),
{
    if spells(chars, "\\") || spells(chars, "backslash") {
        Some(KeyCode::Backslash)
    } else if spells(chars, "/") || spells(chars, "slash") {
        Some(KeyCode::Slash)
    } else if spells(chars, "space") {
        Some(KeyCode::Space)
    } else if spells(chars, "enter") || spells(chars, "return") {
        Some(KeyCode::Enter)
    } else if spells(chars, "tab") {
        Some(KeyCode::Tab)
    } else if spells(chars, "escape") || spells(chars, "esc") {
        Some(KeyCode::Escape)
    } else if spells(chars, "backspace") {
        Some(KeyCode::Backspace)
    } else if spells(chars, "delete") {
        Some(KeyCode::Delete)
    } else if spells(chars, "up") || spells(chars, "arrowup") {
        Some(KeyCode::ArrowUp)
    } else if spells(chars, "down") || spells(chars, "arrowdown") {
        Some(KeyCode::ArrowDown)
    } else if spells(chars, "left") || spells(chars, "arrowleft") {
        Some(KeyCode::ArrowLeft)
    } else if spells(chars, "right") || spells(chars, "arrowright") {
        Some(KeyCode::ArrowRight)
    } else {
        match classify_function_key(chars) {
            Some(n) => Some(KeyCode::Function(n)),
            None => None,
        }
    }
}

/// Says what a part of a shortcut, already in lowercase, stands for.
pub fn classify_token(token: String) -> (t: Token)
    ensures
        t@ == spec_classify(token@),
{
    let chars = chars_of(token.as_str());
    if let Some(m) = classify_modifier(&chars) {
        return m;
    }
    if let Some(k) = classify_named_key(&chars) {
        return Token::Key(k);
    }
    if chars.len() == 1 && (chars[0] as u32) < 128 {
        let c = chars[0];
        if 'a' <= c && c <= 'z' {
            Token::Key(KeyCode::Letter(c))
        } else if '0' <= c && c <= '9' {
            Token::Key(KeyCode::Digit(c as u8 - '0' as u8))
        } else {
            Token::UnknownKey(token)
        }
    } else {
        Token::Ignored
    }
}

/// The modifiers named among the first `upto` tokens.
pub open spec fn modifiers_upto(tokens: Seq<TokenView>, upto: int) -> Modifiers
    decreases upto,
{
    if upto <= 0 {
        Modifiers::spec_none()
    } else {
        modifiers_upto(tokens, upto - 1).spec_with(tokens[upto - 1])
    }
}

/// The last key named among the first `upto` tokens.
pub open spec fn key_upto(tokens: Seq<TokenView>, upto: int) -> Option<KeyCode>
    decreases upto,
{
    if upto <= 0 {
        None
    } else {
        match tokens[upto - 1] {
            TokenView::Key(k) => Some(k),
            _ => key_upto(tokens, upto - 1),
        }
    }
}

/// The first token from `from` on that is an unknown key, if there is one.
pub open spec fn first_unknown(tokens: Seq<TokenView>, from: int) -> Option<Seq<char>>
    decreases tokens.len() - from,
{
    if from < 0 || from >= tokens.len() {
        None
    } else {
        match tokens[from] {
            TokenView::UnknownKey(text) => Some(text),
            _ => first_unknown(tokens, from + 1),
        }
    }
}

/// The shortcut that a sequence of tokens spells, or what is wrong with it.
pub open spec fn spec_assemble(tokens: Seq<TokenView>) -> Result<Hotkey, Seq<char>> {
    match first_unknown(tokens, 0) {
        Some(text) => Err("Unknown key: "@ + text),
        None => match key_upto(tokens, tokens.len() as int) {
            None => Err("No key specified in hotkey"@),
            Some(key) => Ok(
                Hotkey { modifiers: modifiers_upto(tokens, tokens.len() as int), key },
            ),
        },
    }
}

/// Puts a shortcut together from its tokens.
///
/// The modifiers add up, and the last key named is the key. It is a
/// configuration error if a token is an unknown key (the first such is
/// reported), or if no key is named at all.
pub fn assemble(tokens: &Vec<Token>) -> (r: Result<Hotkey, AppError>)
    ensures
        match spec_assemble(token_views(tokens@)) {
            Ok(hotkey) => r == Ok::<Hotkey, AppError>(hotkey),
            Err(text) => r matches Err(AppError::Config(detail)) && detail@ == text,
        },
{
    let ghost views = token_views(tokens@);
    let mut modifiers = Modifiers::none();
    let mut key: Option<KeyCode> = None;
    let mut i: usize = 0;
    while i < tokens.len()
        invariant
            i <= tokens.len(),
            views == token_views(tokens@),
            first_unknown(views, 0) == first_unknown(views, i as int),
            modifiers == modifiers_upto(views, i as int),
            key == key_upto(views, i as int),
        decreases tokens.len() - i,
    {
        match &tokens[i] {
            Token::Super => {
                modifiers.super_key = true;
            },
            Token::Control => {
                modifiers.control = true;
            },
            Token::Shift => {
                modifiers.shift = true;
            },
            Token::Alt => {
                modifiers.alt = true;
            },
            Token::Meta => {
                modifiers.meta = true;
            },
            Token::Key(k) => {
                key = Some(*k);
            },
            Token::UnknownKey(text) => {
                let detail = String::from_str("Unknown key: ").concat(text.as_str());
                return Err(AppError::Config(detail));
            },
            Token::Ignored => {},
        }
        i += 1;
    }
    match key {
        None => Err(AppError::Config(String::from_str("No key specified in hotkey"))),
        Some(key) => Ok(Hotkey { modifiers, key }),
    }
}

/// The lowercase form of a text.
pub uninterp spec fn lowercase(text: Seq<char>) -> Seq<char>;

/// Calls `str::to_lowercase` of the standard library. Trusted: the result
/// is that function's value on this text.
#[verifier::external_body]
fn to_lowercase(text: &str) -> (lower: String)
    ensures
        lower@ == lowercase(text@),
{
    text.to_lowercase()
}

/// The tokens of a shortcut: its parts between `+`, each in lowercase and
/// classified.
pub open spec fn spec_tokenize(hotkey_str: Seq<char>) -> Seq<TokenView> {
    split_on(hotkey_str, '+').map_values(|part: Seq<char>| spec_classify(lowercase(part)))
}

/// What a shortcut parses to: the shortcut that its tokens spell.
pub open spec fn spec_parse(hotkey_str: Seq<char>) -> Result<Hotkey, Seq<char>> {
    spec_assemble(spec_tokenize(hotkey_str))
}

/// Reads the parts of a shortcut.
pub fn tokenize(hotkey_str: &str) -> (tokens: Vec<Token>)
    ensures
        token_views(tokens@) == spec_tokenize(hotkey_str@),
{
    let parts = split(hotkey_str, '+');
    let mut tokens: Vec<Token> = Vec::new();
    let mut i: usize = 0;
    while i < parts.len()
        invariant
            i <= parts.len(),
            tokens@.len() == i,
            parts@.len() == split_on(hotkey_str@, '+').len(),
            forall|j: int|
                0 <= j < parts@.len() ==> (#[trigger] parts@[j])@ == split_on(hotkey_str@, '+')[j],
            forall|j: int|
                0 <= j < i ==> (#[trigger] tokens@[j])@ == spec_classify(
                    lowercase(split_on(hotkey_str@, '+')[j]),
                ),
        decreases parts.len() - i,
    {
        let lower = to_lowercase(parts[i]);
        let token = classify_token(lower);
        tokens.push(token);
        i += 1;
    }
    tokens
}

/// Parses a shortcut such as `Ctrl+Alt+A`.
///
/// The parts between `+` are read in lowercase. The modifiers among them
/// add up, and the last key named is the key. It is a configuration error
/// if a part is a single character that names no key, or if no key is named.
pub fn parse_hotkey(hotkey_str: &str) -> (r: Result<Hotkey, AppError>)
    ensures
        match spec_parse(hotkey_str@) {
            Ok(hotkey) => r == Ok::<Hotkey, AppError>(hotkey),
            Err(text) => r matches Err(AppError::Config(detail)) && detail@ == text,
        },
{
    let tokens = tokenize(hotkey_str);
    assemble(&tokens)
}

} // verus!
