//! The minimal edit that turns the text already typed into the text wanted.

use vstd::prelude::*;
use vstd::string::{StrSliceExecFns, StringExecFns};
use crate::text::{chars_of, decimal_digits, decimal_string};

verus! {

/// How a piece of text reached the target application.
#[derive(Debug, Clone, Copy, PartialEq, Eq, Structural)]
pub enum InsertResult {
    Inserted,
    CopiedToClipboard,
}

/// An edit at the end of a text: delete some characters, then type others.
#[derive(Debug, Clone)]
pub struct TextDiff {
    /// Number of characters to delete (backspaces needed).
    pub delete_count: usize,
    /// Text to insert after the deletion.
    pub insert_text: String,
    /// Number of leading characters that both texts share.
    pub common_prefix_len: usize,
}

/// The length of the longest prefix that `a` and `b` have in common.
pub open spec fn common_prefix_len(a: Seq<char>, b: Seq<char>) -> nat
    decreases a.len(),
{
    if a.len() == 0 || b.len() == 0 || a[0] != b[0] {
        0
    } else {
        1 + common_prefix_len(a.drop_first(), b.drop_first())
    }
}

/// `k` characters are shared, and the next ones (if both exist) differ.
pub open spec fn is_longest_common_prefix(a: Seq<char>, b: Seq<char>, k: nat) -> bool {
    &&& k <= a.len()
    &&& k <= b.len()
    &&& forall|j: int| 0 <= j < k ==> a[j] == b[j]
    &&& (k < a.len() && k < b.len() ==> a[k as int] != b[k as int])
}

/// Any `k` that satisfies `is_longest_common_prefix` is `common_prefix_len`.
pub proof fn lemma_common_prefix_unique(a: Seq<char>, b: Seq<char>, k: nat)
    requires
        is_longest_common_prefix(a, b, k),
    ensures
        common_prefix_len(a, b) == k,
    decreases a.len(),
{
    if k > 0 {
        lemma_common_prefix_unique(a.drop_first(), b.drop_first(), (k - 1) as nat);
    }
}

/// `common_prefix_len` is the longest common prefix: the texts agree before
/// it and, where both go on, differ at it.
pub proof fn lemma_common_prefix_is_longest(a: Seq<char>, b: Seq<char>)
    ensures
        is_longest_common_prefix(a, b, common_prefix_len(a, b)),
        a.take(common_prefix_len(a, b) as int) == b.take(common_prefix_len(a, b) as int),
    decreases a.len(),
{
    let k = common_prefix_len(a, b);
    if a.len() > 0 && b.len() > 0 && a[0] == b[0] {
        let a1 = a.drop_first();
        lemma_common_prefix_is_longest(a1, b.drop_first());
        assert forall|j: int| 0 <= j < k implies a[j] == b[j] by {
            if j > 0 {
                assert(a1[j - 1] == a[j]);
            }
        }
    }
}

/// The mathematical content of a `TextDiff`.
pub struct TextDiffView {
    pub delete_count: nat,
    pub insert_text: Seq<char>,
    pub common_prefix_len: nat,
}

impl View for TextDiff {
    type V = TextDiffView;

    open spec fn view(&self) -> TextDiffView {
        TextDiffView {
            delete_count: self.delete_count as nat,
            insert_text: self.insert_text@,
            common_prefix_len: self.common_prefix_len as nat,
        }
    }
}

impl TextDiffView {
    /// The diff that keeps the longest common prefix of `old` and `new`.
    pub open spec fn between(old_text: Seq<char>, new_text: Seq<char>) -> TextDiffView {
        let k = common_prefix_len(old_text, new_text);
        TextDiffView {
            delete_count: (old_text.len() - k) as nat,
            insert_text: new_text.skip(k as int),
            common_prefix_len: k,
        }
    }

    /// The text that results from applying this diff at the end of `text`.
    pub open spec fn apply(self, text: Seq<char>) -> Seq<char> {
        text.take(text.len() - self.delete_count) + self.insert_text
    }

    /// Nothing to delete and nothing to type.
    pub open spec fn is_empty(self) -> bool {
        self.delete_count == 0 && self.insert_text.len() == 0
    }
}

/// Applying the diff between two texts to the first gives the second.
pub proof fn lemma_diff_applies(old_text: Seq<char>, new_text: Seq<char>)
    ensures
        TextDiffView::between(old_text, new_text).apply(old_text) == new_text,
{
    lemma_common_prefix_is_longest(old_text, new_text);
}

/// The diff between two texts is empty exactly when the texts are equal.
pub proof fn lemma_diff_empty_iff_equal(old_text: Seq<char>, new_text: Seq<char>)
    ensures
        TextDiffView::between(old_text, new_text).is_empty() <==> old_text == new_text,
{
    lemma_common_prefix_is_longest(old_text, new_text);
    if TextDiffView::between(old_text, new_text).is_empty() {
        assert(old_text =~= new_text);
    }
}

impl TextDiff {
    /// Computes the edit that turns `old_text` into `new_text` while keeping
    /// their longest common prefix: only the differing suffix is deleted and
    /// retyped.
    pub fn compute(old_text: &str, new_text: &str) -> (d: TextDiff)
        ensures
            d@ == TextDiffView::between(old_text@, new_text@),
    {
        let old_chars = chars_of(old_text);
        let new_chars = chars_of(new_text);
        let mut k: usize = 0;
        while k < old_chars.len() && k < new_chars.len() && old_chars[k] == new_chars[k]
            invariant
                k <= old_chars.len(),
                k <= new_chars.len(),
                forall|j: int| 0 <= j < k ==> old_chars@[j] == new_chars@[j],
            decreases old_chars.len() - k,
        {
            k += 1;
        }
        proof {
            lemma_common_prefix_unique(old_chars@, new_chars@, k as nat);
        }
        let rest = new_text.substring_char(k, new_chars.len());
        TextDiff {
            delete_count: old_chars.len() - k,
            insert_text: rest.to_owned(),
            common_prefix_len: k,
        }
    }

    /// Whether this diff changes nothing.
    pub fn is_empty(&self) -> (b: bool)
        ensures
            b == self@.is_empty(),
    {
        self.delete_count == 0 && self.insert_text.as_str().is_empty()
    }

    /// Keystroke counts `(full, incremental)`: retyping everything costs one
    /// backspace per old character plus one paste; this diff costs its
    /// deletions plus one paste if it inserts anything.
    pub fn efficiency_stats(&self, old_len: usize, _new_len: usize) -> (ops: (usize, usize))
        requires
            old_len < usize::MAX,
            self.delete_count < usize::MAX,
        ensures
            ops.0 == old_len + 1,
            ops.1 == self.delete_count + if self.insert_text@.len() == 0 { 0int } else { 1int },
    {
        let old_ops = old_len + 1;
        let paste: usize = if self.insert_text.as_str().is_empty() { 0 } else { 1 };
        (old_ops, self.delete_count + paste)
    }
}

// ============ Scripts for the desktop ============

/// How long to wait after the clipboard was set, in milliseconds.
pub const CLIPBOARD_SETTLE_MS: u64 = 50;

/// `text` with a backslash put before every double quote, so that it can
/// stand between double quotes in a script.
pub open spec fn quoted(text: Seq<char>) -> Seq<char>
    decreases text.len(),
{
    if text.len() == 0 {
        Seq::empty()
    } else if text.last() == '"' {
        quoted(text.drop_last()) + seq!['\\', '"']
    } else {
        quoted(text.drop_last()).push(text.last())
    }
}

/// Prepares a name for its place between double quotes in a script.
pub fn quote_for_script(text: &str) -> (out: String)
    ensures
        out@ == quoted(text@),
{
    let chars = chars_of(text);
    let mut out = String::new();
    let mut start: usize = 0;
    let mut i: usize = 0;
    proof {
        reveal_strlit("\\\"");
    }
    while i < chars.len()
        invariant
            chars@ == text@,
            start <= i <= chars.len(),
            "\\\""@ == seq!['\\', '"'],
            out@ + chars@.subrange(start as int, i as int) == quoted(chars@.take(i as int)),
        decreases chars.len() - i,
    {
        assert(chars@.take(i + 1).drop_last() =~= chars@.take(i as int));
        if chars[i] == '"' {
            out.append(text.substring_char(start, i));
            out.append("\\\"");
            start = i + 1;
        }
        i += 1;
    }
    assert(chars@.take(i as int) =~= chars@);
    out.append(text.substring_char(start, chars.len()));
    out
}

/// The script that brings an application to the front and pastes into it.
pub open spec fn spec_activate_and_paste_script(app_name: Seq<char>) -> Seq<char> {
    "\n        tell application \""@ + quoted(app_name)
        + "\"\n            activate\n        end tell\n        delay 0.15\n        tell application \"System Events\"\n            keystroke \"v\" using command down\n        end tell\n        "@
}

/// The script that brings an application to the front, deletes the last
/// `char_count` characters there and pastes.
pub open spec fn spec_select_delete_and_paste_script(app_name: Seq<char>, char_count: nat) -> Seq<
    char,
> {
    "\n        tell application \""@ + quoted(app_name)
        + "\"\n            activate\n        end tell\n        delay 0.1\n        tell application \"System Events\"\n            -- Delete previous partial text using backspace\n            repeat "@
        + decimal_digits(char_count)
        + " times\n                key code 51 -- backspace\n            end repeat\n            delay 0.05\n            -- Paste new text\n            keystroke \"v\" using command down\n        end tell\n        "@
}

/// The script that brings an application to the front.
pub open spec fn spec_activate_script(app_name: Seq<char>) -> Seq<char> {
    "\n        tell application \""@ + quoted(app_name)
        + "\" to activate\n        delay 0.1\n        "@
}

/// Writes the script that brings `app_name` to the front and pastes.
pub fn activate_and_paste_script(app_name: &str) -> (script: String)
    ensures
        script@ == spec_activate_and_paste_script(app_name@),
{
    let mut script = String::from_str("\n        tell application \"");
    let name = quote_for_script(app_name);
    script.append(name.as_str());
    script.append(
        "\"\n            activate\n        end tell\n        delay 0.15\n        tell application \"System Events\"\n            keystroke \"v\" using command down\n        end tell\n        ",
    );
    script
}

/// Writes the script that brings `app_name` to the front, deletes the last
/// `char_count` characters there and pastes.
pub fn select_delete_and_paste_script(app_name: &str, char_count: usize) -> (script: String)
    ensures
        script@ == spec_select_delete_and_paste_script(app_name@, char_count as nat),
{
    let mut script = String::from_str("\n        tell application \"");
    let name = quote_for_script(app_name);
    script.append(name.as_str());
    script.append(
        "\"\n            activate\n        end tell\n        delay 0.1\n        tell application \"System Events\"\n            -- Delete previous partial text using backspace\n            repeat ",
    );
    let count = decimal_string(char_count as u64);
    script.append(count.as_str());
    script.append(
        " times\n                key code 51 -- backspace\n            end repeat\n            delay 0.05\n            -- Paste new text\n            keystroke \"v\" using command down\n        end tell\n        ",
    );
    script
}

/// Writes the script that brings `app_name` to the front.
pub fn activate_script(app_name: &str) -> (script: String)
    ensures
        script@ == spec_activate_script(app_name@),
{
    let mut script = String::from_str("\n        tell application \"");
    let name = quote_for_script(app_name);
    script.append(name.as_str());
    script.append("\" to activate\n        delay 0.1\n        ");
    script
}

// ============ Ways of inserting ============

/// One way of getting text from the clipboard into an application.
#[derive(Debug, Clone, Copy, PartialEq, Eq, Structural)]
pub enum PasteAttempt {
    /// Bring the target application to the front and paste.
    IntoTarget,
    /// Delete the old text in the target application, then paste.
    ReplaceInTarget,
    /// Paste into whatever is at the front.
    IntoFrontmost,
}

/// What to do for a replacement of `old_char_count` characters, once the
/// new text is on the clipboard: the ways to try, in order. When all of
/// them fail the text stays on the clipboard.
pub open spec fn spec_paste_attempts(old_char_count: nat, has_target: bool) -> Seq<PasteAttempt> {
    if old_char_count == 0 {
        if has_target {
            seq![PasteAttempt::IntoTarget, PasteAttempt::IntoFrontmost]
        } else {
            seq![PasteAttempt::IntoFrontmost]
        }
    } else if has_target {
        seq![PasteAttempt::ReplaceInTarget, PasteAttempt::IntoTarget]
    } else {
        Seq::empty()
    }
}

/// The ways to try for a replacement, in order.
pub fn paste_attempts(old_char_count: usize, has_target: bool) -> (attempts: Vec<PasteAttempt>)
    ensures
        attempts@ == spec_paste_attempts(old_char_count as nat, has_target),
{
    let mut attempts: Vec<PasteAttempt> = Vec::new();
    if old_char_count == 0 {
        if has_target {
            attempts.push(PasteAttempt::IntoTarget);
        }
        attempts.push(PasteAttempt::IntoFrontmost);
    } else if has_target {
        attempts.push(PasteAttempt::ReplaceInTarget);
        attempts.push(PasteAttempt::IntoTarget);
    }
    attempts
}

/// How an insertion ended: inserted if there was nothing to insert or an
/// attempt succeeded, and otherwise left on the clipboard.
pub fn insert_outcome(text_is_empty: bool, an_attempt_succeeded: bool) -> (r: InsertResult)
    ensures
        r == (if text_is_empty || an_attempt_succeeded {
            InsertResult::Inserted
        } else {
            InsertResult::CopiedToClipboard
        }),
{
    if text_is_empty || an_attempt_succeeded {
        InsertResult::Inserted
    } else {
        InsertResult::CopiedToClipboard
    }
}

// ============ The application at the front ============

/// `text` without the whitespace at its beginning and at its end.
pub uninterp spec fn trimmed(text: Seq<char>) -> Seq<char>;

/// Calls `str::trim` of the standard library. Trusted: the result is that
/// function's value on this text.
#[verifier::external_body]
fn trim(text: &str) -> (inner: &str)
    ensures
        inner@ == trimmed(text@),
{
    text.trim()
}

/// Reads the name of the application at the front from what the desktop
/// answered to the query for it: the answer without the whitespace around
/// it. There is no name where the query failed or the answer is blank.
pub fn frontmost_from(success: bool, output: &str) -> (name: Option<String>)
    ensures
        name is Some <==> success && trimmed(output@).len() > 0,
        name matches Some(app_name) ==> app_name@ == trimmed(output@),
{
    if !success {
        return None;
    }
    let app_name = trim(output);
    if app_name.is_empty() {
        None
    } else {
        Some(app_name.to_owned())
    }
}

} // verus!
