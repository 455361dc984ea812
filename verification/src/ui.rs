//! What is shown of the settings: the access token masked, long prompts cut
//! short, and the rows of the settings table.

use crate::config::{Config, ConfigView};
use crate::text::owned;
use vstd::prelude::*;
use vstd::string::*;
use vstd::utf8::*;

verus! {

/// The longest prompt, in characters, that the settings table shows in full.
pub const MAX_PROMPT_LENGTH: usize = 500;

/// Shown in place of a token too short to show any of it.
pub const HIDDEN_TOKEN: &'static str = "•••••••";

/// Shown after the first four bytes of a longer token.
pub const TOKEN_TAIL: &'static str = "•••••";

/// Stands after a text that was cut short.
pub const ELLIPSIS: &'static str = "...";

/// Shown for a token that is not set.
pub const NOT_SET: &'static str = "<not set>";

/// One row of the settings table.
#[derive(Debug, PartialEq, Eq)]
pub struct Row {
    pub setting: String,
    pub value: String,
}

/// Mathematical model of [`Row`].
pub struct RowView {
    pub setting: Seq<char>,
    pub value: Seq<char>,
}

impl View for Row {
    type V = RowView;

    open spec fn view(&self) -> RowView {
        RowView { setting: self.setting@, value: self.value@ }
    }
}

/// The models of a list of rows.
pub open spec fn row_views(rows: Seq<Row>) -> Seq<RowView> {
    rows.map_values(|row: Row| row@)
}

/// Whether a token can be masked: one of more than eight bytes must not have
/// a character that straddles its fourth byte, since that is where it is cut.
pub open spec fn can_mask(token: Seq<char>) -> bool {
    encode_utf8(token).len() > 8 ==> is_char_boundary(encode_utf8(token), 4)
}

/// A token as it is shown: of a token of more than eight bytes the characters
/// that its first four bytes encode, followed by five dots; of a shorter one
/// nothing but seven dots.
pub open spec fn masked(token: Seq<char>) -> Seq<char> {
    if encode_utf8(token).len() > 8 {
        decode_utf8(encode_utf8(token).subrange(0, 4)) + TOKEN_TAIL@
    } else {
        HIDDEN_TOKEN@
    }
}

/// What the table shows for the token.
pub open spec fn token_shown(token: Option<Seq<char>>) -> Seq<char> {
    match token {
        Some(t) => masked(t),
        None => NOT_SET@,
    }
}

/// A text cut to at most `max` characters, with an ellipsis where something
/// was cut off.
pub open spec fn truncated(text: Seq<char>, max: nat) -> Seq<char> {
    if text.len() > max {
        text.take(max as int) + ELLIPSIS@
    } else {
        text
    }
}

/// The rows of the settings table: a heading, then the five settings, with
/// defaults filled in, the token masked and the prompts cut short.
pub open spec fn table(config: ConfigView) -> Seq<RowView> {
    seq![
        RowView { setting: "Setting"@, value: "Value"@ },
        RowView { setting: "api_token"@, value: token_shown(config.api_token) },
        RowView { setting: "api_base_url"@, value: config.effective_api_base_url() },
        RowView { setting: "model"@, value: config.effective_model() },
        RowView {
            setting: "system_prompt"@,
            value: truncated(config.effective_system_prompt(), MAX_PROMPT_LENGTH as nat),
        },
        RowView {
            setting: "user_prompt"@,
            value: truncated(config.effective_user_prompt(), MAX_PROMPT_LENGTH as nat),
        },
    ]
}

/// A text is never shown longer than the limit and the ellipsis, and a text
/// within the limit is shown as it is.
pub proof fn lemma_truncated_length(text: Seq<char>, max: nat)
    ensures
        truncated(text, max).len() <= max + 3,
        text.len() <= max ==> truncated(text, max) == text,
        text.len() > max ==> truncated(text, max).len() == max + 3 && truncated(text, max).take(
            max as int,
        ) == text.take(max as int),
{
    reveal_strlit("...");
    if text.len() > max {
        assert(truncated(text, max).take(max as int) =~= text.take(max as int));
    }
}

/// A token of plain ASCII can always be masked, and of one longer than eight
/// characters the mask shows exactly the first four.
pub proof fn lemma_mask_of_ascii(token: Seq<char>)
    requires
        is_ascii_chars(token),
    ensures
        can_mask(token),
        token.len() > 8 ==> masked(token) == token.take(4) + TOKEN_TAIL@,
        token.len() <= 8 ==> masked(token) == HIDDEN_TOKEN@,
{
    let bytes = encode_utf8(token);
    is_ascii_chars_encode_utf8(token);
    if token.len() > 8 {
        encode_utf8_valid_utf8(token);
        let b = bytes[4];
        assert(b == token[4] as u8);
        assert(!is_continuation_byte(b));
        is_char_boundary_iff_not_is_continuation_byte(bytes, 4);
        let head = token.take(4);
        assert(is_ascii_chars(head));
        is_ascii_chars_encode_utf8(head);
        assert(encode_utf8(head) =~= bytes.subrange(0, 4));
        encode_utf8_decode_utf8(head);
    }
}

/// Whether [`mask_token`] accepts the token.
pub fn is_maskable(token: &str) -> (r: bool)
    ensures
        r == can_mask(token@),
{
    let bytes = token.as_bytes();
    bytes.len() <= 8 || token.is_char_boundary(4)
}

/// Masks a token for display.
pub fn mask_token(token: &str) -> (r: String)
    requires
        can_mask(token@),
    ensures
        r@ == masked(token@),
{
    let bytes = token.as_bytes();
    if bytes.len() > 8 {
        let (head, _) = token.split_at(4);
        proof {
            encode_utf8_decode_utf8(head@);
        }
        let mut out = owned(head);
        out.append(TOKEN_TAIL);
        out
    } else {
        owned(HIDDEN_TOKEN)
    }
}

/// Cuts a text to at most `max` characters for display.
pub fn truncate(text: &str, max: usize) -> (r: String)
    ensures
        r@ == truncated(text@, max as nat),
{
    if text.unicode_len() > max {
        let mut out = owned(text.substring_char(0, max));
        out.append(ELLIPSIS);
        out
    } else {
        owned(text)
    }
}

/// Builds one row.
fn row(setting: &str, value: String) -> (r: Row)
    ensures
        r@ == (RowView { setting: setting@, value: value@ }),
{
    Row { setting: owned(setting), value }
}

/// The rows of the settings table for `config`.
pub fn config_rows(config: &Config) -> (r: Vec<Row>)
    requires
        config.api_token matches Some(token) ==> can_mask(token@),
    ensures
        row_views(r@) == table(config@),
{
    let token = match &config.api_token {
        Some(token) => mask_token(token.as_str()),
        None => owned(NOT_SET),
    };
    let mut rows: Vec<Row> = Vec::new();
    rows.push(row("Setting", owned("Value")));
    rows.push(row("api_token", token));
    rows.push(row("api_base_url", owned(config.get_api_base_url())));
    rows.push(row("model", owned(config.get_model())));
    rows.push(row("system_prompt", truncate(config.get_system_prompt(), MAX_PROMPT_LENGTH)));
    rows.push(row("user_prompt", truncate(config.get_user_prompt(), MAX_PROMPT_LENGTH)));
    assert(row_views(rows@) =~= table(config@));
    rows
}

} // verus!
