//! Text helpers shared by every message the player posts: decimal numerals,
//! `minutes:seconds` durations and escaping of chat markup.

use serenity::model::mention::Mentionable;
use vstd::prelude::*;
use vstd::string::*;

verus! {

/// `String::push` appends one character to the end of the string.
pub assume_specification[ String::push ](s: &mut String, ch: char)
    ensures
        final(s)@ == old(s)@.push(ch),
;

/// `==` on string slices holds exactly when both hold the same characters.
pub assume_specification[ <str as PartialEq>::eq ](a: &str, b: &str) -> (same: bool)
    ensures
        same == (a@ == b@),
;

/// An answer to the user who gave a command or pressed a button.
#[derive(Debug, Clone, PartialEq, Eq)]
pub struct Response {
    pub text: String,
    /// Whether only that user gets to see it.
    pub ephemeral: bool,
}

impl Response {
    /// An answer that everyone in the channel sees.
    pub fn public(text: String) -> (response: Self)
        ensures
            response.text == text,
            !response.ephemeral,
    {
        Response { text, ephemeral: false }
    }

    /// An answer that only the user sees.
    pub fn private(text: String) -> (response: Self)
        ensures
            response.text == text,
            response.ephemeral,
    {
        Response { text, ephemeral: true }
    }
}

/// Why the player could not leave its voice channel.
#[derive(Debug, Clone, Copy, PartialEq, Eq, Structural)]
pub enum LeaveError {
    /// It was in none.
    NotInVoiceChannel,
    /// The voice transport failed.
    Transport,
}

impl LeaveError {
    /// What the user is told.
    pub open spec fn text_of(self) -> Seq<char> {
        match self {
            LeaveError::NotInVoiceChannel => "The bot is not in a voice channel"@,
            LeaveError::Transport => "Error leaving the voice channel"@,
        }
    }

    /// What the user is told.
    pub fn text(&self) -> (text: String)
        ensures
            text@ == self.text_of(),
    {
        match self {
            LeaveError::NotInVoiceChannel => "The bot is not in a voice channel".to_owned(),
            LeaveError::Transport => "Error leaving the voice channel".to_owned(),
        }
    }
}

/// The SHA-256 digest of `bytes`, written as hexadecimal text.
pub uninterp spec fn sha256_hex(bytes: Seq<u8>) -> Seq<char>;

/// The decimal digit that stands for `d`, for `d` below ten.
pub open spec fn digit_char(d: nat) -> char {
    if d == 0 {
        '0'
    } else if d == 1 {
        '1'
    } else if d == 2 {
        '2'
    } else if d == 3 {
        '3'
    } else if d == 4 {
        '4'
    } else if d == 5 {
        '5'
    } else if d == 6 {
        '6'
    } else if d == 7 {
        '7'
    } else if d == 8 {
        '8'
    } else {
        '9'
    }
}

/// The decimal numeral of `n`, most significant digit first, without
/// leading zeros (zero itself is written "0").
pub open spec fn decimal(n: nat) -> Seq<char>
    decreases n,
{
    if n < 10 {
        seq![digit_char(n)]
    } else {
        decimal(n / 10).push(digit_char(n % 10))
    }
}

/// The decimal numeral of an integer: a minus sign before the numeral of
/// the magnitude when it is negative.
pub open spec fn signed_decimal(n: int) -> Seq<char> {
    if n < 0 {
        seq!['-'] + decimal((-n) as nat)
    } else {
        decimal(n as nat)
    }
}

/// A duration of whole seconds as `minutes:seconds`: the minutes in full
/// (they never roll over into hours), the seconds always with two digits.
pub open spec fn duration_text(seconds: nat) -> Seq<char> {
    decimal(seconds / 60) + seq![':', digit_char((seconds % 60) / 10), digit_char((seconds % 60) % 10)]
}

/// The characters that chat markup gives a meaning to.
pub open spec fn is_markdown_special(c: char) -> bool {
    c == '*' || c == '_' || c == '~' || c == '[' || c == ']' || c == '(' || c == ')' || c == '<'
        || c == '>' || c == '-' || c == '#' || c == '`' || c == '\\'
}

/// `s` with a backslash put before each character that chat markup gives a
/// meaning to; every other character stays as it is.
pub open spec fn escape_markdown_text(s: Seq<char>) -> Seq<char>
    decreases s.len(),
{
    if s.len() == 0 {
        Seq::empty()
    } else if is_markdown_special(s[0]) {
        seq!['\\', s[0]] + escape_markdown_text(s.drop_first())
    } else {
        seq![s[0]] + escape_markdown_text(s.drop_first())
    }
}

/// Holds of a text in which no special character stands unescaped: read
/// from the left, it is made of plain characters and of pairs of a
/// backslash and the special character it escapes.
pub open spec fn is_escaped_text(t: Seq<char>) -> bool
    decreases t.len(),
{
    if t.len() == 0 {
        true
    } else if t[0] == '\\' {
        t.len() >= 2 && is_markdown_special(t[1]) && is_escaped_text(t.subrange(2, t.len() as int))
    } else {
        !is_markdown_special(t[0]) && is_escaped_text(t.drop_first())
    }
}

/// What chat markup shows for an escaped text: each backslash is dropped
/// and the character behind it is kept.
pub open spec fn unescape_markdown_text(t: Seq<char>) -> Seq<char>
    decreases t.len(),
{
    if t.len() == 0 {
        Seq::empty()
    } else if t[0] == '\\' && t.len() >= 2 {
        seq![t[1]] + unescape_markdown_text(t.subrange(2, t.len() as int))
    } else {
        seq![t[0]] + unescape_markdown_text(t.drop_first())
    }
}

/// `s` with a backslash put before each backtick, so that the text cannot
/// close a code block it is shown in.
pub open spec fn escape_backticks_text(s: Seq<char>) -> Seq<char>
    decreases s.len(),
{
    if s.len() == 0 {
        Seq::empty()
    } else if s[0] == '`' {
        seq!['\\', '`'] + escape_backticks_text(s.drop_first())
    } else {
        seq![s[0]] + escape_backticks_text(s.drop_first())
    }
}

/// Escaping leaves no special character unescaped, whatever the input.
pub proof fn lemma_escape_markdown_is_escaped(s: Seq<char>)
    ensures
        is_escaped_text(escape_markdown_text(s)),
    decreases s.len(),
{
    if s.len() > 0 {
        let rest = escape_markdown_text(s.drop_first());
        lemma_escape_markdown_is_escaped(s.drop_first());
        let t = escape_markdown_text(s);
        if is_markdown_special(s[0]) {
            assert(t.subrange(2, t.len() as int) =~= rest);
        } else {
            assert(t.drop_first() =~= rest);
        }
    }
}

/// Escaping loses nothing: dropping the escapes gives the input back.
pub proof fn lemma_unescape_inverts_escape(s: Seq<char>)
    ensures
        unescape_markdown_text(escape_markdown_text(s)) == s,
    decreases s.len(),
{
    if s.len() > 0 {
        let rest = escape_markdown_text(s.drop_first());
        lemma_unescape_inverts_escape(s.drop_first());
        let t = escape_markdown_text(s);
        if is_markdown_special(s[0]) {
            assert(t.subrange(2, t.len() as int) =~= rest);
        } else {
            assert(t.drop_first() =~= rest);
        }
        assert(unescape_markdown_text(t) =~= seq![s[0]] + s.drop_first());
        assert(seq![s[0]] + s.drop_first() =~= s);
    } else {
        assert(unescape_markdown_text(escape_markdown_text(s)) =~= s);
    }
}

/// A text without special characters is its own escaped form.
pub proof fn lemma_escape_markdown_plain(s: Seq<char>)
    requires
        forall|i: int| 0 <= i < s.len() ==> !is_markdown_special(#[trigger] s[i]),
    ensures
        escape_markdown_text(s) == s,
    decreases s.len(),
{
    if s.len() > 0 {
        lemma_escape_markdown_plain(s.drop_first());
        assert(seq![s[0]] + s.drop_first() =~= s);
    } else {
        assert(escape_markdown_text(s) =~= s);
    }
}

/// The escaped form is empty only for the empty text.
pub proof fn lemma_escape_markdown_empty(s: Seq<char>)
    ensures
        escape_markdown_text(s).len() == 0 <==> s.len() == 0,
{
}

/// The text by which chat markup mentions the user `user_id`.
pub open spec fn user_mention_text(user_id: nat) -> Seq<char> {
    seq!['<', '@'] + decimal(user_id) + seq!['>']
}

/// Formats the mention of a user with serenity's `Mentionable::mention`,
/// which writes `<@`, the id as a decimal numeral, and `>`. `UserId::new`
/// does not take zero.
#[verifier::external_body]
pub(crate) fn user_mention(user_id: u64) -> (mention: String)
    requires
        user_id != 0,
    ensures
        mention@ == user_mention_text(user_id as nat),
{
    serenity::model::id::UserId::new(user_id).mention().to_string()
}

/// Hashes `bytes` with `sha256::digest`, which gives the SHA-256 digest as
/// lower-case hexadecimal text.
#[verifier::external_body]
pub(crate) fn sha256_digest(bytes: &[u8]) -> (digest: String)
    ensures
        digest@ == sha256_hex(bytes@),
{
    sha256::digest(bytes)
}

fn digit(d: u64) -> (c: char)
    requires
        d < 10,
    ensures
        c == digit_char(d as nat),
{
    if d == 0 {
        '0'
    } else if d == 1 {
        '1'
    } else if d == 2 {
        '2'
    } else if d == 3 {
        '3'
    } else if d == 4 {
        '4'
    } else if d == 5 {
        '5'
    } else if d == 6 {
        '6'
    } else if d == 7 {
        '7'
    } else if d == 8 {
        '8'
    } else {
        '9'
    }
}

fn is_special(c: char) -> (special: bool)
    ensures
        special == is_markdown_special(c),
{
    c == '*' || c == '_' || c == '~' || c == '[' || c == ']' || c == '(' || c == ')' || c == '<'
        || c == '>' || c == '-' || c == '#' || c == '`' || c == '\\'
}

/// Appends the decimal numeral of `n` to `out`.
pub fn push_decimal(out: &mut String, n: u64)
    ensures
        final(out)@ == old(out)@ + decimal(n as nat),
    decreases n,
{
    if n >= 10 {
        push_decimal(out, n / 10);
    }
    out.push(digit(n % 10));
    assert(out@ =~= old(out)@ + decimal(n as nat));
}

/// Appends the decimal numeral of `n`, with its sign, to `out`.
pub fn push_signed_decimal(out: &mut String, n: i64)
    ensures
        final(out)@ == old(out)@ + signed_decimal(n as int),
{
    if n < 0 {
        out.push('-');
        let magnitude: u64 = (-(n + 1)) as u64 + 1;
        push_decimal(out, magnitude);
        assert(out@ =~= old(out)@ + signed_decimal(n as int));
    } else {
        push_decimal(out, n as u64);
    }
}

/// Escapes `string` for chat markup: each of `* _ ~ [ ] ( ) < > - # `` ` ``
/// and the backslash gets a backslash before it, in one pass.
pub fn escape_markdown(string: &str) -> (escaped: String)
    ensures
        escaped@ == escape_markdown_text(string@),
        is_escaped_text(escaped@),
{
    let mut escaped = String::new();
    proof {
        assert(string@.subrange(0, string@.len() as int) =~= string@);
        assert(escaped@ + escape_markdown_text(string@) =~= escape_markdown_text(string@));
    }
    for c in it: string.chars()
        invariant
            it.seq() == string@,
            escaped@ + escape_markdown_text(string@.subrange(it.index() as int, string@.len() as int))
                == escape_markdown_text(string@),
    {
        let ghost rest = string@.subrange(it.index() as int, string@.len() as int);
        let ghost before = escaped@;
        assert(rest.drop_first() =~= string@.subrange(it.index() + 1, string@.len() as int));
        assert(rest[0] == c);
        if is_special(c) {
            escaped.push('\\');
        }
        escaped.push(c);
        assert(escaped@ + escape_markdown_text(rest.drop_first()) =~= before
            + escape_markdown_text(rest));
    }
    proof {
        assert(string@.subrange(string@.len() as int, string@.len() as int) =~= Seq::<char>::empty());
        assert(escaped@ =~= escape_markdown_text(string@));
        lemma_escape_markdown_is_escaped(string@);
    }
    escaped
}

/// Escapes the backticks of `string`, and nothing else.
pub fn escape_backticks(string: &str) -> (escaped: String)
    ensures
        escaped@ == escape_backticks_text(string@),
{
    let mut escaped = String::new();
    proof {
        assert(string@.subrange(0, string@.len() as int) =~= string@);
        assert(escaped@ + escape_backticks_text(string@) =~= escape_backticks_text(string@));
    }
    for c in it: string.chars()
        invariant
            it.seq() == string@,
            escaped@ + escape_backticks_text(string@.subrange(it.index() as int, string@.len() as int))
                == escape_backticks_text(string@),
    {
        let ghost rest = string@.subrange(it.index() as int, string@.len() as int);
        let ghost before = escaped@;
        assert(rest.drop_first() =~= string@.subrange(it.index() + 1, string@.len() as int));
        assert(rest[0] == c);
        if c == '`' {
            escaped.push('\\');
        }
        escaped.push(c);
        assert(escaped@ + escape_backticks_text(rest.drop_first()) =~= before
            + escape_backticks_text(rest));
    }
    proof {
        assert(string@.subrange(string@.len() as int, string@.len() as int) =~= Seq::<char>::empty());
        assert(escaped@ =~= escape_backticks_text(string@));
    }
    escaped
}

/// Appends `seconds` as `minutes:seconds` to `out`.
pub fn push_duration(out: &mut String, seconds: u64)
    ensures
        final(out)@ == old(out)@ + duration_text(seconds as nat),
{
    let rest: u64 = seconds % 60;
    push_decimal(out, seconds / 60);
    out.push(':');
    out.push(digit(rest / 10));
    out.push(digit(rest % 10));
    assert(out@ =~= old(out)@ + duration_text(seconds as nat));
}

/// Renders a duration of whole seconds as `minutes:seconds`, the seconds
/// padded with a zero to two digits: 75 seconds give "1:15".
pub fn format_duration(seconds: u64) -> (text: String)
    ensures
        text@ == duration_text(seconds as nat),
{
    let mut text = String::new();
    push_duration(&mut text, seconds);
    assert(text@ =~= duration_text(seconds as nat));
    text
}

} // verus!
