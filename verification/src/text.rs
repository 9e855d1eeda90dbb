//! The texts that the relay writes: board message bodies and the replies to
//! the board-creation command.

use vstd::prelude::*;
use vstd::string::*;

verus! {

/// The character of the decimal digit `d`.
pub open spec fn digit_char(d: nat) -> char {
    if d == 0 {
        '0'
    } else if d == 1 {
        '1'
    } else if d == 2 {
        '2'
    } else if d == 3 {
        '3'
    } else if d == 4 {
        '4'
    } else if d == 5 {
        '5'
    } else if d == 6 {
        '6'
    } else if d == 7 {
        '7'
    } else if d == 8 {
        '8'
    } else {
        '9'
    }
}

/// `n` in decimal, without leading zeros.
pub open spec fn decimal(n: nat) -> Seq<char>
    decreases n,
{
    if n < 10 {
        seq![digit_char(n)]
    } else {
        decimal(n / 10).push(digit_char(n % 10))
    }
}

fn digit_str(d: u64) -> (s: &'static str)
    requires
        d < 10,
    ensures
        s@ == seq![digit_char(d as nat)],
{
    proof {
        reveal_strlit("0");
        reveal_strlit("1");
        reveal_strlit("2");
        reveal_strlit("3");
        reveal_strlit("4");
        reveal_strlit("5");
        reveal_strlit("6");
        reveal_strlit("7");
        reveal_strlit("8");
        reveal_strlit("9");
    }
    let s = if d == 0 {
        "0"
    } else if d == 1 {
        "1"
    } else if d == 2 {
        "2"
    } else if d == 3 {
        "3"
    } else if d == 4 {
        "4"
    } else if d == 5 {
        "5"
    } else if d == 6 {
        "6"
    } else if d == 7 {
        "7"
    } else if d == 8 {
        "8"
    } else {
        "9"
    };
    s
}

/// Writes `n` in decimal.
pub fn decimal_string(n: u64) -> (s: String)
    ensures
        s@ == decimal(n as nat),
    decreases n,
{
    if n < 10 {
        String::from_str(digit_str(n))
    } else {
        let mut s = decimal_string(n / 10);
        s.append(digit_str(n % 10));
        s
    }
}

/// What separates a mirrored message from its attribution.
pub open spec fn attribution_rule() -> Seq<char> {
    "\n\n---\n**From:** "@
}

/// How the author is named: by tag, or by nickname with the tag in brackets.
pub open spec fn author_line(author_tag: Seq<char>, nickname: Option<Seq<char>>) -> Seq<char> {
    match nickname {
        Some(nick) => nick + " ("@ + author_tag + ")"@,
        None => author_tag,
    }
}

/// The body of a board message: the content of the source message, then
/// the attribution.
pub open spec fn board_message_body(
    content: Seq<char>,
    author_tag: Seq<char>,
    nickname: Option<Seq<char>>,
) -> Seq<char> {
    content + attribution_rule() + author_line(author_tag, nickname)
}

/// The code points of an optional string.
pub open spec fn text_view(s: Option<String>) -> Option<Seq<char>> {
    match s {
        Some(t) => Some(t@),
        None => None,
    }
}

/// Builds the body of a board message.
pub fn render_board_message(content: &str, author_tag: &str, nickname: &Option<String>) -> (body:
    String)
    ensures
        body@ == board_message_body(content@, author_tag@, text_view(*nickname)),
{
    let mut body = String::from_str(content);
    body.append("\n\n---\n**From:** ");
    match nickname {
        Some(nick) => {
            body.append(nick.as_str());
            body.append(" (");
            body.append(author_tag);
            body.append(")");
        },
        None => {
            body.append(author_tag);
        },
    }
    body
}

/// The reply to a successful board creation.
pub open spec fn confirmation(threshold: u64, symbol: Seq<char>, channel_id: u64) -> Seq<char> {
    "Created! I will now post with more than "@ + decimal(threshold as nat)
        + " reactions with the "@ + symbol + " emoji, I will post it on <#"@ + decimal(
        channel_id as nat,
    ) + ">"@
}

/// Builds the reply to a successful board creation.
pub fn render_confirmation(threshold: u64, symbol: &str, channel_id: u64) -> (reply: String)
    ensures
        reply@ == confirmation(threshold, symbol@, channel_id),
{
    let mut reply = String::from_str("Created! I will now post with more than ");
    let count = decimal_string(threshold);
    reply.append(count.as_str());
    reply.append(" reactions with the ");
    reply.append(symbol);
    reply.append(" emoji, I will post it on <#");
    let channel = decimal_string(channel_id);
    reply.append(channel.as_str());
    reply.append(">");
    reply
}

} // verus!
