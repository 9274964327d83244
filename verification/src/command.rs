//! The commands that a user types, and the messages that they send.
//!
//! A command line is read by its first word, in any letter case. What the
//! word asks for is sent as one protocol message.

use vstd::prelude::*;
use vstd::string::*;
use crate::encryptor::{is_for_peer, refusal, KeyRing, MessageEncryptor};
use crate::keys::EncryptError;
use crate::message::{follows_taxonomy, E2EMessage};
use crate::protocol::{
    ENCRYPTED_MESSAGE, HELLO_ACCEPT, HELLO_REQUEST, PUBKEY_SHARE, PUBKEY_SHARE_REQUEST,
};
use crate::record::Record;

verus! {

/// What the user asks for.
#[derive(Clone, Copy, Debug, PartialEq, Eq, Structural)]
pub enum Command {
    /// Ask the counterpart to encrypt this channel.
    Hello,
    /// Accept the counterpart's request.
    Accept,
    /// Send this peer's public key.
    ShareKey,
    /// Ask for the counterpart's public key.
    RequestKey,
    /// Send an encrypted message.
    Send,
    /// A word that is no command.
    Invalid,
}

/// The lowercase form that `str::to_lowercase` gives for `text`.
pub uninterp spec fn lowercased(text: Seq<char>) -> Seq<char>;

/// `str::to_lowercase`.
///
/// Trusted: the result depends on the text alone.
#[verifier::external_body]
pub(crate) fn lowercase(text: &str) -> (lower: String)
    ensures
        lower@ == lowercased(text@),
{
    text.to_lowercase()
}

/// The characters that part the words of a command line: space, tab, line
/// feed, form feed and carriage return.
pub open spec fn is_space(c: char) -> bool {
    c == ' ' || c == '\t' || c == '\n' || c == '\x0C' || c == '\r'
}

/// The first position at or after `from` that holds no space.
pub open spec fn skip_spaces(line: Seq<char>, from: int) -> int
    decreases line.len() - from,
{
    if 0 <= from < line.len() && is_space(line[from]) {
        skip_spaces(line, from + 1)
    } else {
        from
    }
}

/// The first position at or after `from` that holds a space, or the end.
pub open spec fn skip_word(line: Seq<char>, from: int) -> int
    decreases line.len() - from,
{
    if 0 <= from < line.len() && !is_space(line[from]) {
        skip_word(line, from + 1)
    } else {
        from
    }
}

/// The first word of a line, or `None` where the line holds only spaces.
pub open spec fn first_word(line: Seq<char>) -> Option<Seq<char>> {
    let start = skip_spaces(line, 0);
    if start < line.len() {
        Some(line.subrange(start, skip_word(line, start)))
    } else {
        None
    }
}

/// The command that a lowercase keyword stands for.
pub open spec fn keyword_command(word: Seq<char>) -> Command {
    if word == "init"@ || word == "start"@ || word == "initialize"@ {
        Command::Hello
    } else if word == "accept"@ || word == "ok"@ {
        Command::Accept
    } else if word == "send_pubkey"@ || word == "share"@ {
        Command::ShareKey
    } else if word == "request_pubkey"@ || word == "request_share"@ {
        Command::RequestKey
    } else if word == "message"@ || word == "send"@ {
        Command::Send
    } else {
        Command::Invalid
    }
}

/// The command on a line, or `None` where the line is blank.
pub open spec fn line_command(line: Seq<char>) -> Option<Command> {
    match first_word(line) {
        Some(word) => Some(keyword_command(lowercased(word))),
        None => None,
    }
}

/// Whether `c` parts words.
pub fn parts_words(c: char) -> (b: bool)
    ensures
        b == is_space(c),
{
    c == ' ' || c == '\t' || c == '\n' || c == '\x0C' || c == '\r'
}

/// Whether `word` is the keyword `keyword`.
fn is_keyword(word: &String, keyword: &str) -> (b: bool)
    ensures
        b == (word@ == keyword@),
{
    let other = String::from_str(keyword);
    *word == other
}

impl Command {
    /// Reads a keyword. The keyword must be in lowercase.
    pub fn from_keyword(word: &str) -> (command: Command)
        ensures
            command == keyword_command(word@),
    {
        let word = String::from_str(word);
        if is_keyword(&word, "init") || is_keyword(&word, "start") || is_keyword(
            &word,
            "initialize",
        ) {
            Command::Hello
        } else if is_keyword(&word, "accept") || is_keyword(&word, "ok") {
            Command::Accept
        } else if is_keyword(&word, "send_pubkey") || is_keyword(&word, "share") {
            Command::ShareKey
        } else if is_keyword(&word, "request_pubkey") || is_keyword(&word, "request_share") {
            Command::RequestKey
        } else if is_keyword(&word, "message") || is_keyword(&word, "send") {
            Command::Send
        } else {
            Command::Invalid
        }
    }

    /// Reads the command on a line: its first word, in any letter case.
    pub fn parse(line: &str) -> (command: Option<Command>)
        ensures
            command == line_command(line@),
    {
        match leading_word(line) {
            Some(word) => {
                let lower = lowercase(word.as_str());
                Some(Command::from_keyword(lower.as_str()))
            },
            None => None,
        }
    }
}

/// The first word of a line.
pub fn leading_word(line: &str) -> (word: Option<String>)
    ensures
        word is Some <==> first_word(line@) is Some,
        word matches Some(w) ==> first_word(line@) == Some(w@),
{
    let len: usize = line.unicode_len();
    let mut start: usize = 0;
    while start < len && parts_words(line.get_char(start))
        invariant
            len == line@.len(),
            start <= len,
            skip_spaces(line@, 0) == skip_spaces(line@, start as int),
        decreases len - start,
    {
        start = start + 1;
    }
    if start == len {
        return None;
    }
    let mut end: usize = start;
    while end < len && !parts_words(line.get_char(end))
        invariant
            len == line@.len(),
            start <= end <= len,
            skip_word(line@, start as int) == skip_word(line@, end as int),
        decreases len - end,
    {
        end = end + 1;
    }
    Some(String::from_str(line.substring_char(start, end)))
}

/// The message that a command sends before any encryption: every command
/// but `Send` and `Invalid` has one.
pub open spec fn plain_message(ring: KeyRing, command: Command) -> Option<Record> {
    match command {
        Command::Hello => Some(Record { opcode: HELLO_REQUEST, payload: None }),
        Command::Accept => Some(Record { opcode: HELLO_ACCEPT, payload: None }),
        Command::ShareKey => Some(
            Record { opcode: PUBKEY_SHARE, payload: Some(ring.public_der) },
        ),
        Command::RequestKey => Some(Record { opcode: PUBKEY_SHARE_REQUEST, payload: None }),
        Command::Send => None,
        Command::Invalid => None,
    }
}

/// Every message that a command sends follows the taxonomy.
pub proof fn lemma_plain_message_follows_taxonomy(ring: KeyRing, command: Command)
    ensures
        plain_message(ring, command) matches Some(record) ==> follows_taxonomy(record),
{
}

/// The message that was made for a command, as a mathematical value.
pub open spec fn composed_view(outcome: Result<Option<E2EMessage>, EncryptError>) -> Result<
    Option<Record>,
    EncryptError,
> {
    match outcome {
        Ok(Some(message)) => Ok(Some(message@)),
        Ok(None) => Ok(None),
        Err(error) => Err(error),
    }
}

/// What `Send` gives for a payload that is not refused: one encrypted
/// message, whose payload is a ciphertext of `content` for the peer key.
pub open spec fn is_sealed(
    ring: KeyRing,
    content: Seq<u8>,
    outcome: Result<Option<E2EMessage>, EncryptError>,
) -> bool {
    match outcome {
        Ok(Some(message)) => message.opcode == ENCRYPTED_MESSAGE && match message.data {
            Some(ciphertext) => is_for_peer(ring, content, ciphertext@),
            None => false,
        },
        _ => false,
    }
}

impl MessageEncryptor {
    /// Makes the message that `command` sends. `content` is the text to
    /// encrypt for `Send`; the other commands do not look at it. `Invalid`
    /// sends nothing.
    pub fn compose(&self, command: Command, content: Vec<u8>) -> (outcome: Result<
        Option<E2EMessage>,
        EncryptError,
    >)
        ensures
            command != Command::Send ==> composed_view(outcome) == Ok::<
                Option<Record>,
                EncryptError,
            >(plain_message(self@, command)),
            command == Command::Send ==> match refusal(self@, content@.len()) {
                Some(error) => composed_view(outcome) == Err::<Option<Record>, EncryptError>(
                    error,
                ),
                None => is_sealed(self@, content@, outcome),
            },
    {
        match command {
            Command::Hello => Ok(Some(E2EMessage { opcode: HELLO_REQUEST, data: None })),
            Command::Accept => Ok(Some(E2EMessage { opcode: HELLO_ACCEPT, data: None })),
            Command::ShareKey => {
                let key = self.self_pubkey().to_der();
                Ok(Some(E2EMessage { opcode: PUBKEY_SHARE, data: Some(key) }))
            },
            Command::RequestKey => Ok(
                Some(E2EMessage { opcode: PUBKEY_SHARE_REQUEST, data: None }),
            ),
            Command::Send => match self.encrypt_message_for_peer(content) {
                Ok(ciphertext) => Ok(
                    Some(E2EMessage { opcode: ENCRYPTED_MESSAGE, data: Some(ciphertext) }),
                ),
                Err(error) => Err(error),
            },
            Command::Invalid => Ok(None),
        }
    }
}

} // verus!
