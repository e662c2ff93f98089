//! JSON values, as far as answers of `acpx` are read beyond their fixed shape.
use vstd::prelude::*;

use crate::text::chars::{same_text, to_chars, to_text};
use crate::text::trim::{trim, trim_slice};

verus! {

/// A JSON value. The members of an object have different names.
#[derive(Debug)]
pub enum Json {
    Null,
    Bool(bool),
    Number(String),
    Text(String),
    List(Vec<Json>),
    Object(Vec<(String, Json)>),
}

/// The first of some members that has the given name.
pub open spec fn member_from(
    members: Seq<(String, Json)>,
    name: Seq<char>,
    from: int,
) -> Option<Json>
    decreases members.len() - from,
{
    if from < 0 || from >= members.len() {
        None
    } else if members[from].0@ == name {
        Some(members[from].1)
    } else {
        member_from(members, name, from + 1)
    }
}

impl Json {
    /// The member of an object that has the given name.
    pub open spec fn member(self, name: Seq<char>) -> Option<Json> {
        match self {
            Json::Object(members) => member_from(members@, name, 0),
            _ => None,
        }
    }

    /// The member of an object that has the given name.
    pub fn get(&self, name: &str) -> (out: Option<&Json>)
        ensures
            match out {
                Some(value) => self.member(name@) == Some(*value),
                None => self.member(name@) is None,
            },
    {
        match self {
            Json::Object(members) => {
                let mut i: usize = 0;
                while i < members.len()
                    invariant
                        i <= members@.len(),
                        *self == Json::Object(*members),
                        self.member(name@) == member_from(members@, name@, i as int),
                    decreases members@.len() - i,
                {
                    if same_text(members[i].0.as_str(), name) {
                        return Some(&members[i].1);
                    }
                    i += 1;
                }
                None
            },
            _ => None,
        }
    }
}

/// What a block of a message says, if it is a text that is not blank.
pub open spec fn said_in_block(block: Json) -> Option<Seq<char>> {
    match block.member("Text"@) {
        Some(Json::Text(text)) => if trim(text@).len() == 0 {
            None
        } else {
            Some(trim(text@))
        },
        _ => None,
    }
}

/// The first thing that is said in some blocks.
pub open spec fn said_from(blocks: Seq<Json>, from: int) -> Option<Seq<char>>
    decreases blocks.len() - from,
{
    if from < 0 || from >= blocks.len() {
        None
    } else {
        match said_in_block(blocks[from]) {
            Some(text) => Some(text),
            None => said_from(blocks, from + 1),
        }
    }
}

/// What a message of the user says first.
pub open spec fn said_in_message(message: Json) -> Option<Seq<char>> {
    match message.member("User"@) {
        Some(user) => match user.member("content"@) {
            Some(Json::List(blocks)) => said_from(blocks@, 0),
            _ => None,
        },
        None => None,
    }
}

/// The first thing that the user says in some messages.
pub open spec fn user_said_from(messages: Seq<Json>, from: int) -> Option<Seq<char>>
    decreases messages.len() - from,
{
    if from < 0 || from >= messages.len() {
        None
    } else {
        match said_in_message(messages[from]) {
            Some(text) => Some(text),
            None => user_said_from(messages, from + 1),
        }
    }
}

fn block_text(block: &Json) -> (out: Option<String>)
    ensures
        match out {
            Some(text) => said_in_block(*block) == Some(text@),
            None => said_in_block(*block) is None,
        },
{
    match block.get("Text") {
        Some(Json::Text(text)) => {
            let chars = to_chars(text.as_str());
            let trimmed = trim_slice(chars.as_slice());
            if trimmed.len() == 0 {
                None
            } else {
                Some(to_text(trimmed))
            }
        },
        _ => None,
    }
}

fn message_text(message: &Json) -> (out: Option<String>)
    ensures
        match out {
            Some(text) => said_in_message(*message) == Some(text@),
            None => said_in_message(*message) is None,
        },
{
    let user = match message.get("User") {
        Some(user) => user,
        None => {
            return None;
        },
    };
    match user.get("content") {
        Some(Json::List(blocks)) => {
            let mut i: usize = 0;
            while i < blocks.len()
                invariant
                    i <= blocks@.len(),
                    said_in_message(*message) == said_from(blocks@, i as int),
                decreases blocks@.len() - i,
            {
                if let Some(text) = block_text(&blocks[i]) {
                    return Some(text);
                }
                i += 1;
            }
            None
        },
        _ => None,
    }
}

/// The first thing that the user says in some messages.
pub fn extract_first_user_preview(messages: &[Json]) -> (out: Option<String>)
    ensures
        match out {
            Some(text) => user_said_from(messages@, 0) == Some(text@),
            None => user_said_from(messages@, 0) is None,
        },
{
    let mut i: usize = 0;
    while i < messages.len()
        invariant
            i <= messages@.len(),
            user_said_from(messages@, 0) == user_said_from(messages@, i as int),
        decreases messages@.len() - i,
    {
        if let Some(text) = message_text(&messages[i]) {
            return Some(text);
        }
        i += 1;
    }
    None
}

} // verus!
