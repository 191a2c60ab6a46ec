//! What the platform delivers with a command.

use vstd::prelude::*;

verus! {

/// The value of one option of a command.
#[derive(Clone, Debug, PartialEq, Eq)]
pub enum OptionValue {
    /// Free text.
    Text(String),
    /// An uploaded file, by its address.
    Attachment(String),
    /// Anything else, or nothing.
    Other,
}

/// One delivery of a command.
#[derive(Clone, Debug, PartialEq, Eq)]
pub struct Invocation {
    /// The name that the command was registered under.
    pub command_name: String,
    /// The invoking user.
    pub user_id: u64,
    /// The invoking user's name.
    pub user_name: String,
    /// The community in which the command was invoked, if it was in one.
    pub community_id: Option<u64>,
    /// The options, in the order of the command's registration.
    pub options: Vec<OptionValue>,
}

/// The text of the option at `position`, where there is such an option and it
/// holds text.
pub open spec fn text_at(options: Seq<OptionValue>, position: int) -> Option<Seq<char>> {
    if 0 <= position < options.len() {
        match options[position] {
            OptionValue::Text(text) => Some(text@),
            _ => None,
        }
    } else {
        None
    }
}

/// The address of the attachment at `position`, where there is such an option
/// and it holds an attachment.
pub open spec fn attachment_at(options: Seq<OptionValue>, position: int) -> Option<Seq<char>> {
    if 0 <= position < options.len() {
        match options[position] {
            OptionValue::Attachment(address) => Some(address@),
            _ => None,
        }
    } else {
        None
    }
}

/// The text of the option at `position`, if it holds text.
pub fn option_text(options: &Vec<OptionValue>, position: usize) -> (text: Option<&str>)
    ensures
        text.is_some() == text_at(options@, position as int).is_some(),
        text matches Some(found) ==> Some(found@) == text_at(options@, position as int),
{
    if position < options.len() {
        match &options[position] {
            OptionValue::Text(text) => Some(text.as_str()),
            _ => None,
        }
    } else {
        None
    }
}

/// The address of the attachment at `position`, if the option there holds one.
pub fn option_attachment(options: &Vec<OptionValue>, position: usize) -> (address: Option<&str>)
    ensures
        address.is_some() == attachment_at(options@, position as int).is_some(),
        address matches Some(found) ==> Some(found@) == attachment_at(options@, position as int),
{
    if position < options.len() {
        match &options[position] {
            OptionValue::Attachment(address) => Some(address.as_str()),
            _ => None,
        }
    } else {
        None
    }
}

} // verus!
