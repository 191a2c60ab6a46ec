//! What is published for a confession.

use crate::decimal::{decimal_digits, push_decimal};
use rand::Rng;
use vstd::prelude::*;
use vstd::string::StringExecFns;

verus! {

/// The largest colour: eight bits each of red, green and blue.
pub const WHITE: u32 = 0xFFFFFF;

/// A confession as it is shown in the channel: a framed message that names
/// no author.
#[derive(Clone, Debug, PartialEq, Eq)]
pub struct Announcement {
    /// The heading, which carries the display number.
    pub title: String,
    /// The confession itself.
    pub description: String,
    /// The small print below.
    pub footer: String,
    /// The colour of the frame, as red, green and blue.
    pub colour: u32,
    /// The address of the picture to show, if there is one.
    pub image: Option<String>,
}

/// An announcement as mathematics.
pub struct AnnouncementView {
    pub title: Seq<char>,
    pub description: Seq<char>,
    pub footer: Seq<char>,
    pub colour: u32,
    pub image: Option<Seq<char>>,
}

impl View for Announcement {
    type V = AnnouncementView;

    open spec fn view(&self) -> AnnouncementView {
        AnnouncementView {
            title: self.title@,
            description: self.description@,
            footer: self.footer@,
            colour: self.colour,
            image: match self.image {
                Some(address) => Some(address@),
                None => None,
            },
        }
    }
}

/// The heading of the confession with display number `number`.
pub open spec fn title_of(number: nat) -> Seq<char> {
    "Anonymous Confession (#"@ + decimal_digits(number) + ")"@
}

/// The small print below every confession.
pub open spec fn footer() -> Seq<char> {
    "❗ If this confession is ToS-breaking or overtly hateful, you can report it using \"/report\""@
}

/// The announcement of a confession.
pub open spec fn announcement(
    number: nat,
    text: Seq<char>,
    attachment: Option<Seq<char>>,
    colour: u32,
) -> AnnouncementView {
    AnnouncementView {
        title: title_of(number),
        description: text,
        footer: footer(),
        colour,
        image: attachment,
    }
}

/// Calls `rand::Rng::gen_range` on `rand::thread_rng()` with the inclusive
/// range from `low` to `high`. Nothing is proved of the generator; what is
/// taken on trust is that the value lies in the range it was asked for. An
/// empty range would panic and is excluded. Which value comes is left open:
/// two calls with the same bounds may differ.
#[verifier::external_body]
fn random_between(low: u32, high: u32) -> (value: u32)
    requires
        low <= high,
    ensures
        low <= value <= high,
{
    rand::thread_rng().gen_range(low..=high)
}

/// Picks the colour of a frame at random.
pub fn pick_colour() -> (colour: u32)
    ensures
        colour <= WHITE,
{
    random_between(0, WHITE)
}

/// Lays out the announcement of a confession.
pub fn compose(number: u64, text: &str, attachment: Option<&str>, colour: u32) -> (composed:
    Announcement)
    ensures
        composed@ == announcement(
            number as nat,
            text@,
            match attachment {
                Some(address) => Some(address@),
                None => None,
            },
            colour,
        ),
{
    let mut title = String::from_str("Anonymous Confession (#");
    push_decimal(&mut title, number);
    title.append(")");
    let image = match attachment {
        Some(address) => Some(String::from_str(address)),
        None => None,
    };
    Announcement {
        title,
        description: String::from_str(text),
        footer: String::from_str(
            "❗ If this confession is ToS-breaking or overtly hateful, you can report it using \"/report\"",
        ),
        colour,
        image,
    }
}

} // verus!
