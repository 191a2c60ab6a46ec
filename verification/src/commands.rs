//! The three commands, as decisions.
//!
//! Each command alternates between deciding and acting on the platform. The
//! functions here decide; the caller acts and hands the outcome to the next
//! function: `confess`, publish, `published`; `delete`, delete, `retracted`.

use crate::announcement::{announcement, compose, pick_colour, Announcement, WHITE};
use crate::handler::{logged, publication_keeps_consistency, unclaimed, Handler};
use crate::interaction::{attachment_at, option_attachment, option_text, text_at, Invocation};
use crate::reference::{parse_reference, reference_of};
use crate::retraction::{reply_text, retract, retraction, Retraction};
use crate::schema::registry;
use crate::sequence::number_after;
use vstd::prelude::*;
use vstd::string::StringExecFns;

verus! {

/// A command that the service answers.
#[derive(Clone, Copy, Debug, PartialEq, Eq)]
pub enum Command {
    /// Publish a confession.
    Confess,
    /// Retract a confession.
    Delete,
    /// Report a user.
    Report,
}

/// What becomes of a request to confess.
#[derive(Clone, Debug, PartialEq, Eq)]
pub enum Submission {
    /// The confession is to be published as laid out here.
    Publish(Announcement),
    /// The request carries no text: nothing is to be published.
    MissingText,
}

/// What becomes of the pending answer to a request to confess, once the
/// platform has tried to publish.
#[derive(Clone, Debug, PartialEq, Eq)]
pub enum Acknowledgement {
    /// The confession is out: the pending answer is withdrawn.
    Withdraw,
    /// Publishing failed: the pending answer shows why.
    Explain(String),
}

/// The command registered under `name`, if there is one.
pub open spec fn command_named(name: Seq<char>) -> Option<Command> {
    if name == "confess"@ {
        Some(Command::Confess)
    } else if name == "delete"@ {
        Some(Command::Delete)
    } else if name == "report"@ {
        Some(Command::Report)
    } else {
        None
    }
}

/// Whether two texts are the same.
fn same_text(left: &str, right: &str) -> (same: bool)
    ensures
        same == (left@ == right@),
{
    String::from_str(left) == String::from_str(right)
}

/// The command handlers.
pub struct ConfessionCommands;

impl ConfessionCommands {
    /// The answer to a request to confess that carries no text.
    pub const MISSING_TEXT: &'static str = "Expected the text of the confession.";

    /// Finds the command that a delivery is for. A name that was never
    /// registered is for none, and the delivery is then ignored.
    pub fn resolve_interaction(command_name: &str) -> (command: Option<Command>)
        ensures
            command == command_named(command_name@),
    {
        if same_text(command_name, "confess") {
            Some(Command::Confess)
        } else if same_text(command_name, "delete") {
            Some(Command::Delete)
        } else if same_text(command_name, "report") {
            Some(Command::Report)
        } else {
            None
        }
    }

    /// Begins a confession: takes the next display number and lays out what
    /// is to be published, in a colour picked at random. A request without
    /// text takes no number. The stores are not touched before the platform
    /// has published.
    pub fn confess(handler: &mut Handler, invocation: &Invocation) -> (submission: Submission)
        requires
            !old(handler).count.spent(),
        ensures
            final(handler).authors == old(handler).authors,
            final(handler).ledger == old(handler).ledger,
            match text_at(invocation.options@, 0) {
                None => {
                    &&& submission is MissingText
                    &&& final(handler).count.issued() == old(handler).count.issued()
                },
                Some(text) => {
                    &&& final(handler).count.issued() == old(handler).count.issued() + 1
                    &&& submission matches Submission::Publish(composed)
                    &&& composed.colour <= WHITE
                    &&& composed@ == announcement(
                        number_after(old(handler).count.issued()),
                        text,
                        attachment_at(invocation.options@, 1),
                        composed.colour,
                    )
                },
            },
    {
        let text: &str = match option_text(&invocation.options, 0) {
            Some(text) => text,
            None => {
                return Submission::MissingText;
            },
        };
        let number: u64 = handler.count.next();
        let colour: u32 = pick_colour();
        let attachment: Option<&str> = option_attachment(&invocation.options, 1);
        Submission::Publish(compose(number, text, attachment, colour))
    }

    /// Ends a confession. Where the platform has published it as `post_id`,
    /// the invoker is recorded as its author and, for a request made in a
    /// community, the post is added to that community's log. Where publishing
    /// failed, nothing is recorded and the reason is passed on.
    ///
    /// The stores stay consistent as long as the platform hands out each post
    /// identifier once.
    pub fn published(
        handler: &mut Handler,
        invocation: &Invocation,
        outcome: Result<u64, String>,
    ) -> (acknowledgement: Acknowledgement)
        ensures
            final(handler).count == old(handler).count,
            match outcome {
                Ok(post_id) => {
                    &&& acknowledgement is Withdraw
                    &&& final(handler).authors@ == old(handler).authors@.insert(
                        post_id,
                        invocation.user_id,
                    )
                    &&& final(handler).ledger@ == logged(
                        old(handler).ledger@,
                        invocation.community_id,
                        invocation.user_id,
                        post_id,
                    )
                },
                Err(reason) => {
                    &&& acknowledgement matches Acknowledgement::Explain(shown)
                    &&& shown@ == reason@
                    &&& final(handler).authors == old(handler).authors
                    &&& final(handler).ledger == old(handler).ledger
                },
            },
            old(handler).consistent() && (outcome matches Ok(post_id) ==> unclaimed(
                old(handler).authors@,
                invocation.user_id,
                post_id,
            )) ==> final(handler).consistent(),
    {
        match outcome {
            Ok(post_id) => {
                proof {
                    if handler.consistent() && unclaimed(
                        handler.authors@,
                        invocation.user_id,
                        post_id,
                    ) {
                        publication_keeps_consistency(
                            handler.authors@,
                            handler.ledger@,
                            invocation.community_id,
                            invocation.user_id,
                            post_id,
                        );
                    }
                }
                handler.authors.record(post_id, invocation.user_id);
                if let Some(community_id) = invocation.community_id {
                    handler.ledger.append(community_id, invocation.user_id, post_id);
                }
                Acknowledgement::Withdraw
            },
            Err(reason) => Acknowledgement::Explain(reason),
        }
    }

    /// Decides a request to retract. The first option holds the reference:
    /// a platform identifier, or `#` and a community-local number.
    pub fn delete(handler: &Handler, invocation: &Invocation) -> (verdict: Retraction)
        ensures
            verdict == match text_at(invocation.options@, 0) {
                None => Retraction::MissingReference,
                Some(text) => retraction(
                    handler.authors@,
                    handler.ledger@,
                    invocation.user_id,
                    invocation.community_id,
                    reference_of(text),
                ),
            },
    {
        match option_text(&invocation.options, 0) {
            None => Retraction::MissingReference,
            Some(text) => retract(
                handler,
                invocation.user_id,
                invocation.community_id,
                parse_reference(text),
            ),
        }
    }

    /// The answer to the author once the platform has tried to delete the
    /// post: the confirmation, or the reason why the post is still there.
    pub fn retracted(outcome: Result<(), String>) -> (answer: String)
        ensures
            answer@ == match outcome {
                Ok(_) => reply_text(Retraction::Delete { post_id: 0 }),
                Err(reason) => reason@,
            },
    {
        match outcome {
            Ok(_) => String::from_str(":white_check_mark: Confession deleted."),
            Err(reason) => reason,
        }
    }

    /// The notice posted when `user_name` files a report.
    pub fn report(user_name: &str) -> (notice: String)
        ensures
            notice@ == user_name@ + " tried to report a user"@,
    {
        String::from_str(user_name).concat(" tried to report a user")
    }
}

/// Every registered command has a handler, and no two share one: the
/// commands are found under their names as `Confess`, `Delete` and `Report`,
/// in the order of their registration.
pub proof fn registered_commands_resolve()
    ensures
        registry().len() == 3,
        command_named(registry()[0].name) == Some(Command::Confess),
        command_named(registry()[1].name) == Some(Command::Delete),
        command_named(registry()[2].name) == Some(Command::Report),
{
    reveal_strlit("confess");
    reveal_strlit("delete");
    reveal_strlit("report");
    assert("delete"@.len() != "confess"@.len());
    assert("report"@[0] != "confess"@[0]);
    assert("report"@[0] != "delete"@[0]);
}

} // verus!
