//! The commands as they are registered with the platform.

use crate::commands::ConfessionCommands;
use vstd::prelude::*;

verus! {

/// What kind of value an option takes.
#[derive(Clone, Copy, Debug, PartialEq, Eq)]
pub enum OptionKind {
    /// Free text.
    Text,
    /// An uploaded file.
    Attachment,
    /// A user of the platform.
    User,
}

/// One option of a command.
#[derive(Clone, Copy, Debug, PartialEq, Eq)]
pub struct OptionSchema {
    pub name: &'static str,
    pub description: &'static str,
    pub kind: OptionKind,
    pub required: bool,
}

/// One command: its name, what it is for, and its options in order.
#[derive(Clone, Debug, PartialEq, Eq)]
pub struct CommandSchema {
    pub name: &'static str,
    pub description: &'static str,
    pub options: Vec<OptionSchema>,
}

/// An option as mathematics.
pub struct OptionSchemaView {
    pub name: Seq<char>,
    pub description: Seq<char>,
    pub kind: OptionKind,
    pub required: bool,
}

/// A command as mathematics.
pub struct CommandSchemaView {
    pub name: Seq<char>,
    pub description: Seq<char>,
    pub options: Seq<OptionSchemaView>,
}

impl View for OptionSchema {
    type V = OptionSchemaView;

    open spec fn view(&self) -> OptionSchemaView {
        OptionSchemaView {
            name: self.name@,
            description: self.description@,
            kind: self.kind,
            required: self.required,
        }
    }
}

impl View for CommandSchema {
    type V = CommandSchemaView;

    open spec fn view(&self) -> CommandSchemaView {
        CommandSchemaView {
            name: self.name@,
            description: self.description@,
            options: Seq::new(self.options@.len(), |i: int| self.options@[i]@),
        }
    }
}

/// The command that publishes a confession: the text, then an optional file.
pub open spec fn confess_schema() -> CommandSchemaView {
    CommandSchemaView {
        name: "confess"@,
        description: "Confess your sins anonymously"@,
        options: seq![
            OptionSchemaView {
                name: "text"@,
                description: "confession"@,
                kind: OptionKind::Text,
                required: true,
            },
            OptionSchemaView {
                name: "attachment"@,
                description: "A file"@,
                kind: OptionKind::Attachment,
                required: false,
            },
        ],
    }
}

/// The command that retracts a confession: the reference to it.
pub open spec fn delete_schema() -> CommandSchemaView {
    CommandSchemaView {
        name: "delete"@,
        description: "Delete your thought silently"@,
        options: seq![
            OptionSchemaView {
                name: "confession"@,
                description: "Message id or number of the confession (ex. #12 or 1154827563584209006)"@,
                kind: OptionKind::Text,
                required: true,
            },
        ],
    }
}

/// The command that reports a user: the user, then an optional reason.
pub open spec fn report_schema() -> CommandSchemaView {
    CommandSchemaView {
        name: "report"@,
        description: "Report user"@,
        options: seq![
            OptionSchemaView {
                name: "user"@,
                description: "User to be reported"@,
                kind: OptionKind::User,
                required: true,
            },
            OptionSchemaView {
                name: "reason"@,
                description: "What did they do?"@,
                kind: OptionKind::Text,
                required: false,
            },
        ],
    }
}

/// All commands, in the order of their registration.
pub open spec fn registry() -> Seq<CommandSchemaView> {
    seq![confess_schema(), delete_schema(), report_schema()]
}

impl ConfessionCommands {
    /// The commands to register with the platform: `confess`, `delete` and
    /// `report`, with their options.
    pub fn register_commands() -> (commands: Vec<CommandSchema>)
        ensures
            commands@.len() == registry().len(),
            forall|i: int| 0 <= i < commands@.len() ==> (#[trigger] commands@[i])@ == registry()[i],
    {
        let mut confess_options: Vec<OptionSchema> = Vec::new();
        confess_options.push(
            OptionSchema {
                name: "text",
                description: "confession",
                kind: OptionKind::Text,
                required: true,
            },
        );
        confess_options.push(
            OptionSchema {
                name: "attachment",
                description: "A file",
                kind: OptionKind::Attachment,
                required: false,
            },
        );
        let confess = CommandSchema {
            name: "confess",
            description: "Confess your sins anonymously",
            options: confess_options,
        };
        assert(confess@.options =~= confess_schema().options);

        let mut delete_options: Vec<OptionSchema> = Vec::new();
        delete_options.push(
            OptionSchema {
                name: "confession",
                description: "Message id or number of the confession (ex. #12 or 1154827563584209006)",
                kind: OptionKind::Text,
                required: true,
            },
        );
        let delete = CommandSchema {
            name: "delete",
            description: "Delete your thought silently",
            options: delete_options,
        };
        assert(delete@.options =~= delete_schema().options);

        let mut report_options: Vec<OptionSchema> = Vec::new();
        report_options.push(
            OptionSchema {
                name: "user",
                description: "User to be reported",
                kind: OptionKind::User,
                required: true,
            },
        );
        report_options.push(
            OptionSchema {
                name: "reason",
                description: "What did they do?",
                kind: OptionKind::Text,
                required: false,
            },
        );
        let report = CommandSchema {
            name: "report",
            description: "Report user",
            options: report_options,
        };
        assert(report@.options =~= report_schema().options);

        let mut commands: Vec<CommandSchema> = Vec::new();
        commands.push(confess);
        commands.push(delete);
        commands.push(report);
        commands
    }
}

} // verus!
