use confessions::announcement::{compose, pick_colour, WHITE};
use confessions::commands::{Acknowledgement, Command, ConfessionCommands, Submission};
use confessions::handler::Handler;
use confessions::interaction::{option_attachment, option_text, Invocation, OptionValue};
use confessions::ledger::LedgerEntry;
use confessions::reference::Reference;
use confessions::retraction::{retract, Retraction};
use confessions::schema::OptionKind;

const FOOTER: &str = "\u{2757} If this confession is ToS-breaking or overtly hateful, you can report it using \"/report\"";

fn invocation(
    command_name: &str,
    user_id: u64,
    community_id: Option<u64>,
    options: Vec<OptionValue>,
) -> Invocation {
    Invocation {
        command_name: command_name.to_string(),
        user_id,
        user_name: format!("user{}", user_id),
        community_id,
        options,
    }
}

fn confession(user_id: u64, community_id: Option<u64>, text: &str) -> Invocation {
    invocation("confess", user_id, community_id, vec![OptionValue::Text(text.to_string())])
}

fn retraction(user_id: u64, community_id: Option<u64>, reference: &str) -> Invocation {
    invocation("delete", user_id, community_id, vec![OptionValue::Text(reference.to_string())])
}

fn publish(handler: &mut Handler, request: &Invocation, post_id: u64) {
    match ConfessionCommands::confess(handler, request) {
        Submission::Publish(_) => {}
        Submission::MissingText => panic!("the request carries text"),
    }
    assert_eq!(
        ConfessionCommands::published(handler, request, Ok(post_id)),
        Acknowledgement::Withdraw
    );
}

#[test]
fn submit_then_retract() {
    let mut handler = Handler::new();
    let (c1, u1, u2) = (77u64, 1u64, 2u64);
    let request = confession(u1, Some(c1), "hello");

    let submission = ConfessionCommands::confess(&mut handler, &request);
    let composed = match submission {
        Submission::Publish(composed) => composed,
        Submission::MissingText => panic!("the request carries text"),
    };
    assert_eq!(composed.title, "Anonymous Confession (#1)");
    assert_eq!(composed.description, "hello");
    assert_eq!(composed.footer, FOOTER);
    assert_eq!(composed.image, None);
    assert!(composed.colour <= 0xFFFFFF);

    let acknowledgement = ConfessionCommands::published(&mut handler, &request, Ok(555));
    assert_eq!(acknowledgement, Acknowledgement::Withdraw);
    assert_eq!(handler.authors.author_of(555), Some(u1));
    assert_eq!(handler.ledger.lookup(c1, 1), Some(LedgerEntry { author_id: u1, post_id: 555 }));

    let verdict = ConfessionCommands::delete(&handler, &retraction(u1, Some(c1), "#1"));
    assert_eq!(verdict, Retraction::Delete { post_id: 555 });
    assert_eq!(ConfessionCommands::retracted(Ok(())), ":white_check_mark: Confession deleted.");

    let verdict = ConfessionCommands::delete(&handler, &retraction(u2, Some(c1), "555"));
    assert_eq!(verdict, Retraction::NotAuthor);
    assert_eq!(
        verdict.reply(),
        "You're not the author of that confession or message wasn't recorded"
    );
}

#[test]
fn author_may_retract_and_nobody_else() {
    let mut handler = Handler::new();
    publish(&mut handler, &confession(10, None, "a"), 900);
    publish(&mut handler, &confession(11, Some(3), "b"), 901);
    for reference in ["900", "+900", "0900"] {
        assert_eq!(
            ConfessionCommands::delete(&handler, &retraction(10, None, reference)),
            Retraction::Delete { post_id: 900 }
        );
        assert_eq!(
            ConfessionCommands::delete(&handler, &retraction(11, Some(3), reference)),
            Retraction::NotAuthor
        );
    }
    assert_eq!(
        ConfessionCommands::delete(&handler, &retraction(11, Some(3), "#1")),
        Retraction::Delete { post_id: 901 }
    );
    assert_eq!(
        ConfessionCommands::delete(&handler, &retraction(10, Some(3), "#1")),
        Retraction::NotAuthor
    );
    assert_eq!(
        ConfessionCommands::delete(&handler, &retraction(11, None, "901")),
        Retraction::Delete { post_id: 901 }
    );
}

#[test]
fn unknown_post_is_not_tracked() {
    let mut handler = Handler::new();
    assert_eq!(
        ConfessionCommands::delete(&handler, &retraction(1, Some(1), "555")),
        Retraction::NotTracked
    );
    publish(&mut handler, &confession(1, Some(1), "x"), 554);
    assert_eq!(
        ConfessionCommands::delete(&handler, &retraction(1, Some(1), "555")),
        Retraction::NotTracked
    );
    assert_eq!(Retraction::NotTracked.reply(), "Message with that id does not exist");
}

#[test]
fn every_refusal_has_its_input() {
    let mut handler = Handler::new();
    publish(&mut handler, &confession(1, Some(5), "x"), 100);
    let ask = |user_id: u64, community_id: Option<u64>, reference: &str| {
        ConfessionCommands::delete(&handler, &retraction(user_id, community_id, reference))
    };
    assert_eq!(ask(1, Some(5), "#x"), Retraction::MalformedOrdinal);
    assert_eq!(ask(1, Some(5), "#"), Retraction::MalformedOrdinal);
    assert_eq!(ask(1, None, "#x"), Retraction::MalformedOrdinal);
    assert_eq!(ask(1, None, "#1"), Retraction::NoCommunity);
    assert_eq!(ask(1, Some(5), "#0"), Retraction::UnknownOrdinal);
    assert_eq!(ask(1, Some(5), "#2"), Retraction::UnknownOrdinal);
    assert_eq!(ask(1, Some(6), "#1"), Retraction::UnknownOrdinal);
    assert_eq!(ask(1, Some(5), "abc"), Retraction::MalformedPost);
    assert_eq!(ask(1, Some(5), ""), Retraction::MalformedPost);
    assert_eq!(ask(1, Some(5), "-100"), Retraction::MalformedPost);
    assert_eq!(ask(1, Some(5), "101"), Retraction::NotTracked);
    assert_eq!(ask(2, Some(5), "100"), Retraction::NotAuthor);
    assert_eq!(ask(2, Some(5), "#1"), Retraction::NotAuthor);
    assert_eq!(ask(1, Some(5), "100"), Retraction::Delete { post_id: 100 });
    assert_eq!(ask(1, Some(5), "#1"), Retraction::Delete { post_id: 100 });
    let no_reference = invocation("delete", 1, Some(5), vec![]);
    assert_eq!(ConfessionCommands::delete(&handler, &no_reference), Retraction::MissingReference);
    let wrong_kind =
        invocation("delete", 1, Some(5), vec![OptionValue::Attachment("100".to_string())]);
    assert_eq!(ConfessionCommands::delete(&handler, &wrong_kind), Retraction::MissingReference);
}

#[test]
fn retract_decides_a_read_reference() {
    let mut handler = Handler::new();
    publish(&mut handler, &confession(4, Some(2), "x"), 40);
    assert_eq!(
        retract(&handler, 4, Some(2), Reference::Ordinal(1)),
        Retraction::Delete { post_id: 40 }
    );
    assert_eq!(retract(&handler, 4, None, Reference::Ordinal(1)), Retraction::NoCommunity);
    assert_eq!(retract(&handler, 4, None, Reference::Post(40)), Retraction::Delete { post_id: 40 });
    assert_eq!(retract(&handler, 5, None, Reference::Post(40)), Retraction::NotAuthor);
    assert_eq!(retract(&handler, 4, None, Reference::Post(41)), Retraction::NotTracked);
    assert_eq!(
        retract(&handler, 4, Some(2), Reference::Ordinal(usize::MAX)),
        Retraction::UnknownOrdinal
    );
    assert_eq!(
        retract(&handler, 4, Some(2), Reference::MalformedOrdinal),
        Retraction::MalformedOrdinal
    );
    assert_eq!(retract(&handler, 4, Some(2), Reference::MalformedPost), Retraction::MalformedPost);
}

#[test]
fn replies_are_distinct_and_exact() {
    assert_eq!(
        (Retraction::Delete { post_id: 1 }).reply(),
        ":white_check_mark: Confession deleted."
    );
    assert_eq!(
        Retraction::MalformedOrdinal.reply(),
        "Incorrect input. If you want to delete your confession try puting correct confession number for example `/delete #12` to delete confession with number 12)"
    );
    assert_eq!(
        Retraction::UnknownOrdinal.reply(),
        "Failed to find the confession. Was the confession number correct?"
    );
    assert_eq!(
        Retraction::MalformedPost.reply(),
        "Expected a positive number (usually 18-19 digits)."
    );
    assert_eq!(
        Retraction::NoCommunity.reply(),
        "You can only use this bot in actual discord servers."
    );
    assert_eq!(
        Retraction::MissingReference.reply(),
        "Expected the id or the number of a confession."
    );
    assert_ne!(Retraction::NotTracked.reply(), Retraction::NotAuthor.reply());
    assert_ne!(Retraction::NotTracked.reply(), Retraction::UnknownOrdinal.reply());
}

#[test]
fn failed_deletion_is_passed_on() {
    assert_eq!(ConfessionCommands::retracted(Err("Unknown Message".to_string())), "Unknown Message");
}

#[test]
fn failed_publication_records_nothing() {
    let mut handler = Handler::new();
    let request = confession(1, Some(9), "hello");
    match ConfessionCommands::confess(&mut handler, &request) {
        Submission::Publish(composed) => assert_eq!(composed.title, "Anonymous Confession (#1)"),
        Submission::MissingText => panic!("the request carries text"),
    }
    let acknowledgement =
        ConfessionCommands::published(&mut handler, &request, Err("Missing Access".to_string()));
    assert_eq!(acknowledgement, Acknowledgement::Explain("Missing Access".to_string()));
    assert_eq!(handler.ledger.lookup(9, 1), None);
    assert_eq!(handler.authors.author_of(0), None);
    match ConfessionCommands::confess(&mut handler, &request) {
        Submission::Publish(composed) => assert_eq!(composed.title, "Anonymous Confession (#2)"),
        Submission::MissingText => panic!("the request carries text"),
    }
}

#[test]
fn confession_outside_a_community_is_only_recorded() {
    let mut handler = Handler::new();
    publish(&mut handler, &confession(1, None, "hello"), 70);
    assert_eq!(handler.authors.author_of(70), Some(1));
    assert_eq!(handler.ledger.lookup(0, 1), None);
}

#[test]
fn confession_without_text_takes_no_number() {
    let mut handler = Handler::new();
    let empty = invocation("confess", 1, Some(1), vec![]);
    assert_eq!(ConfessionCommands::confess(&mut handler, &empty), Submission::MissingText);
    let wrong_kind = invocation(
        "confess",
        1,
        Some(1),
        vec![OptionValue::Attachment("https://cdn.example/a.png".to_string())],
    );
    assert_eq!(ConfessionCommands::confess(&mut handler, &wrong_kind), Submission::MissingText);
    let other = invocation("confess", 1, Some(1), vec![OptionValue::Other]);
    assert_eq!(ConfessionCommands::confess(&mut handler, &other), Submission::MissingText);
    assert_eq!(handler.count.next(), 1);
    assert_eq!(ConfessionCommands::MISSING_TEXT, "Expected the text of the confession.");
}

#[test]
fn attachment_becomes_the_picture() {
    let mut handler = Handler::new();
    let request = invocation(
        "confess",
        1,
        None,
        vec![
            OptionValue::Text("look".to_string()),
            OptionValue::Attachment("https://cdn.example/a.png".to_string()),
        ],
    );
    match ConfessionCommands::confess(&mut handler, &request) {
        Submission::Publish(composed) => {
            assert_eq!(composed.image, Some("https://cdn.example/a.png".to_string()));
            assert_eq!(composed.description, "look");
        }
        Submission::MissingText => panic!("the request carries text"),
    }
    let second_text = invocation(
        "confess",
        1,
        None,
        vec![OptionValue::Text("look".to_string()), OptionValue::Text("again".to_string())],
    );
    match ConfessionCommands::confess(&mut handler, &second_text) {
        Submission::Publish(composed) => assert_eq!(composed.image, None),
        Submission::MissingText => panic!("the request carries text"),
    }
}

#[test]
fn display_numbers_count_across_communities() {
    let mut handler = Handler::new();
    let mut titles: Vec<String> = Vec::new();
    for (community_id, user_id) in [(Some(1u64), 1u64), (Some(2), 2), (None, 3), (Some(1), 1)] {
        match ConfessionCommands::confess(&mut handler, &confession(user_id, community_id, "x")) {
            Submission::Publish(composed) => titles.push(composed.title),
            Submission::MissingText => panic!("the request carries text"),
        }
    }
    assert_eq!(
        titles,
        vec![
            "Anonymous Confession (#1)",
            "Anonymous Confession (#2)",
            "Anonymous Confession (#3)",
            "Anonymous Confession (#4)"
        ]
    );
}

#[test]
fn composed_announcement_is_exact() {
    let composed = compose(1234567890, "text", Some("https://x/y"), 0x00AB12);
    assert_eq!(composed.title, "Anonymous Confession (#1234567890)");
    assert_eq!(composed.description, "text");
    assert_eq!(composed.footer, FOOTER);
    assert_eq!(composed.colour, 0x00AB12);
    assert_eq!(composed.image, Some("https://x/y".to_string()));
    let plain = compose(0, "", None, 0);
    assert_eq!(plain.title, "Anonymous Confession (#0)");
    assert_eq!(plain.description, "");
    assert_eq!(plain.image, None);
}

#[test]
fn colours_are_in_range_and_vary() {
    assert_eq!(WHITE, 0xFFFFFF);
    let first = pick_colour();
    let mut varied = false;
    for _ in 0..200 {
        let colour = pick_colour();
        assert!(colour <= WHITE);
        if colour != first {
            varied = true;
        }
    }
    assert!(varied);
}

#[test]
fn confess_picks_a_colour_in_range() {
    let mut handler = Handler::new();
    let mut colours: Vec<u32> = Vec::new();
    for _ in 0..50 {
        match ConfessionCommands::confess(&mut handler, &confession(1, None, "x")) {
            Submission::Publish(composed) => {
                assert!(composed.colour <= WHITE);
                colours.push(composed.colour);
            }
            Submission::MissingText => panic!("the request carries text"),
        }
    }
    assert!(colours.iter().any(|colour| *colour != 0));
    assert!(colours.iter().any(|colour| *colour != WHITE));
}

#[test]
fn commands_are_found_by_name() {
    assert_eq!(ConfessionCommands::resolve_interaction("confess"), Some(Command::Confess));
    assert_eq!(ConfessionCommands::resolve_interaction("delete"), Some(Command::Delete));
    assert_eq!(ConfessionCommands::resolve_interaction("report"), Some(Command::Report));
    for name in ["", "Confess", "confess ", "remove", "reports", "delet"] {
        assert_eq!(ConfessionCommands::resolve_interaction(name), None, "{:?}", name);
    }
}

#[test]
fn registered_commands_are_the_three() {
    let commands = ConfessionCommands::register_commands();
    assert_eq!(commands.len(), 3);

    assert_eq!(commands[0].name, "confess");
    assert_eq!(commands[0].description, "Confess your sins anonymously");
    assert_eq!(commands[0].options.len(), 2);
    assert_eq!(commands[0].options[0].name, "text");
    assert_eq!(commands[0].options[0].description, "confession");
    assert_eq!(commands[0].options[0].kind, OptionKind::Text);
    assert!(commands[0].options[0].required);
    assert_eq!(commands[0].options[1].name, "attachment");
    assert_eq!(commands[0].options[1].description, "A file");
    assert_eq!(commands[0].options[1].kind, OptionKind::Attachment);
    assert!(!commands[0].options[1].required);

    assert_eq!(commands[1].name, "delete");
    assert_eq!(commands[1].description, "Delete your thought silently");
    assert_eq!(commands[1].options.len(), 1);
    assert_eq!(commands[1].options[0].name, "confession");
    assert_eq!(
        commands[1].options[0].description,
        "Message id or number of the confession (ex. #12 or 1154827563584209006)"
    );
    assert_eq!(commands[1].options[0].kind, OptionKind::Text);
    assert!(commands[1].options[0].required);

    assert_eq!(commands[2].name, "report");
    assert_eq!(commands[2].description, "Report user");
    assert_eq!(commands[2].options.len(), 2);
    assert_eq!(commands[2].options[0].name, "user");
    assert_eq!(commands[2].options[0].description, "User to be reported");
    assert_eq!(commands[2].options[0].kind, OptionKind::User);
    assert!(commands[2].options[0].required);
    assert_eq!(commands[2].options[1].name, "reason");
    assert_eq!(commands[2].options[1].description, "What did they do?");
    assert_eq!(commands[2].options[1].kind, OptionKind::Text);
    assert!(!commands[2].options[1].required);

    for command in commands.iter() {
        assert!(ConfessionCommands::resolve_interaction(command.name).is_some());
    }
}

#[test]
fn report_names_the_reporter() {
    assert_eq!(ConfessionCommands::report("alice"), "alice tried to report a user");
    assert_eq!(ConfessionCommands::report(""), " tried to report a user");
}

#[test]
fn message_line_prefers_the_text() {
    let attachments = vec!["https://a/1".to_string(), "https://a/2".to_string()];
    assert_eq!(
        Handler::display_message("bob", "hi", &attachments),
        Some("[bob] hi".to_string())
    );
    assert_eq!(
        Handler::display_message("bob", "", &attachments),
        Some("[bob] https://a/1".to_string())
    );
    assert_eq!(Handler::display_message("bob", "hi", &vec![]), Some("[bob] hi".to_string()));
    assert_eq!(Handler::display_message("bob", "", &vec![]), None);
}

#[test]
fn options_are_read_by_position() {
    let options = vec![
        OptionValue::Text("t".to_string()),
        OptionValue::Attachment("u".to_string()),
        OptionValue::Other,
    ];
    assert_eq!(option_text(&options, 0), Some("t"));
    assert_eq!(option_text(&options, 1), None);
    assert_eq!(option_text(&options, 2), None);
    assert_eq!(option_text(&options, 3), None);
    assert_eq!(option_attachment(&options, 0), None);
    assert_eq!(option_attachment(&options, 1), Some("u"));
    assert_eq!(option_attachment(&options, 2), None);
    assert_eq!(option_attachment(&options, usize::MAX), None);
}

#[test]
fn fresh_handler_knows_nothing() {
    let mut handler = Handler::new();
    assert_eq!(handler.authors.author_of(1), None);
    assert_eq!(handler.ledger.lookup(1, 1), None);
    assert!(!handler.count.is_spent());
    assert_eq!(handler.count.next(), 1);
}

#[test]
fn same_post_seen_in_log_and_store() {
    let mut handler = Handler::new();
    for n in 1..=20u64 {
        publish(&mut handler, &confession(n % 3, Some(n % 2), "x"), 1000 + n);
    }
    for community_id in 0..2u64 {
        for local_number in 1..=10usize {
            let entry = handler.ledger.lookup(community_id, local_number);
            match entry {
                Some(entry) => {
                    assert_eq!(handler.authors.author_of(entry.post_id), Some(entry.author_id));
                    assert!(handler.authors.is_author(entry.post_id, entry.author_id));
                }
                None => panic!("ten posts went to each community"),
            }
        }
        assert_eq!(handler.ledger.lookup(community_id, 11), None);
    }
}
