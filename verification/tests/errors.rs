use abby_bot::embed::Reply;
use abby_bot::error::{error_handler, permissions_display, BotError, ConfigError, FrameworkFailure};

const USER_FOOTER: &str = "If you think this was an error with the bot, please contact the developer.";
const BOT_FOOTER: &str = "This is undoubtedly an error with the bot, please contact the developer.";
const WARN: u32 = (253 << 16) | (253 << 8) | 150;
const ERROR: u32 = (178 << 16) | (34 << 8) | 34;

fn reply_parts(r: &Reply) -> (Option<String>, Option<String>, Option<u32>, Option<String>) {
    assert!(r.reply);
    assert!(r.ephemeral);
    assert!(r.content.is_none());
    let e = r.embed.as_ref().expect("an embed");
    (e.title.clone(), e.description.clone(), e.color, e.footer.clone())
}

#[test]
fn bot_error_messages() {
    assert_eq!(BotError::WrongInteraction.message(), "Somehow recieved wrong interaction ID during a filtered interaction wait.");
    assert_eq!(BotError::InteractionTimedOut.message(), "Interaction timed out, please try again.");
    assert_eq!(
        BotError::MalformedInput(String::from("a/b")).message(),
        "Malformed input \"a/b\" is not parseable."
    );
    assert_eq!(
        BotError::InvalidInput(String::from("until")).message(),
        "Input within argument \"until\" is not malformed but is invalid. Please double check the command and try again."
    );
    assert_eq!(
        BotError::RoleListFailed(String::from("Colors")).message(),
        "Failed to create role list for group \"Colors\"."
    );
    assert_eq!(BotError::RoleAlreadyExists.message(), "A role with an identical name already exists.");
    assert_eq!(
        BotError::RolesChannelUnset.message(),
        "Roles channel is not set and for safety will not be infered. In order to use this command please set the channel with \"/setup roles\"."
    );
    assert_eq!(
        BotError::UserCountNotCalculated.message(),
        "The user count thread has somehow been called before it was calculated."
    );
}

#[test]
fn missing_permissions_message_lists_names_in_upper_case() {
    let bits = (1u64 << 11) | (1u64 << 28);
    assert_eq!(
        BotError::InteractionMissingPermissions(bits).message(),
        "Missing required permissions for component: SEND MESSAGES, MANAGE ROLES"
    );
}

#[test]
fn config_error_messages() {
    let e = ConfigError::MissingFile { path: String::from("data/config.toml"), source: String::from("not found") };
    assert_eq!(e.message(), "Could not read the configuration file data/config.toml");
    assert_eq!(ConfigError::Token.message(), "Either token or token_file could not be read.");
}

#[test]
fn permission_sets_display_as_a_list() {
    assert_eq!(permissions_display(0), "");
    assert_eq!(permissions_display(1 << 3), "Administrator");
    assert_eq!(permissions_display((1 << 11) | (1 << 28)), "Send Messages and Manage Roles");
    assert_eq!(permissions_display(8 | 16 | 32), "Administrator, Manage Channels and Manage Guild");
}

#[test]
fn logged_failures_send_nothing() {
    assert!(error_handler(&FrameworkFailure::Setup).is_none());
    assert!(error_handler(&FrameworkFailure::EventHandler).is_none());
    assert!(error_handler(&FrameworkFailure::DynamicPrefix).is_none());
    assert!(error_handler(&FrameworkFailure::UnknownCommand).is_none());
    assert!(error_handler(&FrameworkFailure::UnknownInteraction).is_none());
    let unchecked = FrameworkFailure::CommandCheckFailed { invocation: String::from("/snap"), reason: None };
    assert!(error_handler(&unchecked).is_none());
}

#[test]
fn command_errors_by_the_user_and_by_the_bot() {
    let user = FrameworkFailure::Command {
        user_error: true,
        invocation: String::from("/rewind"),
        error: String::from("bad link"),
    };
    let (title, desc, color, footer) = reply_parts(&error_handler(&user).unwrap());
    assert_eq!(title.as_deref(), Some(":warning: Warning :warning:"));
    assert_eq!(desc.as_deref(), Some("An error has been made while invoking \"/rewind\":\n```\nbad link\n```"));
    assert_eq!(color, Some(WARN));
    assert_eq!(footer.as_deref(), Some(USER_FOOTER));

    let bot = FrameworkFailure::Command {
        user_error: false,
        invocation: String::from("/rewind"),
        error: String::from("database locked"),
    };
    let (title, desc, color, footer) = reply_parts(&error_handler(&bot).unwrap());
    assert_eq!(title.as_deref(), Some(":exclamation: Error :exclamation:"));
    assert_eq!(
        desc.as_deref(),
        Some("An error occurred during the execution of \"/rewind\":\n```\ndatabase locked\n```")
    );
    assert_eq!(color, Some(ERROR));
    assert_eq!(footer.as_deref(), Some(BOT_FOOTER));
}

#[test]
fn subcommands_are_listed() {
    let f = FrameworkFailure::SubcommandRequired {
        invocation: String::from("/snap"),
        subcommands: vec![String::from("snap channel"), String::from("snap role")],
    };
    let (_, desc, _, footer) = reply_parts(&error_handler(&f).unwrap());
    assert_eq!(
        desc.as_deref(),
        Some("Command \"/snap\" must be used with the following subcommands:\n```\n- snap channel\n- snap role\n```")
    );
    assert_eq!(footer.as_deref(), Some(BOT_FOOTER));
}

#[test]
fn panic_has_its_own_title() {
    let (title, desc, _, footer) = reply_parts(&error_handler(&FrameworkFailure::CommandPanic).unwrap());
    assert_eq!(title.as_deref(), Some(":exclamation: Panic :exclamation:"));
    assert_eq!(
        desc.as_deref(),
        Some("An extremely bad error has occured. Please contact the bot owner and tell them to check the logs.")
    );
    assert_eq!(footer, None);
}

#[test]
fn argument_parse_failures() {
    let with_input = FrameworkFailure::ArgumentParse {
        invocation: String::from("/rewind"),
        input: Some(String::from("abc")),
        error: String::from("not a link"),
    };
    let (_, desc, _, _) = reply_parts(&error_handler(&with_input).unwrap());
    assert_eq!(desc.as_deref(), Some("Failed to parse \"abc\" from invocation of \"/rewind\"\n```not a link```"));
    let without = FrameworkFailure::ArgumentParse {
        invocation: String::from("/rewind"),
        input: None,
        error: String::from("missing"),
    };
    let (_, desc, _, _) = reply_parts(&error_handler(&without).unwrap());
    assert_eq!(desc.as_deref(), Some("Failed to parse argument from invocation of \"/rewind\"\n```missing```"));
}

#[test]
fn cooldown_and_permissions() {
    let cool = FrameworkFailure::CooldownHit { invocation: String::from("/bottomify"), remaining_secs: 5 };
    let (_, desc, color, footer) = reply_parts(&error_handler(&cool).unwrap());
    assert_eq!(desc.as_deref(), Some("You must wait **5 seconds** before attempting to invoke this command again."));
    assert_eq!(color, Some(WARN));
    assert_eq!(footer.as_deref(), Some(USER_FOOTER));

    let bot = FrameworkFailure::MissingBotPermissions {
        invocation: String::from("/snap channel"),
        permissions: (1 << 11) | (1 << 28),
    };
    let (_, desc, _, footer) = reply_parts(&error_handler(&bot).unwrap());
    assert_eq!(
        desc.as_deref(),
        Some("Bot requires the following permissions in order to execute \"/snap channel\": Send Messages and Manage Roles")
    );
    assert_eq!(footer, None);

    let user = FrameworkFailure::MissingUserPermissions { invocation: String::from("/rewind"), missing: Some(1 << 13) };
    let (_, desc, _, _) = reply_parts(&error_handler(&user).unwrap());
    assert_eq!(
        desc.as_deref(),
        Some("You must have the following permissions to execute \"/rewind\":\n```\nManage Messages\n```")
    );
    let unknown = FrameworkFailure::MissingUserPermissions { invocation: String::from("/rewind"), missing: None };
    let (_, desc, _, _) = reply_parts(&error_handler(&unknown).unwrap());
    assert_eq!(desc.as_deref(), Some("You do not have the permissions to execute \"/rewind\"."));
}

#[test]
fn place_restrictions() {
    let cases = [
        (FrameworkFailure::NotAnOwner { invocation: String::from("/register") }, "\"/register\" can only be invoked by the owner of the bot."),
        (FrameworkFailure::GuildOnly { invocation: String::from("/setup") }, "\"/setup\" can only be invoked inside of a server."),
        (FrameworkFailure::DmOnly { invocation: String::from("/x") }, "\"/x\" can only be invoked inside of a direct message."),
        (FrameworkFailure::NsfwOnly { invocation: String::from("/y") }, "\"/y\" can only be invoked inside of a NSFW channel."),
    ];
    for (failure, text) in cases {
        let (_, desc, _, footer) = reply_parts(&error_handler(&failure).unwrap());
        assert_eq!(desc.as_deref(), Some(text));
        assert_eq!(footer.as_deref(), Some(USER_FOOTER));
    }
}

#[test]
fn failed_checks_and_mismatches() {
    let check = FrameworkFailure::CommandCheckFailed {
        invocation: String::from("/snap"),
        reason: Some(String::from("Database(RowNotFound)")),
    };
    let (_, desc, _, footer) = reply_parts(&error_handler(&check).unwrap());
    assert_eq!(desc.as_deref(), Some("Check failed to run for invocation \"/snap\":\n```\nDatabase(RowNotFound)\n```"));
    assert_eq!(footer.as_deref(), Some(BOT_FOOTER));
    let mismatch = FrameworkFailure::CommandStructureMismatch {
        command: String::from("setup bot"),
        description: String::from("unexpected option"),
    };
    let (_, desc, _, _) = reply_parts(&error_handler(&mismatch).unwrap());
    assert_eq!(
        desc.as_deref(),
        Some("Structure mismatch between registered and programmed command for setup bot:\n```\nunexpected option\n```")
    );
}
