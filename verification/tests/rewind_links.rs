use abby_bot::error::BotError;
use abby_bot::rewind::{
    archive_file_name, archive_text, check_same_channel, confirmed, deleted_embed, id_split, page_step, range_start,
    rewind_order, select_range, ArchivedMessage, PageStep,
};

#[test]
fn links_give_channel_and_message() {
    assert_eq!(id_split("https://discord.com/channels/1/2/3").unwrap(), [2, 3]);
    assert_eq!(id_split("2/3").unwrap(), [2, 3]);
}

#[test]
fn malformed_links_are_refused() {
    match id_split("https://discord.com/channels/1/x/3") {
        Err(BotError::MalformedInput(s)) => assert_eq!(s, "https://discord.com/channels/1/x/3"),
        _ => panic!("expected MalformedInput"),
    }
    assert!(matches!(id_split("1/2/"), Err(BotError::MalformedInput(_))));
    assert!(matches!(id_split("a/b"), Err(BotError::MalformedInput(_))));
}

#[test]
fn confirmation_needs_the_message_id() {
    assert!(confirmed(Some("12345"), 12345));
    assert!(!confirmed(Some("1234"), 12345));
    assert!(!confirmed(None, 12345));
}

#[test]
fn both_links_in_one_channel() {
    assert!(check_same_channel(1, 1).is_ok());
    assert!(matches!(check_same_channel(1, 2), Err(BotError::InputChannelMismatch)));
}

#[test]
fn range_starts_at_the_until_message() {
    let ids = vec![50, 40, 30, 40];
    assert_eq!(range_start(&ids, None).unwrap(), 0);
    assert_eq!(range_start(&ids, Some(40)).unwrap(), 1);
    match range_start(&ids, Some(7)) {
        Err(BotError::InvalidInput(s)) => assert_eq!(s, "until"),
        _ => panic!("expected InvalidInput"),
    }
}

#[test]
fn archive_is_oldest_first() {
    let messages = vec![
        ArchivedMessage { author: String::from("bob"), content: String::from("second") },
        ArchivedMessage { author: String::from("amy"), content: String::from("first") },
    ];
    assert_eq!(archive_text(&messages), "amy - first\nbob - second\n");
    assert_eq!(archive_text(&Vec::new()), "");
}

#[test]
fn archive_names_carry_the_time() {
    assert_eq!(
        archive_file_name("Guild", 0).unwrap(),
        "Archive-Guild-1970-01-01T00:00:00.000000000Z.txt"
    );
    assert_eq!(
        archive_file_name("G", 1_500_000_000_123_000_000).unwrap(),
        "Archive-G-2017-07-14T02:40:00.123000000Z.txt"
    );
}

#[test]
fn deletion_answer() {
    let e = deleted_embed(10, 20);
    assert_eq!(e.title.as_deref(), Some(":white_check_mark: Messages Deleted :white_check_mark:"));
    assert_eq!(
        e.description.as_deref(),
        Some("Messages 10 through 20 successfully deleted. An archive of the deleted messages has been attached for moderation purposes.")
    );
}

#[test]
fn selection_keeps_the_until_message_and_older() {
    let ids = vec![90, 70, 50, 30];
    assert_eq!(select_range(&ids, None).unwrap(), vec![90, 70, 50, 30]);
    assert_eq!(select_range(&ids, Some(70)).unwrap(), vec![70, 50, 30]);
    assert_eq!(select_range(&ids, Some(30)).unwrap(), vec![30]);
    match select_range(&ids, Some(60)) {
        Err(BotError::InvalidInput(s)) => assert_eq!(s, "until"),
        _ => panic!("expected InvalidInput"),
    }
}

#[test]
fn selection_is_the_interval_between_the_links() {
    let ids = vec![9, 8, 7, 6, 5];
    let kept = select_range(&ids, Some(7)).unwrap();
    for m in &ids {
        assert_eq!(kept.contains(m), *m >= 5 && *m <= 7);
    }
}

#[test]
fn paging_goes_on_after_a_full_page() {
    assert!(matches!(page_step(&vec![10, 30, 20], 3), PageStep::FetchAfter(30)));
    assert!(matches!(page_step(&vec![10, 30], 3), PageStep::Done));
    assert!(matches!(page_step(&vec![], 100), PageStep::Done));
    assert!(matches!(page_step(&vec![4, 2, 9, 1], 2), PageStep::FetchAfter(9)));
}

#[test]
fn pages_are_worked_through_newest_first() {
    let pages = vec![vec![8, 7, 6], vec![11, 10, 9], vec![12]];
    let ids = rewind_order(&pages, 5);
    assert_eq!(ids, vec![12, 11, 10, 9, 8, 7, 6, 5]);
    assert_eq!(select_range(&ids, Some(9)).unwrap(), vec![9, 8, 7, 6, 5]);
    assert_eq!(rewind_order(&vec![], 5), vec![5]);
}
