use bits_core::commands::comment::{CommentCommand, CommentInput, CommentPayload, Error};
use bits_core::data::{Bid, Amount, Comment, Show, Text};
use bits_core::event::Event;
use bits_core::ids::{AuctionId, BidId, CommentId, ShowId, UserId};

fn is_v4(v: u128) -> bool {
    (v >> 76) & 0xf == 4 && (v >> 62) & 0x3 == 2
}

fn sample_show() -> Show {
    Show {
        id: ShowId::parse("f5e84179-7f8d-461b-a1d9-497974de10a6").unwrap(),
        creator_id: UserId::new(),
        name: Text::new("name"),
        started_at: None,
    }
}

#[test]
fn test_comment() {
    let state = CommentCommand { show: Some(sample_show()) };

    let input = CommentInput {
        user_id: UserId::parse("9ad4e977-8156-450e-ad00-944f9fc730ab").unwrap(),
        show_id: state.show.as_ref().unwrap().id,
        text: Text::new("text"),
    };

    let events = CommentCommand::handle(&state, input).unwrap();

    assert_eq!(events.len(), 1);
    assert_eq!(events[0].kind(), "comment_created");
    match &events[0] {
        Event::CommentCreated { payload } => {
            let c = &payload.comment;
            assert!(is_v4(c.id.0));
            assert_eq!(c.author_id, UserId::parse("9ad4e977-8156-450e-ad00-944f9fc730ab").unwrap());
            assert_eq!(c.show_id, ShowId::parse("f5e84179-7f8d-461b-a1d9-497974de10a6").unwrap());
            assert_eq!(c.text, Text::new("text"));
            assert_eq!(c.created, None);
            assert_eq!(c.updated, None);
        }
        _ => panic!("expected a comment_created event"),
    }
}

#[test]
fn comment_on_missing_show() {
    let show_id = ShowId::parse("f5e84179-7f8d-461b-a1d9-497974de10a6").unwrap();
    let input = CommentInput { user_id: UserId(1), show_id, text: Text::new("hello") };
    assert_eq!(CommentCommand::handle(&CommentCommand::new(None), input), Err(Error::ShowNotFound(show_id)));
    assert_eq!(CommentCommand::default().show, None);
}

#[test]
fn comment_with_given_id_round_trip() {
    let state = CommentCommand::new(Some(sample_show()));
    let input = CommentInput { user_id: UserId(9), show_id: ShowId(10), text: Text::new("nice") };
    let events = CommentCommand::handle_with_id(&state, CommentId(42), input).unwrap();
    let expected = Comment {
        id: CommentId(42),
        created: None,
        updated: None,
        author_id: UserId(9),
        show_id: ShowId(10),
        text: Text::new("nice"),
    };
    assert_eq!(events, vec![Event::comment_created(expected.clone())]);
    assert_eq!(CommentCommand::apply(events), Some(CommentPayload { comment: expected }));
}

#[test]
fn comment_apply_takes_last_event() {
    let c = Comment {
        id: CommentId(1),
        created: None,
        updated: None,
        author_id: UserId(2),
        show_id: ShowId(3),
        text: Text::new("a"),
    };
    let bid = Bid {
        id: BidId(1),
        created: None,
        updated: None,
        auction_id: AuctionId(2),
        bidder_id: UserId(3),
        concurrent_amount: None,
        amount: Amount(4),
    };
    assert_eq!(CommentCommand::apply(vec![Event::bid_created(bid), Event::comment_created(c.clone())]), Some(CommentPayload { comment: c.clone() }));
    assert_eq!(CommentCommand::apply(vec![Event::comment_created(c), Event::bid_created(bid)]), None);
    assert_eq!(CommentCommand::apply(Vec::new()), None);
}
