//! Commenting on a show.

use vstd::prelude::*;
use crate::data::{Comment, Show, Text};
use crate::event::{event_type_name, events_view, CommentCreatedPayload, Event};
use crate::ids::{is_random_v4, CommentId, ShowId, UserId};

verus! {

/// A request by a user to comment on a show.
#[derive(Clone, Debug, PartialEq, Eq)]
pub struct CommentInput {
    pub user_id: UserId,
    pub show_id: ShowId,
    pub text: Text,
}

/// The result of commenting: the comment that was recorded.
#[derive(Clone, Debug, PartialEq, Eq)]
pub struct CommentPayload {
    pub comment: Comment,
}

/// Why a comment failed.
#[derive(Clone, Copy, Debug, PartialEq, Eq, Structural)]
pub enum Error {
    ShowNotFound(ShowId),
}

/// The state a comment is decided on: the show commented on, if it was found.
#[derive(Clone, Debug, PartialEq, Eq)]
pub struct CommentCommand {
    pub show: Option<Show>,
}

/// The comment that `input` makes, under the identifier `id`.
pub open spec fn comment_for(id: CommentId, input: CommentInput) -> Comment {
    Comment {
        id,
        created: None,
        updated: None,
        author_id: input.user_id,
        show_id: input.show_id,
        text: input.text,
    }
}

/// The events that handling a comment gives, where the new comment gets the
/// identifier `id`: its creation, or `ShowNotFound` where the show is missing.
pub open spec fn handled(state: CommentCommand, id: CommentId, input: CommentInput) -> Result<Seq<Event>, Error> {
    match state.show {
        Some(_) => Ok(seq![Event::CommentCreated { payload: CommentCreatedPayload { comment: comment_for(id, input) } }]),
        None => Err(Error::ShowNotFound(input.show_id)),
    }
}

/// The result that a single event stands for.
pub open spec fn result_of_event(e: Event) -> Option<CommentPayload> {
    match e {
        Event::CommentCreated { payload } => Some(CommentPayload { comment: payload.comment }),
        _ => None,
    }
}

/// The result that recorded events stand for: the events folded from the
/// first, each step replacing what came before by what the event stands for.
pub open spec fn applied(events: Seq<Event>) -> Option<CommentPayload> {
    events.fold_left(None, |acc: Option<CommentPayload>, e: Event| result_of_event(e))
}

impl Default for CommentCommand {
    fn default() -> (cmd: Self)
        ensures
            cmd.show is None,
    {
        CommentCommand { show: None }
    }
}

impl CommentCommand {
    /// The state of a comment on `show`.
    pub fn new(show: Option<Show>) -> (cmd: Self)
        ensures
            cmd.show == show,
    {
        CommentCommand { show }
    }

    /// The events that a comment causes, where the new comment gets the
    /// identifier `id`.
    pub fn handle_with_id(state: &CommentCommand, id: CommentId, input: CommentInput) -> (r: Result<Vec<Event>, Error>)
        ensures
            events_view(r) == handled(*state, id, input),
    {
        match &state.show {
            None => Err(Error::ShowNotFound(input.show_id)),
            Some(_) => {
                let ghost expected = comment_for(id, input);
                let comment = Comment {
                    id,
                    created: None,
                    updated: None,
                    author_id: input.user_id,
                    show_id: input.show_id,
                    text: input.text,
                };
                assert(comment == expected);
                let mut events: Vec<Event> = Vec::new();
                events.push(Event::comment_created(comment));
                assert(events@ =~= seq![Event::CommentCreated { payload: CommentCreatedPayload { comment: expected } }]);
                Ok(events)
            },
        }
    }

    /// The events that a comment causes: the creation of the comment, under
    /// a fresh identifier; `ShowNotFound` where the show is missing.
    pub fn handle(state: &CommentCommand, input: CommentInput) -> (r: Result<Vec<Event>, Error>)
        ensures
            exists|id: CommentId| is_random_v4(id.0) && events_view(r) == #[trigger] handled(*state, id, input),
    {
        match &state.show {
            None => {
                assert(is_random_v4(0x4000_8000_0000_0000_0000u128)) by (bit_vector);
                let ghost any = CommentId(0x4000_8000_0000_0000_0000u128);
                let r = Err(Error::ShowNotFound(input.show_id));
                assert(events_view(r) == handled(*state, any, input));
                r
            },
            Some(_) => {
                let id = CommentId::new();
                let r = Self::handle_with_id(state, id, input);
                assert(events_view(r) == handled(*state, id, input));
                r
            },
        }
    }

    /// The result that the recorded events stand for: that of the last event,
    /// `None` where there is none or it is no comment's creation.
    pub fn apply(events: Vec<Event>) -> (r: Option<CommentPayload>)
        ensures
            r == applied(events@),
    {
        let ghost all = events@;
        let mut events = events;
        match events.pop() {
            Some(Event::CommentCreated { payload }) => {
                assert(all.drop_last() =~= events@);
                Some(CommentPayload { comment: payload.comment })
            },
            _ => None,
        }
    }
}

/// The result of recorded events rests on the last event alone: none for no
/// events, and otherwise what the last one stands for, whatever came before.
pub proof fn lemma_last_event_decides(events: Seq<Event>, last: Event)
    ensures
        applied(Seq::<Event>::empty()) is None,
        applied(events.push(last)) == match last {
            Event::CommentCreated { payload } => Some(CommentPayload { comment: payload.comment }),
            _ => None,
        },
{
    assert(events.push(last).drop_last() =~= events);
}

/// A comment on a show that was found, once its events are recorded as they
/// were emitted, gives back the comment that the request made.
pub proof fn lemma_comment_round_trip(state: CommentCommand, id: CommentId, input: CommentInput)
    requires
        state.show is Some,
    ensures
        handled(state, id, input) is Ok,
        applied(handled(state, id, input)->Ok_0) == Some(CommentPayload { comment: comment_for(id, input) }),
{
    let e = Event::CommentCreated { payload: CommentCreatedPayload { comment: comment_for(id, input) } };
    lemma_last_event_decides(Seq::<Event>::empty(), e);
    assert(Seq::<Event>::empty().push(e) =~= handled(state, id, input)->Ok_0);
}

/// A comment on a found show emits exactly one event, the creation of a
/// comment by the requesting user on the requested show with the request's
/// text and no timestamps yet; on a missing show it fails with
/// `ShowNotFound` of the requested show.
pub proof fn lemma_handle_creates_comment(state: CommentCommand, id: CommentId, input: CommentInput)
    ensures
        handled(state, id, input) is Err <==> state.show is None,
        handled(state, id, input) is Err ==> handled(state, id, input) == Err::<Seq<Event>, Error>(Error::ShowNotFound(input.show_id)),
        handled(state, id, input) matches Ok(events) ==> {
            &&& events.len() == 1
            &&& events[0] matches Event::CommentCreated { payload } && {
                &&& payload.comment.id == id
                &&& payload.comment.author_id == input.user_id
                &&& payload.comment.show_id == input.show_id
                &&& payload.comment.text == input.text
                &&& payload.comment.created is None
                &&& payload.comment.updated is None
            }
            &&& event_type_name(events[0]) == "comment_created"@
        },
{
}

} // verus!
