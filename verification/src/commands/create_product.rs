//! Putting a product up for sale.

use vstd::prelude::*;
use async_graphql::dynamic::{InputObject, Object};
use crate::data::Product;
use crate::event::{event_type_name, events_view, Event, ProductCreatedData};
use crate::graphql::{
    add_non_null_field, add_parent_value_field, input_object_fields, input_object_name, new_input_object,
    new_object, object_fields, object_name, scalar_id, scalar_string,
};
use crate::ids::{is_random_v4, ProductId, UserId};

verus! {

/// A request by a user to create a product of the given name.
#[derive(Clone, Debug, PartialEq, Eq)]
pub struct CreateProductInput {
    pub creator_id: UserId,
    pub name: String,
}

impl CreateProductInput {
    /// The name of the GraphQL input type.
    pub fn graphql_name() -> (name: &'static str)
        ensures
            name@ == "CreateProductInput"@,
    {
        "CreateProductInput"
    }

    /// The GraphQL input type: `name: String!`.
    pub fn to_input() -> (o: InputObject)
        ensures
            input_object_name(o) == "CreateProductInput"@,
            input_object_fields(o) == seq![("name"@, "String!"@)],
    {
        proof {
            reveal_strlit("String");
            reveal_strlit("String!");
        }
        let o = new_input_object(Self::graphql_name());
        let o = add_non_null_field(o, "name", scalar_string());
        assert("String"@.push('!') =~= "String!"@);
        o
    }
}

/// The result of creating a product: the product that was recorded.
#[derive(Clone, Debug, PartialEq, Eq)]
pub struct CreateProductResult {
    pub product: Product,
}

impl CreateProductResult {
    /// The name of the GraphQL object type.
    pub fn graphql_name() -> (name: &'static str)
        ensures
            name@ == "CreateProductResult"@,
    {
        "CreateProductResult"
    }

    /// The GraphQL object type: one field, `id: ID!`, that resolves to the
    /// result itself.
    pub fn to_object() -> (o: Object)
        ensures
            object_name(o) == "CreateProductResult"@,
            object_fields(o) == seq![("id"@, "ID!"@)],
    {
        proof {
            reveal_strlit("ID");
            reveal_strlit("ID!");
        }
        let o = new_object(Self::graphql_name());
        let o = add_parent_value_field(o, "id", scalar_id());
        assert("ID"@.push('!') =~= "ID!"@);
        o
    }
}

/// Why creating a product failed.
#[derive(Clone, Copy, Debug, PartialEq, Eq, Structural)]
pub enum Error {
    NotCreated,
}

/// The command that creates products; it needs no state.
#[derive(Clone, Copy, Debug, PartialEq, Eq, Structural)]
pub struct CreateProductCommand {}

/// The events that creating a product gives, where the product gets the
/// identifier `id`: its creation.
pub open spec fn handled(id: ProductId, input: CreateProductInput) -> Seq<Event> {
    seq![Event::ProductCreated { data: ProductCreatedData { id, creator_id: input.creator_id, name: input.name } }]
}

/// The result that a single event stands for.
pub open spec fn result_of_event(e: Event) -> Option<CreateProductResult> {
    match e {
        Event::ProductCreated { data } => Some(CreateProductResult {
            product: Product {
                id: data.id,
                created: None,
                updated: None,
                creator_id: data.creator_id,
                name: data.name,
            },
        }),
        _ => None,
    }
}

/// The result that recorded events stand for: the events folded from the
/// first, each step replacing what came before by what the event stands for.
pub open spec fn applied(events: Seq<Event>) -> Option<CreateProductResult> {
    events.fold_left(None, |acc: Option<CreateProductResult>, e: Event| result_of_event(e))
}

/// What a request to create a product answers, given what dispatching its
/// events gave.
pub open spec fn outcome<E>(dispatched: Result<Seq<Event>, E>) -> Result<CreateProductResult, Error> {
    match dispatched {
        Err(_) => Err(Error::NotCreated),
        Ok(events) => match applied(events) {
            Some(r) => Ok(r),
            None => Err(Error::NotCreated),
        },
    }
}

impl CreateProductCommand {
    /// The events that creating a product causes, where the product gets the
    /// identifier `id`.
    pub fn handle_with_id(&self, id: ProductId, input: CreateProductInput) -> (r: Result<Vec<Event>, Error>)
        ensures
            events_view(r) == Ok::<Seq<Event>, Error>(handled(id, input)),
    {
        let ghost expected = handled(id, input);
        let mut events: Vec<Event> = Vec::new();
        events.push(Event::product_created(id, input.creator_id, input.name));
        assert(events@ =~= expected);
        Ok(events)
    }

    /// The events that creating a product causes: its creation, under a
    /// fresh identifier. It never fails.
    pub fn handle(&self, input: CreateProductInput) -> (r: Result<Vec<Event>, Error>)
        ensures
            exists|id: ProductId| is_random_v4(id.0) && events_view(r) == Ok::<Seq<Event>, Error>(#[trigger] handled(id, input)),
    {
        let id = ProductId::new();
        self.handle_with_id(id, input)
    }

    /// The result that the recorded events stand for: that of the last event,
    /// `None` where there is none or it is no product's creation.
    pub fn apply(events: Vec<Event>) -> (r: Option<CreateProductResult>)
        ensures
            r == applied(events@),
    {
        let ghost all = events@;
        let mut events = events;
        match events.pop() {
            Some(Event::ProductCreated { data }) => {
                assert(all.drop_last() =~= events@);
                Some(CreateProductResult {
                    product: Product {
                        id: data.id,
                        created: None,
                        updated: None,
                        creator_id: data.creator_id,
                        name: data.name,
                    },
                })
            },
            _ => None,
        }
    }
}

/// What a request to create a product answers once its events were
/// dispatched: the product that the recorded events stand for; `NotCreated`
/// where dispatching failed or the events stand for no product.
pub fn create_product_outcome<E>(dispatched: Result<Vec<Event>, E>) -> (r: Result<CreateProductResult, Error>)
    ensures
        r == outcome(events_view(dispatched)),
{
    match dispatched {
        Err(_) => Err(Error::NotCreated),
        Ok(events) => match CreateProductCommand::apply(events) {
            Some(result) => Ok(result),
            None => Err(Error::NotCreated),
        },
    }
}

/// The result of recorded events rests on the last event alone: none for no
/// events, and otherwise what the last one stands for, whatever came before.
pub proof fn lemma_last_event_decides(events: Seq<Event>, last: Event)
    ensures
        applied(Seq::<Event>::empty()) is None,
        applied(events.push(last)) == match last {
            Event::ProductCreated { data } => Some(CreateProductResult {
                product: Product { id: data.id, created: None, updated: None, creator_id: data.creator_id, name: data.name },
            }),
            _ => None,
        },
{
    assert(events.push(last).drop_last() =~= events);
}

/// Creating a product, once its events are recorded as they were emitted,
/// answers with the product of the request's creator and name, under the
/// identifier it was given and with no timestamps yet.
pub proof fn lemma_create_product_round_trip<E>(id: ProductId, input: CreateProductInput)
    ensures
        outcome::<E>(Ok(handled(id, input))) == Ok::<CreateProductResult, Error>(CreateProductResult {
            product: Product { id, created: None, updated: None, creator_id: input.creator_id, name: input.name },
        }),
{
    let e = Event::ProductCreated { data: ProductCreatedData { id, creator_id: input.creator_id, name: input.name } };
    lemma_last_event_decides(Seq::<Event>::empty(), e);
    assert(Seq::<Event>::empty().push(e) =~= handled(id, input));
}

/// Creating a product emits exactly one event, the creation of a product
/// under the given identifier by the requesting user with the requested name.
pub proof fn lemma_handle_creates_product(id: ProductId, input: CreateProductInput)
    ensures
        handled(id, input).len() == 1,
        handled(id, input)[0] matches Event::ProductCreated { data } && {
            &&& data.id == id
            &&& data.creator_id == input.creator_id
            &&& data.name == input.name
        },
        event_type_name(handled(id, input)[0]) == "product_created"@,
{
}

/// What a request to create a product answers for each dispatcher response:
/// `NotCreated` for a failed dispatch or an empty record; otherwise the
/// product of the last recorded event when it is a product's creation, with
/// no timestamps yet, and `NotCreated` when it is not, whatever events came
/// before it.
pub proof fn lemma_outcome_of_dispatch<E>(failure: E, events: Seq<Event>, last: Event)
    ensures
        outcome::<E>(Err(failure)) == Err::<CreateProductResult, Error>(Error::NotCreated),
        outcome::<E>(Ok(Seq::<Event>::empty())) == Err::<CreateProductResult, Error>(Error::NotCreated),
        outcome::<E>(Ok(events.push(last))) == match last {
            Event::ProductCreated { data } => Ok::<CreateProductResult, Error>(CreateProductResult {
                product: Product { id: data.id, created: None, updated: None, creator_id: data.creator_id, name: data.name },
            }),
            _ => Err(Error::NotCreated),
        },
{
    lemma_last_event_decides(events, last);
}

} // verus!
