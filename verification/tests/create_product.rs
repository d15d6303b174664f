use async_graphql::dynamic::{Field, FieldFuture, InputValue, Object, Schema, TypeRef};
use bits_core::commands::create_product::{create_product_outcome, CreateProductCommand, CreateProductInput, CreateProductResult, Error};
use bits_core::data::Product;
use bits_core::event::{Event, ProductCreatedData};
use bits_core::ids::{ProductId, UserId};

fn is_v4(v: u128) -> bool {
    (v >> 76) & 0xf == 4 && (v >> 62) & 0x3 == 2
}

#[test]
fn test_create_product() {
    let input = CreateProductInput {
        creator_id: UserId::parse("abbba031-f122-42b8-b6ff-585ad245aadd").unwrap(),
        name: "name".parse().unwrap(),
    };

    let events = CreateProductCommand {}.handle(input).unwrap();

    assert_eq!(events.len(), 1);
    assert_eq!(events[0].kind(), "product_created");
    match &events[0] {
        Event::ProductCreated { data } => {
            assert!(is_v4(data.id.0));
            assert_eq!(data.creator_id, UserId::parse("abbba031-f122-42b8-b6ff-585ad245aadd").unwrap());
            assert_eq!(data.name, "name");
        }
        _ => panic!("expected a product_created event"),
    }
}

#[test]
fn create_product_with_recorded_id() {
    let input = CreateProductInput {
        creator_id: UserId::parse("abbba031-f122-42b8-b6ff-585ad245aadd").unwrap(),
        name: "name".to_string(),
    };
    let id = ProductId::parse("49a3c0eb-0bd6-4954-b464-7f75b2f18b44").unwrap();
    let events = CreateProductCommand {}.handle_with_id(id, input).unwrap();
    assert_eq!(
        events,
        vec![Event::ProductCreated {
            data: ProductCreatedData {
                id,
                creator_id: UserId::parse("abbba031-f122-42b8-b6ff-585ad245aadd").unwrap(),
                name: "name".to_string(),
            },
        }]
    );
}

#[test]
fn create_product_round_trip() {
    let input = CreateProductInput { creator_id: UserId(5), name: "lamp".to_string() };
    let events = CreateProductCommand {}.handle_with_id(ProductId(77), input).unwrap();
    let recorded: Result<Vec<Event>, ()> = Ok(events);
    assert_eq!(
        create_product_outcome(recorded),
        Ok(CreateProductResult {
            product: Product { id: ProductId(77), created: None, updated: None, creator_id: UserId(5), name: "lamp".to_string() },
        })
    );
}

#[test]
fn create_product_apply_and_outcome() {
    let a = Event::product_created(ProductId(1), UserId(2), "a".to_string());
    let b = Event::product_created(ProductId(3), UserId(4), "b".to_string());
    let r = CreateProductCommand::apply(vec![a, b]).unwrap();
    assert_eq!(r.product.id, ProductId(3));
    assert_eq!(r.product.name, "b");
    assert_eq!(CreateProductCommand::apply(Vec::new()), None);
    let failed: Result<Vec<Event>, &str> = Err("no");
    assert_eq!(create_product_outcome(failed), Err(Error::NotCreated));
    let empty: Result<Vec<Event>, ()> = Ok(Vec::new());
    assert_eq!(create_product_outcome(empty), Err(Error::NotCreated));
}

#[test]
fn create_product_graphql() {
    assert_eq!(CreateProductInput::graphql_name(), "CreateProductInput");
    assert_eq!(CreateProductResult::graphql_name(), "CreateProductResult");
    let input = CreateProductInput::to_input();
    let query = Object::new("Query").field(
        Field::new("value", TypeRef::named_nn(TypeRef::INT), |_| {
            FieldFuture::new(async { Ok(Some(async_graphql::Value::from(1))) })
        })
        .argument(InputValue::new("input", TypeRef::named_nn("CreateProductInput"))),
    );
    let schema = Schema::build("Query", None, None).register(input).register(query).finish().unwrap();
    assert!(schema.sdl().contains("input CreateProductInput {\n\tname: String!\n}\n"));
}

#[test]
fn createproductresult_object_declares_id() {
    let query = Object::new("Query").field(Field::new("result", TypeRef::named_nn("CreateProductResult"), |_| {
        FieldFuture::new(async { Ok(Some(async_graphql::Value::from("x"))) })
    }));
    let schema = Schema::build("Query", None, None)
        .register(CreateProductResult::to_object())
        .register(query)
        .finish()
        .unwrap();
    assert!(schema.sdl().contains("type CreateProductResult {\n\tid: ID!\n}\n"));
}
