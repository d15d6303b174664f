use bits_core::data::Text;
use bits_core::entities::show::{Column, Entity, ForeignKeyAction, PersonColumn, RelatedEntity, Relation, RelationType, Table};
use bits_core::event::Event;
use bits_core::ids::{ShowId, UserId};

#[test]
fn ids_parse_uuids() {
    let id = UserId::parse("9ad4e977-8156-450e-ad00-944f9fc730ab").unwrap();
    assert_eq!(id.0, 0x9ad4e977_8156_450e_ad00_944f9fc730abu128);
    assert_eq!(ShowId::parse("not a uuid"), None);
    let fresh = ShowId::new();
    assert_eq!((fresh.0 >> 76) & 0xf, 4);
    assert_eq!((fresh.0 >> 62) & 0x3, 2);
}

#[test]
fn text_holds_its_string() {
    assert_eq!(Text::new("hello").0, "hello");
}

#[test]
fn event_kinds() {
    let e = Event::product_created(bits_core::ids::ProductId(1), UserId(2), "n".to_string());
    assert_eq!(e.kind(), "product_created");
}

#[test]
fn show_relations() {
    let person = Entity::to(RelatedEntity::Person);
    assert_eq!(person, Relation::Person.def());
    assert_eq!(person.rel_type, RelationType::BelongsTo);
    assert_eq!(person.from_table, Table::Show);
    assert_eq!(person.to_table, Table::Person);
    assert_eq!(person.from_column, Some(Column::CreatorId));
    assert_eq!(person.to_column, Some(PersonColumn::Id));
    assert_eq!(person.on_update, Some(ForeignKeyAction::NoAction));
    assert_eq!(person.on_delete, Some(ForeignKeyAction::NoAction));

    let auctions = Entity::to(RelatedEntity::Auction);
    assert_eq!(auctions.rel_type, RelationType::HasMany);
    assert_eq!(auctions.to_table, Table::Auction);
    assert_eq!(auctions.from_column, None);
    let comments = Entity::to(RelatedEntity::Comment);
    assert_eq!(comments.rel_type, RelationType::HasMany);
    assert_eq!(comments.to_table, Table::Comment);
    assert_eq!(Entity::table_name(), "show");
}
