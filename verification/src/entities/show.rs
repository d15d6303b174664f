//! A row of the `show` table and the relations of shows to other tables.

use vstd::prelude::*;
use crate::data::DateTime;
use crate::ids::{ShowId, UserId};

verus! {

/// A row of the `show` table.
#[derive(Clone, Debug, PartialEq, Eq)]
pub struct Model {
    pub id: ShowId,
    pub created: DateTime,
    pub updated: Option<DateTime>,
    pub creator_id: UserId,
    pub name: String,
    pub started: Option<DateTime>,
}

/// The relations of the `show` table: a show has many auctions and many
/// comments, and belongs to the person who created it (`creator_id`).
#[derive(Clone, Copy, Debug, PartialEq, Eq, Structural)]
pub enum Relation {
    Auction,
    Comment,
    Person,
}

/// The tables that shows relate to.
#[derive(Clone, Copy, Debug, PartialEq, Eq, Structural)]
pub enum RelatedEntity {
    Auction,
    Comment,
    Person,
}

/// The tables of the database that the `show` table's relations name.
#[derive(Clone, Copy, Debug, PartialEq, Eq, Structural)]
pub enum Table {
    Show,
    Auction,
    Comment,
    Person,
}

/// The columns of the `show` table.
#[derive(Clone, Copy, Debug, PartialEq, Eq, Structural)]
pub enum Column {
    Id,
    Created,
    Updated,
    CreatorId,
    Name,
    Started,
}

/// The columns of the `person` table that the `show` table refers to.
#[derive(Clone, Copy, Debug, PartialEq, Eq, Structural)]
pub enum PersonColumn {
    Id,
}

/// How one table relates to another.
#[derive(Clone, Copy, Debug, PartialEq, Eq, Structural)]
pub enum RelationType {
    HasMany,
    BelongsTo,
}

/// What the database does to referring rows when the referred row changes.
#[derive(Clone, Copy, Debug, PartialEq, Eq, Structural)]
pub enum ForeignKeyAction {
    Cascade,
    Restrict,
    SetNull,
    SetDefault,
    NoAction,
}

/// The definition of a relation of the `show` table. A `has_many` relation's
/// key columns are declared by the other table's side, so this side names
/// none of them; a `belongs_to` relation names the foreign key of `show`, the
/// column it refers to, and the actions on update and on delete.
#[derive(Clone, Copy, Debug, PartialEq, Eq, Structural)]
pub struct RelationDef {
    pub rel_type: RelationType,
    pub from_table: Table,
    pub to_table: Table,
    pub from_column: Option<Column>,
    pub to_column: Option<PersonColumn>,
    pub on_update: Option<ForeignKeyAction>,
    pub on_delete: Option<ForeignKeyAction>,
}

/// The `show` table.
#[derive(Clone, Copy, Debug, PartialEq, Eq, Structural)]
pub struct Entity;

/// The definition of each relation: a show has many auctions and many
/// comments, and belongs to a person through `creator_id`, which refers to
/// the person's `id`, with no action on update or on delete.
pub open spec fn relation_def(r: Relation) -> RelationDef {
    match r {
        Relation::Auction => RelationDef {
            rel_type: RelationType::HasMany,
            from_table: Table::Show,
            to_table: Table::Auction,
            from_column: None,
            to_column: None,
            on_update: None,
            on_delete: None,
        },
        Relation::Comment => RelationDef {
            rel_type: RelationType::HasMany,
            from_table: Table::Show,
            to_table: Table::Comment,
            from_column: None,
            to_column: None,
            on_update: None,
            on_delete: None,
        },
        Relation::Person => RelationDef {
            rel_type: RelationType::BelongsTo,
            from_table: Table::Show,
            to_table: Table::Person,
            from_column: Some(Column::CreatorId),
            to_column: Some(PersonColumn::Id),
            on_update: Some(ForeignKeyAction::NoAction),
            on_delete: Some(ForeignKeyAction::NoAction),
        },
    }
}

/// The relation through which shows reach a related table.
pub open spec fn relation_to(target: RelatedEntity) -> Relation {
    match target {
        RelatedEntity::Auction => Relation::Auction,
        RelatedEntity::Comment => Relation::Comment,
        RelatedEntity::Person => Relation::Person,
    }
}

impl Relation {
    /// The relation's definition.
    pub fn def(self) -> (d: RelationDef)
        ensures
            d == relation_def(self),
    {
        match self {
            Relation::Auction => RelationDef {
                rel_type: RelationType::HasMany,
                from_table: Table::Show,
                to_table: Table::Auction,
                from_column: None,
                to_column: None,
                on_update: None,
                on_delete: None,
            },
            Relation::Comment => RelationDef {
                rel_type: RelationType::HasMany,
                from_table: Table::Show,
                to_table: Table::Comment,
                from_column: None,
                to_column: None,
                on_update: None,
                on_delete: None,
            },
            Relation::Person => RelationDef {
                rel_type: RelationType::BelongsTo,
                from_table: Table::Show,
                to_table: Table::Person,
                from_column: Some(Column::CreatorId),
                to_column: Some(PersonColumn::Id),
                on_update: Some(ForeignKeyAction::NoAction),
                on_delete: Some(ForeignKeyAction::NoAction),
            },
        }
    }
}

impl Entity {
    /// The name of the table.
    pub fn table_name() -> (name: &'static str)
        ensures
            name@ == "show"@,
    {
        "show"
    }

    /// The definition of the relation through which shows reach `target`.
    pub fn to(target: RelatedEntity) -> (d: RelationDef)
        ensures
            d == relation_def(relation_to(target)),
    {
        let r = match target {
            RelatedEntity::Auction => Relation::Auction,
            RelatedEntity::Comment => Relation::Comment,
            RelatedEntity::Person => Relation::Person,
        };
        r.def()
    }
}

/// The relations of the `show` table: every relation starts at `show` and
/// reaches the table it is named after; a `has_many` relation (to auctions
/// and to comments) names no column of either table and no action, its keys
/// being held on the other side; the only `belongs_to` relation is the one to
/// the person, and it alone names a column of `show`: `creator_id`, referring
/// to the person's `id`, with no action on update or on delete.
pub proof fn lemma_relation_definitions(r: Relation)
    ensures
        relation_def(r).from_table == Table::Show,
        relation_def(r).to_table == match r {
            Relation::Auction => Table::Auction,
            Relation::Comment => Table::Comment,
            Relation::Person => Table::Person,
        },
        relation_def(r).rel_type == RelationType::HasMany <==> r != Relation::Person,
        relation_def(r).rel_type == RelationType::HasMany ==> {
            &&& relation_def(r).from_column is None
            &&& relation_def(r).to_column is None
            &&& relation_def(r).on_update is None
            &&& relation_def(r).on_delete is None
        },
        relation_def(r).from_column is Some ==> r == Relation::Person,
        r == Relation::Person ==> {
            &&& relation_def(r).rel_type == RelationType::BelongsTo
            &&& relation_def(r).from_column == Some(Column::CreatorId)
            &&& relation_def(r).to_column == Some(PersonColumn::Id)
            &&& relation_def(r).on_update == Some(ForeignKeyAction::NoAction)
            &&& relation_def(r).on_delete == Some(ForeignKeyAction::NoAction)
        },
{
}

} // verus!
