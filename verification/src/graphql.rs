//! The GraphQL input and object types that the commands declare, built with
//! `async_graphql`'s dynamic schema API.

use vstd::prelude::*;
use async_graphql::dynamic::{Field, FieldFuture, InputObject, InputValue, Object, TypeRef};

verus! {

/// `async_graphql::dynamic::InputObject`, an input object type of a schema.
#[verifier::external_type_specification]
#[verifier::external_body]
pub struct ExInputObject(InputObject);

/// The name under which an input object type is declared.
pub uninterp spec fn input_object_name(o: InputObject) -> Seq<char>;

/// The fields of an input object type in the order they were added, each as
/// its name and its GraphQL type as written (such as `ID!`).
pub uninterp spec fn input_object_fields(o: InputObject) -> Seq<(Seq<char>, Seq<char>)>;

/// Whether an input object type has a field of the given name.
pub open spec fn has_field(fields: Seq<(Seq<char>, Seq<char>)>, name: Seq<char>) -> bool {
    exists|i: int| 0 <= i < fields.len() && #[trigger] fields[i].0 == name
}

/// Calls `InputObject::new`: an input object type of the given name with no
/// fields (the source sets the name and an empty field map).
#[verifier::external_body]
pub(crate) fn new_input_object(name: &str) -> (o: InputObject)
    ensures
        input_object_name(o) == name@,
        input_object_fields(o) == Seq::<(Seq<char>, Seq<char>)>::empty(),
{
    InputObject::new(name)
}

/// Calls `InputObject::field` with `InputValue::new(name, TypeRef::named_nn(scalar))`:
/// adds a non-null field of the given type at the end. The source panics on a
/// name that is already taken, which `requires` leaves out; `TypeRef::named_nn`
/// builds `NonNull(Named(scalar))`, written `scalar!`.
#[verifier::external_body]
pub(crate) fn add_non_null_field(o: InputObject, name: &str, scalar: &str) -> (r: InputObject)
    requires
        !has_field(input_object_fields(o), name@),
    ensures
        input_object_name(r) == input_object_name(o),
        input_object_fields(r) == input_object_fields(o).push((name@, scalar@.push('!'))),
{
    o.field(InputValue::new(name, TypeRef::named_nn(scalar)))
}

/// `async_graphql::dynamic::Object`, an object type of a schema.
#[verifier::external_type_specification]
#[verifier::external_body]
pub struct ExObject(Object);

/// The name under which an object type is declared.
pub uninterp spec fn object_name(o: Object) -> Seq<char>;

/// The fields of an object type in the order they were added, each as its
/// name and its GraphQL type as written (such as `ID!`).
pub uninterp spec fn object_fields(o: Object) -> Seq<(Seq<char>, Seq<char>)>;

/// Calls `Object::new`: an object type of the given name with no fields (the
/// source sets the name and an empty field map).
#[verifier::external_body]
pub(crate) fn new_object(name: &str) -> (o: Object)
    ensures
        object_name(o) == name@,
        object_fields(o) == Seq::<(Seq<char>, Seq<char>)>::empty(),
{
    Object::new(name)
}

/// Calls `Object::field` with `Field::new(name, TypeRef::named_nn(scalar), resolver)`,
/// where the resolver answers with the parent value
/// (`FieldFuture::from_value(ctx.parent_value.as_value().cloned())`): adds a
/// non-null field of the given type at the end. The source panics on a name
/// that is already taken, which `requires` leaves out. What the resolver
/// answers at query time is not stated.
#[verifier::external_body]
pub(crate) fn add_parent_value_field(o: Object, name: &str, scalar: &str) -> (r: Object)
    requires
        !has_field(object_fields(o), name@),
    ensures
        object_name(r) == object_name(o),
        object_fields(r) == object_fields(o).push((name@, scalar@.push('!'))),
{
    o.field(Field::new(name, TypeRef::named_nn(scalar), |ctx| {
        FieldFuture::from_value(ctx.parent_value.as_value().cloned())
    }))
}

/// `TypeRef::ID`, the name of the `ID` scalar.
#[verifier::external_body]
pub(crate) fn scalar_id() -> (name: &'static str)
    ensures
        name@ == "ID"@,
{
    TypeRef::ID
}

/// `TypeRef::INT`, the name of the `Int` scalar.
#[verifier::external_body]
pub(crate) fn scalar_int() -> (name: &'static str)
    ensures
        name@ == "Int"@,
{
    TypeRef::INT
}

/// `TypeRef::STRING`, the name of the `String` scalar.
#[verifier::external_body]
pub(crate) fn scalar_string() -> (name: &'static str)
    ensures
        name@ == "String"@,
{
    TypeRef::STRING
}

} // verus!
