//! Compilation of the statement builders.

use database::language::definition::Definition;
use database::language::description::Description;
use database::statement::InsertInto;
use database::statement::Statement;
use database::Type;

#[test]
fn insert_into_compile() {
    let statement = InsertInto::new()
        .table("foo")
        .column("bar")
        .column("baz")
        .multiplex(3);

    assert_eq!(
        &statement.compile().unwrap(),
        "INSERT INTO `foo` (`bar`, `baz`) VALUES (?, ?), (?, ?), (?, ?)"
    );
}

#[test]
fn insert_into_compile_multiplex_two_by_three() {
    let statement = InsertInto::new()
        .table("t")
        .column("a")
        .column("b")
        .multiplex(3);
    let text = statement.compile().unwrap();
    assert_eq!(text.matches('?').count(), 6);
    assert_eq!(text.matches("(?, ?)").count(), 3);
    assert_eq!(&text, "INSERT INTO `t` (`a`, `b`) VALUES (?, ?), (?, ?), (?, ?)");
}

#[test]
fn insert_into_compile_default_multiplex() {
    let statement = InsertInto::new().table("foo").column("bar").column("baz");
    assert_eq!(
        &statement.compile().unwrap(),
        "INSERT INTO `foo` (`bar`, `baz`) VALUES (?, ?)"
    );
}

#[test]
fn description_column_compile() {
    let description = database::language::column().name("bar").kind(Type::Integer);
    assert_eq!(&Description::compile(description).unwrap(), "`bar` INTEGER");
}

#[test]
fn definition_column_compile_twice() {
    let definition = database::language::column().name("bar").kind(Type::Binary);
    let first = Definition::compile(&definition).unwrap();
    let second = Definition::compile(&definition).unwrap();
    assert_eq!(first, "`bar` BLOB");
    assert_eq!(first, second);
}
