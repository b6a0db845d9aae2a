//! Compilation of the operation builders.

use database::operation::Insert;
use database::operation::Operation;
use database::statement::CreateTable;
use database::statement::Statement;
use database::Type;

#[test]
fn create_compile() {
    let operation = CreateTable::new()
        .name("foo")
        .if_not_exists()
        .column(|column| column.name("bar").kind(Type::Float))
        .column(|column| column.name("baz").kind(Type::String));

    assert_eq!(
        &operation.compile().unwrap(),
        "CREATE TABLE IF NOT EXISTS `foo` (`bar` REAL, `baz` TEXT)"
    );
}

#[test]
fn insert_compile() {
    let operation = Insert::new()
        .table("foo")
        .column("bar")
        .column("baz")
        .multiplex(3);

    assert_eq!(
        &operation.compile().unwrap(),
        "INSERT INTO `foo` (`bar`, `baz`) VALUES (?, ?), (?, ?), (?, ?)"
    );
}

#[test]
fn insert_compile_default_multiplex() {
    let operation = Insert::new().table("foo").column("bar");
    assert_eq!(
        &operation.compile().unwrap(),
        "INSERT INTO `foo` (`bar`) VALUES (?)"
    );
}
