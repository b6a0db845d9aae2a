//! Compilation through the query trait.

use database::query::CreateTable;
use database::query::Insert;
use database::query::Query;
use database::query::Select;
use database::Type;

#[test]
fn query_create_compile() {
    let query = CreateTable::new()
        .name("foo")
        .if_not_exists()
        .column(|column| column.name("bar").kind(Type::Float))
        .column(|column| column.name("baz").kind(Type::String));

    assert_eq!(
        &Query::compile(query).unwrap(),
        "CREATE TABLE IF NOT EXISTS `foo` (`bar` REAL, `baz` TEXT)"
    );
}

#[test]
fn query_insert_compile() {
    let query = Insert::new()
        .table("foo")
        .column("bar")
        .column("baz")
        .multiplex(3);

    assert_eq!(
        &Query::compile(query).unwrap(),
        "INSERT INTO `foo` (`bar`, `baz`) VALUES (?, ?), (?, ?), (?, ?)"
    );
}

#[test]
fn query_select_compile_all() {
    let query = Select::new().table("foo");
    assert_eq!(&Query::compile(query).unwrap(), "SELECT * FROM `foo`");
}

#[test]
fn query_select_compile_subset() {
    let query = Select::new().table("foo").column("bar").column("baz");
    assert_eq!(
        &Query::compile(query).unwrap(),
        "SELECT `bar`, `baz` FROM `foo`"
    );
}
