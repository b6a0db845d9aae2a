//! The prelude exposes everything a client needs.

use database::prelude::create_table;
use database::prelude::insert_into;
use database::prelude::select;
use database::prelude::Statement;
use database::prelude::Type;

#[test]
fn prelude_compiles_statements() {
    let statement = create_table()
        .name("t")
        .column(|column| column.name("a").kind(Type::Integer));
    assert_eq!(&statement.compile().unwrap(), "CREATE TABLE `t` (`a` INTEGER)");

    let statement = insert_into().table("t").column("a");
    assert_eq!(
        &statement.compile().unwrap(),
        "INSERT INTO `t` (`a`) VALUES (?)"
    );

    let statement = select().table("t").column("a").limit(1);
    assert_eq!(
        &statement.compile().unwrap(),
        "SELECT `a` FROM `t` LIMIT 1"
    );
}
