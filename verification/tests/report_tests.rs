use sqlite::person::{listing, Person};
use sqlite::report::{
    created_line, deleted_line, downloaded_line, dropped_line, inserted_line, loaded_line,
    nothing_to_update_line, updated_line,
};

#[test]
fn reports_have_their_fixed_wording() {
    assert_eq!(created_line("table1"), "Table 'table1' created successfully.");
    assert_eq!(dropped_line("table1"), "Table 'table1' dropped successfully.");
    assert_eq!(
        inserted_line(11, "table1"),
        "Inserted person with ID '11' into the 'table1' table successfully!"
    );
    assert_eq!(
        updated_line(11, "table1"),
        "Record with ID '11' updated successfully in table 'table1'."
    );
    assert_eq!(nothing_to_update_line(11), "No fields to update for ID: 11");
    assert_eq!(
        deleted_line(11, "table1"),
        "Deleted person with ID '11' from the 'table1' table successfully!"
    );
    assert_eq!(
        loaded_line("data/customer_new.csv", "table1"),
        "Data loaded successfully from 'data/customer_new.csv' into table 'table1'."
    );
    assert_eq!(
        downloaded_line("data/customer_new.csv"),
        "File has been downloaded to data/customer_new.csv"
    );
}

#[test]
fn reports_write_negative_keys_with_their_sign() {
    assert_eq!(nothing_to_update_line(-5), "No fields to update for ID: -5");
    assert_eq!(
        deleted_line(i32::MIN, "t"),
        "Deleted person with ID '-2147483648' from the 't' table successfully!"
    );
}

#[test]
fn person_line_shows_all_four_fields() {
    let p = Person {
        id: 11,
        name: "Remi".to_string(),
        gender: "female".to_string(),
        city: "Los Angeles".to_string(),
    };
    assert_eq!(p.line(), "ID: 11, Name: Remi, Gender: female, City: Los Angeles");
}

#[test]
fn listing_has_one_line_for_each_person_in_order() {
    let people = vec![
        Person { id: 2, name: "B".to_string(), gender: "m".to_string(), city: "Y".to_string() },
        Person { id: 1, name: "A".to_string(), gender: "f".to_string(), city: "X".to_string() },
    ];
    assert_eq!(
        listing(&people),
        vec!["ID: 2, Name: B, Gender: m, City: Y", "ID: 1, Name: A, Gender: f, City: X"]
    );
    assert!(listing(&Vec::new()).is_empty());
}
