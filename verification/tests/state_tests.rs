use builder::descriptor::{extract, RawDefinition, RawField, Shape, StructDescriptor};
use builder::state::{BuilderState, Instance, MissingFields};

#[derive(Clone, Debug, PartialEq)]
enum Value {
    Text(String),
    List(Vec<String>),
}

fn text(s: &str) -> Value {
    Value::Text(s.to_string())
}

fn list(items: &[&str]) -> Value {
    Value::List(items.iter().map(|s| s.to_string()).collect())
}

fn descriptor(name: &str, fields: &[(&str, &str)]) -> StructDescriptor {
    let raw = RawDefinition {
        name: name.to_string(),
        shape: Shape::Record,
        fields: fields
            .iter()
            .map(|(n, t)| RawField { name: Some(n.to_string()), declared_type: t.to_string() })
            .collect(),
    };
    extract(&raw).unwrap()
}

fn command() -> StructDescriptor {
    descriptor(
        "Command",
        &[
            ("executable", "String"),
            ("args", "Vec < String >"),
            ("env", "Vec < String >"),
            ("current_dir", "String"),
        ],
    )
}

fn missing(names: &[&str]) -> MissingFields {
    MissingFields { names: names.iter().map(|s| s.to_string()).collect() }
}

#[test]
fn command_with_every_field_builds() {
    let descriptor = command();
    let mut builder = BuilderState::new(&descriptor);
    assert!(builder.set("executable", text("ls")));
    assert!(builder.set("args", list(&[])));
    assert!(builder.set("env", list(&[])));
    assert!(builder.set("current_dir", text(".")));
    assert_eq!(
        builder.build(),
        Ok(Instance {
            name: "Command".to_string(),
            values: vec![text("ls"), list(&[]), list(&[]), text(".")],
        })
    );
}

#[test]
fn command_without_current_dir_names_it() {
    let descriptor = command();
    let mut builder = BuilderState::new(&descriptor);
    builder.set("executable", text("ls"));
    builder.set("args", list(&[]));
    builder.set("env", list(&[]));
    assert_eq!(builder.build(), Err(missing(&["current_dir"])));
}

#[test]
fn fresh_builder_has_every_slot_absent() {
    let descriptor = command();
    let builder: BuilderState<Value> = BuilderState::new(&descriptor);
    assert_eq!(builder.missing(), vec!["executable", "args", "env", "current_dir"]);
    assert_eq!(builder.build(), Err(missing(&["executable", "args", "env", "current_dir"])));
}

#[test]
fn record_without_fields_builds_at_once() {
    let descriptor = descriptor("Empty", &[]);
    let builder: BuilderState<Value> = BuilderState::new(&descriptor);
    assert!(builder.missing().is_empty());
    assert_eq!(builder.build(), Ok(Instance { name: "Empty".to_string(), values: vec![] }));
}

#[test]
fn any_order_of_setters_gives_the_same_record() {
    let descriptor = descriptor("Triple", &[("a", "u8"), ("b", "u8"), ("c", "u8")]);
    let names = ["a", "b", "c"];
    let values = [10u8, 20, 30];
    let orders = [[0, 1, 2], [0, 2, 1], [1, 0, 2], [1, 2, 0], [2, 0, 1], [2, 1, 0]];
    for order in orders {
        let mut builder = BuilderState::new(&descriptor);
        for index in order {
            assert!(builder.set(names[index], values[index]));
        }
        assert_eq!(
            builder.build(),
            Ok(Instance { name: "Triple".to_string(), values: vec![10, 20, 30] })
        );
    }
}

#[test]
fn every_omitted_set_is_named_exactly() {
    let descriptor = descriptor("Quad", &[("a", "u8"), ("b", "u8"), ("c", "u8"), ("d", "u8")]);
    let names = ["a", "b", "c", "d"];
    for mask in 0u32..16 {
        let mut builder = BuilderState::new(&descriptor);
        let mut omitted: Vec<String> = Vec::new();
        for (index, name) in names.iter().enumerate().rev() {
            if mask & (1 << index) != 0 {
                assert!(builder.set(name, index as u8));
            }
        }
        for (index, name) in names.iter().enumerate() {
            if mask & (1 << index) == 0 {
                omitted.push(name.to_string());
            }
        }
        assert_eq!(builder.missing(), omitted);
        if omitted.is_empty() {
            assert_eq!(
                builder.build(),
                Ok(Instance { name: "Quad".to_string(), values: vec![0, 1, 2, 3] })
            );
        } else {
            assert_eq!(builder.build(), Err(MissingFields { names: omitted }));
        }
    }
}

#[test]
fn omitting_one_setter_names_that_field() {
    let descriptor = descriptor("Triple", &[("a", "u8"), ("b", "u8"), ("c", "u8")]);
    for skipped in ["a", "b", "c"] {
        let mut builder = BuilderState::new(&descriptor);
        for name in ["c", "a", "b"] {
            if name != skipped {
                builder.set(name, 1u8);
            }
        }
        assert_eq!(builder.build(), Err(missing(&[skipped])));
    }
}

#[test]
fn setter_called_twice_keeps_the_latest_value() {
    let descriptor = descriptor("Point", &[("x", "i32"), ("y", "i32")]);
    let mut builder = BuilderState::new(&descriptor);
    builder.set("x", 1);
    builder.set("y", 2);
    builder.set("x", 3);
    assert_eq!(builder.build(), Ok(Instance { name: "Point".to_string(), values: vec![3, 2] }));
}

#[test]
fn setter_of_an_unknown_field_changes_nothing() {
    let descriptor = descriptor("Point", &[("x", "i32"), ("y", "i32")]);
    let mut builder = BuilderState::new(&descriptor);
    builder.set("x", 1);
    assert!(!builder.set("z", 9));
    assert!(!builder.set("", 9));
    assert!(!builder.set("X", 9));
    assert_eq!(builder.missing(), vec!["y"]);
    builder.set("y", 2);
    assert_eq!(builder.build(), Ok(Instance { name: "Point".to_string(), values: vec![1, 2] }));
}

#[test]
fn failed_build_can_be_retried_after_more_setters() {
    let descriptor = descriptor("Point", &[("x", "i32"), ("y", "i32")]);
    let mut builder = BuilderState::new(&descriptor);
    builder.set("y", 2);
    assert_eq!(builder.build(), Err(missing(&["x"])));
    assert_eq!(builder.build(), Err(missing(&["x"])));
    builder.set("x", 1);
    assert_eq!(builder.build(), Ok(Instance { name: "Point".to_string(), values: vec![1, 2] }));
}

#[test]
fn build_leaves_the_builder_as_it_was() {
    let descriptor = descriptor("Point", &[("x", "i32"), ("y", "i32")]);
    let mut builder = BuilderState::new(&descriptor);
    builder.set("x", 1);
    builder.set("y", 2);
    let first = builder.build();
    let second = builder.build();
    assert_eq!(first, second);
    builder.set("y", 5);
    assert_eq!(builder.build(), Ok(Instance { name: "Point".to_string(), values: vec![1, 5] }));
    assert_eq!(first, Ok(Instance { name: "Point".to_string(), values: vec![1, 2] }));
}

#[test]
fn builders_of_one_descriptor_are_independent() {
    let descriptor = descriptor("Point", &[("x", "i32"), ("y", "i32")]);
    let mut first = BuilderState::new(&descriptor);
    let mut second = BuilderState::new(&descriptor);
    first.set("x", 1);
    second.set("y", 2);
    assert_eq!(first.missing(), vec!["y"]);
    assert_eq!(second.missing(), vec!["x"]);
    assert_eq!(first.descriptor(), &descriptor);
}

#[test]
fn missing_fields_are_worded_by_name() {
    assert_eq!(missing(&["current_dir"]).message(), "missing fields: current_dir");
    assert_eq!(
        missing(&["executable", "args", "current_dir"]).message(),
        "missing fields: executable, args, current_dir"
    );
    assert_eq!(missing(&[]).message(), "missing fields: ");
}

#[test]
fn failure_of_build_words_what_is_missing() {
    let descriptor = command();
    let mut builder = BuilderState::new(&descriptor);
    builder.set("env", list(&["A=1"]));
    assert_eq!(
        builder.build().unwrap_err().message(),
        "missing fields: executable, args, current_dir"
    );
}
