use builder::fragment::{BuildMethod, BuilderType, Factory, GeneratedFragment, Setter, Slot};

fn strings(items: &[&str]) -> Vec<String> {
    items.iter().map(|s| s.to_string()).collect()
}

fn lines(items: &[&str]) -> String {
    let mut text = String::new();
    for item in items {
        text.push_str(item);
        text.push('\n');
    }
    text
}

#[test]
fn slot_is_an_optional_field() {
    let slot = Slot { name: "args".to_string(), held_type: "Vec < String >".to_string() };
    assert_eq!(slot.render(), "    args: Option<Vec < String >>,\n");
}

#[test]
fn builder_type_lists_its_slots() {
    let builder = BuilderType {
        name: "PointBuilder".to_string(),
        slots: vec![
            Slot { name: "x".to_string(), held_type: "i32".to_string() },
            Slot { name: "y".to_string(), held_type: "i64".to_string() },
        ],
    };
    assert_eq!(
        builder.render(),
        lines(&["pub struct PointBuilder {", "    x: Option<i32>,", "    y: Option<i64>,", "}"])
    );
}

#[test]
fn builder_type_without_slots() {
    let builder = BuilderType { name: "EmptyBuilder".to_string(), slots: vec![] };
    assert_eq!(builder.render(), "pub struct EmptyBuilder {\n}\n");
}

#[test]
fn setter_stores_and_returns_the_builder() {
    let setter = Setter { field: "depth".to_string(), value_type: "usize".to_string() };
    assert_eq!(
        setter.render(),
        lines(&[
            "    pub fn depth(&mut self, depth: usize) -> &mut Self {",
            "        self.depth = Some(depth);",
            "        self",
            "    }",
            "",
        ])
    );
}

#[test]
fn build_method_checks_then_assembles() {
    let build = BuildMethod { target: "Point".to_string(), fields: strings(&["x", "y"]) };
    assert_eq!(
        build.render(),
        lines(&[
            "    pub fn build(&self) -> Result<Point, Box<dyn std::error::Error>> {",
            "        #[allow(unused_mut)]",
            "        let mut missing: Vec<&str> = Vec::new();",
            "        if self.x.is_none() {",
            "            missing.push(\"x\");",
            "        }",
            "        if self.y.is_none() {",
            "            missing.push(\"y\");",
            "        }",
            "        if !missing.is_empty() {",
            "            return Err(format!(\"missing fields: {}\", missing.join(\", \")).into());",
            "        }",
            "        Ok(Point {",
            "            x: self.x.clone().unwrap(),",
            "            y: self.y.clone().unwrap(),",
            "        })",
            "    }",
        ])
    );
}

#[test]
fn build_method_without_fields() {
    let build = BuildMethod { target: "Empty".to_string(), fields: vec![] };
    assert_eq!(
        build.render(),
        lines(&[
            "    pub fn build(&self) -> Result<Empty, Box<dyn std::error::Error>> {",
            "        #[allow(unused_mut)]",
            "        let mut missing: Vec<&str> = Vec::new();",
            "        if !missing.is_empty() {",
            "            return Err(format!(\"missing fields: {}\", missing.join(\", \")).into());",
            "        }",
            "        Ok(Empty {",
            "        })",
            "    }",
        ])
    );
}

#[test]
fn factory_leaves_every_slot_absent() {
    let factory = Factory {
        target: "Point".to_string(),
        builder: "PointBuilder".to_string(),
        absent: strings(&["x", "y"]),
    };
    assert_eq!(
        factory.render(),
        lines(&[
            "impl Point {",
            "    pub fn builder() -> PointBuilder {",
            "        PointBuilder {",
            "            x: None,",
            "            y: None,",
            "        }",
            "    }",
            "}",
        ])
    );
}

#[test]
fn fragment_joins_the_four_pieces() {
    let fragment = GeneratedFragment {
        builder_type: BuilderType {
            name: "UnitBuilder".to_string(),
            slots: vec![Slot { name: "n".to_string(), held_type: "u8".to_string() }],
        },
        setters: vec![Setter { field: "n".to_string(), value_type: "u8".to_string() }],
        build: BuildMethod { target: "Unit".to_string(), fields: strings(&["n"]) },
        factory: Factory {
            target: "Unit".to_string(),
            builder: "UnitBuilder".to_string(),
            absent: strings(&["n"]),
        },
    };
    let mut expected = fragment.builder_type.render();
    expected.push_str("\nimpl UnitBuilder {\n");
    expected.push_str(&fragment.setters[0].render());
    expected.push_str(&fragment.build.render());
    expected.push_str("}\n\n");
    expected.push_str(&fragment.factory.render());
    assert_eq!(fragment.render(), expected);
}
