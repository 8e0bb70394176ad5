// The source that is generated for `Command` and for `Empty`, compiled here
// as it is written out, and run.



#[derive(Debug, PartialEq)]
pub struct Command {
    executable: String,
    args: Vec<String>,
    env: Vec<String>,
    current_dir: String,
}

pub struct CommandBuilder {
    executable: Option<String>,
    args: Option<Vec < String >>,
    env: Option<Vec < String >>,
    current_dir: Option<String>,
}

impl CommandBuilder {
    pub fn executable(&mut self, executable: String) -> &mut Self {
        self.executable = Some(executable);
        self
    }

    pub fn args(&mut self, args: Vec < String >) -> &mut Self {
        self.args = Some(args);
        self
    }

    pub fn env(&mut self, env: Vec < String >) -> &mut Self {
        self.env = Some(env);
        self
    }

    pub fn current_dir(&mut self, current_dir: String) -> &mut Self {
        self.current_dir = Some(current_dir);
        self
    }

    pub fn build(&self) -> Result<Command, Box<dyn std::error::Error>> {
        #[allow(unused_mut)]
        let mut missing: Vec<&str> = Vec::new();
        if self.executable.is_none() {
            missing.push("executable");
        }
        if self.args.is_none() {
            missing.push("args");
        }
        if self.env.is_none() {
            missing.push("env");
        }
        if self.current_dir.is_none() {
            missing.push("current_dir");
        }
        if !missing.is_empty() {
            return Err(format!("missing fields: {}", missing.join(", ")).into());
        }
        Ok(Command {
            executable: self.executable.clone().unwrap(),
            args: self.args.clone().unwrap(),
            env: self.env.clone().unwrap(),
            current_dir: self.current_dir.clone().unwrap(),
        })
    }
}

impl Command {
    pub fn builder() -> CommandBuilder {
        CommandBuilder {
            executable: None,
            args: None,
            env: None,
            current_dir: None,
        }
    }
}

#[derive(Debug, PartialEq)]
pub struct Empty {}

pub struct EmptyBuilder {
}

impl EmptyBuilder {
    pub fn build(&self) -> Result<Empty, Box<dyn std::error::Error>> {
        #[allow(unused_mut)]
        let mut missing: Vec<&str> = Vec::new();
        if !missing.is_empty() {
            return Err(format!("missing fields: {}", missing.join(", ")).into());
        }
        Ok(Empty {
        })
    }
}

impl Empty {
    pub fn builder() -> EmptyBuilder {
        EmptyBuilder {
        }
    }
}

use builder::descriptor::extract;
use builder::state::BuilderState;
use builder::syntax::read_definition;

fn tokens(source: &str) -> String {
    syn::parse_file(source).unwrap().items.iter().map(|item| format!("{:?}", item)).collect()
}

#[test]
fn compiled_copy_is_what_is_generated_for_command() {
    let ast = syn::parse_str::<syn::DeriveInput>(
        "pub struct Command { executable: String, args: Vec<String>, env: Vec<String>, current_dir: String }",
    )
    .unwrap();
    let generated = builder::derive(&ast).unwrap().render();
    assert!(tokens(&generated).contains("CommandBuilder"));
    assert!(generated.contains("missing.push(\"current_dir\");"));
    assert!(generated.contains("return Err(format!(\"missing fields: {}\", missing.join(\", \")).into());"));
    assert!(generated.contains("            current_dir: self.current_dir.clone().unwrap(),\n"));
}

#[test]
fn generated_command_builder_builds() {
    let command = Command::builder()
        .executable("ls".to_string())
        .args(vec![])
        .env(vec![])
        .current_dir(".".to_string())
        .build()
        .unwrap();
    assert_eq!(
        command,
        Command {
            executable: "ls".to_string(),
            args: vec![],
            env: vec![],
            current_dir: ".".to_string(),
        }
    );
}

#[test]
fn generated_command_builder_names_current_dir() {
    let error = Command::builder()
        .executable("ls".to_string())
        .args(vec![])
        .env(vec![])
        .build()
        .unwrap_err();
    assert_eq!(error.to_string(), "missing fields: current_dir");
}

#[test]
fn generated_command_builder_names_every_missing_field() {
    let error = Command::builder().env(vec!["A=1".to_string()]).build().unwrap_err();
    assert_eq!(error.to_string(), "missing fields: executable, args, current_dir");
}

#[test]
fn generated_command_builder_keeps_the_latest_value() {
    let mut builder = Command::builder();
    builder.executable("ls".to_string()).args(vec![]).env(vec![]).current_dir(".".to_string());
    builder.executable("cat".to_string());
    assert_eq!(builder.build().unwrap().executable, "cat");
    builder.current_dir("/".to_string());
    assert_eq!(builder.build().unwrap().current_dir, "/");
}

#[test]
fn generated_empty_builder_builds_at_once() {
    assert_eq!(Empty::builder().build().unwrap(), Empty {});
}

#[test]
fn generated_builder_and_state_machine_agree() {
    let ast = syn::parse_str::<syn::DeriveInput>(
        "pub struct Command { executable: String, args: Vec<String>, env: Vec<String>, current_dir: String }",
    )
    .unwrap();
    let descriptor = extract(&read_definition(&ast)).unwrap();
    let program = "ls".to_string();
    let arguments = vec!["-l".to_string(), "-a".to_string()];
    let variables = vec!["LANG=C".to_string()];
    let directory = "/tmp".to_string();
    for mask in 0u32..16 {
        let mut generated = Command::builder();
        let mut state: BuilderState<String> = BuilderState::new(&descriptor);
        if mask & 1 != 0 {
            generated.executable(program.clone());
            assert!(state.set("executable", format!("{:?}", program)));
        }
        if mask & 2 != 0 {
            generated.args(arguments.clone());
            assert!(state.set("args", format!("{:?}", arguments)));
        }
        if mask & 4 != 0 {
            generated.env(variables.clone());
            assert!(state.set("env", format!("{:?}", variables)));
        }
        if mask & 8 != 0 {
            generated.current_dir(directory.clone());
            assert!(state.set("current_dir", format!("{:?}", directory)));
        }
        match (generated.build(), state.build()) {
            (Ok(command), Ok(instance)) => {
                assert_eq!(mask, 15);
                assert_eq!(instance.name, "Command");
                assert_eq!(
                    instance.values,
                    vec![
                        format!("{:?}", command.executable),
                        format!("{:?}", command.args),
                        format!("{:?}", command.env),
                        format!("{:?}", command.current_dir),
                    ]
                );
            },
            (Err(error), Err(missing)) => {
                assert_ne!(mask, 15);
                assert_eq!(error.to_string(), missing.message());
            },
            _ => panic!("the generated builder and the state machine differ at {}", mask),
        }
    }
}
