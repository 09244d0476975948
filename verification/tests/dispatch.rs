use command_bridge::commands::greet;
use command_bridge::commands::CommandHandler;
use command_bridge::commands::InvokeArgs;
use command_bridge::errors::InvokeError;
use command_bridge::errors::RegistryError;
use command_bridge::registry::default_registry;
use command_bridge::registry::CommandRegistry;

fn name_args(value: &str) -> InvokeArgs {
    let mut args = InvokeArgs::new();
    args.push_field("name".to_string(), value.to_string());
    args
}

#[test]
fn greet_world_exact() {
    let reg = default_registry();
    let r = reg.invoke("greet", &name_args("World"));
    assert_eq!(r, Ok("Hello, World! You've been greeted from Rust!".to_string()));
}

#[test]
fn greet_empty_name_is_valid() {
    let reg = default_registry();
    let r = reg.invoke("greet", &name_args(""));
    assert_eq!(r, Ok("Hello, ! You've been greeted from Rust!".to_string()));
}

#[test]
fn greet_function_formats_directly() {
    assert_eq!(
        greet("Verus"),
        "Hello, Verus! You've been greeted from Rust!".to_string()
    );
}

#[test]
fn unknown_command_fails() {
    let reg = default_registry();
    let r = reg.invoke("nonexistent", &name_args("World"));
    assert_eq!(r, Err(InvokeError::UnknownCommand));
}

#[test]
fn unknown_command_fails_with_empty_payload() {
    let reg = default_registry();
    let r = reg.invoke("nonexistent", &InvokeArgs::new());
    assert_eq!(r, Err(InvokeError::UnknownCommand));
}

#[test]
fn missing_argument_is_decode_error() {
    let reg = default_registry();
    let mut args = InvokeArgs::new();
    args.push_field("title".to_string(), "World".to_string());
    assert_eq!(reg.invoke("greet", &args), Err(InvokeError::ArgumentDecode));
    assert_eq!(
        reg.invoke("greet", &InvokeArgs::new()),
        Err(InvokeError::ArgumentDecode)
    );
}

#[test]
fn duplicate_registration_fails() {
    let mut reg = CommandRegistry::new();
    assert_eq!(reg.register("greet".to_string(), CommandHandler::Greet), Ok(()));
    assert_eq!(
        reg.register("greet".to_string(), CommandHandler::Greet),
        Err(RegistryError::DuplicateCommand)
    );
}

#[test]
fn duplicate_registration_fails_regardless_of_other_entries() {
    let mut reg = CommandRegistry::new();
    assert_eq!(reg.register("greet".to_string(), CommandHandler::Greet), Ok(()));
    assert_eq!(reg.register("salute".to_string(), CommandHandler::Greet), Ok(()));
    assert_eq!(
        reg.register("greet".to_string(), CommandHandler::Greet),
        Err(RegistryError::DuplicateCommand)
    );
    // The failed attempt left the registry as it was.
    assert!(reg.contains("greet"));
    assert!(reg.contains("salute"));
}

#[test]
fn invocation_reaches_the_handler_registered_under_the_name() {
    let mut reg = CommandRegistry::new();
    assert_eq!(reg.register("greet".to_string(), CommandHandler::Greet), Ok(()));
    assert_eq!(reg.register("salute".to_string(), CommandHandler::Greet), Ok(()));
    assert_eq!(
        reg.invoke("salute", &name_args("World")),
        Ok("Hello, World! You've been greeted from Rust!".to_string())
    );
    assert_eq!(
        reg.invoke("greet", &name_args("crew")),
        Ok("Hello, crew! You've been greeted from Rust!".to_string())
    );
}

#[test]
fn first_field_with_the_name_wins() {
    let reg = default_registry();
    let mut args = InvokeArgs::new();
    args.push_field("name".to_string(), "first".to_string());
    args.push_field("name".to_string(), "second".to_string());
    assert_eq!(
        reg.invoke("greet", &args),
        Ok("Hello, first! You've been greeted from Rust!".to_string())
    );
}

#[test]
fn interleaved_invocations_do_not_interfere() {
    let reg = default_registry();
    let args_a = name_args("Alice");
    let args_b = name_args("Bob");
    let r_a1 = reg.invoke("greet", &args_a);
    let r_b = reg.invoke("greet", &args_b);
    let r_a2 = reg.invoke("greet", &args_a);
    assert_eq!(r_a1, Ok("Hello, Alice! You've been greeted from Rust!".to_string()));
    assert_eq!(r_b, Ok("Hello, Bob! You've been greeted from Rust!".to_string()));
    assert_eq!(r_a1, r_a2);
    assert_ne!(r_a1, r_b);
}

#[test]
fn payload_lookup_finds_fields() {
    let mut args = InvokeArgs::new();
    args.push_field("name".to_string(), "World".to_string());
    assert_eq!(args.get("name"), Some(&"World".to_string()));
    assert_eq!(args.get("title"), None);
    assert_eq!(InvokeArgs::new().get("name"), None);
}
