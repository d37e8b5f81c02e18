use dynisland_core::{apply_config, not_implemented, ActivityIdentifier, ModuleError, SabiModule, UIServerCommand};

#[derive(Clone, Debug, PartialEq)]
struct ModuleConfig {
    example_value: i32,
}

struct ExampleModule {
    config: ModuleConfig,
}

impl SabiModule for ExampleModule {
    fn init(&self) {}

    fn update_config(&mut self, config: String) -> Result<(), ModuleError> {
        let parsed = config
            .trim()
            .parse::<i32>()
            .map(|v| ModuleConfig { example_value: v })
            .map_err(|e| e.to_string());
        apply_config(&mut self.config, parsed)
    }

    fn restart_producers(&self) {}
}

#[test]
fn malformed_config_keeps_previous() {
    let mut m = ExampleModule { config: ModuleConfig { example_value: 7 } };
    let r = m.update_config(String::from("{not a number"));
    assert!(matches!(r, Err(ModuleError::ConfigParse(_))));
    assert_eq!(m.config, ModuleConfig { example_value: 7 });
}

#[test]
fn wellformed_config_replaces_previous() {
    let mut m = ExampleModule { config: ModuleConfig { example_value: 7 } };
    assert_eq!(m.update_config(String::from("42")), Ok(()));
    assert_eq!(m.config, ModuleConfig { example_value: 42 });
}

#[test]
fn apply_config_reports_message() {
    let mut current = 3u8;
    let r = apply_config(&mut current, Err(String::from("bad")));
    assert_eq!(r, Err(ModuleError::ConfigParse(String::from("bad"))));
    assert_eq!(current, 3);
    assert_eq!(apply_config(&mut current, Ok(9)), Ok(()));
    assert_eq!(current, 9);
}

#[test]
fn optional_capabilities_default_to_not_implemented() {
    let m = ExampleModule { config: ModuleConfig { example_value: 7 } };
    assert_eq!(m.default_config(), Err(ModuleError::NotImplemented));
    assert_eq!(m.cli_command(String::from("status")), Err(ModuleError::NotImplemented));
    assert_eq!(not_implemented::<u8>(), Err(ModuleError::NotImplemented));
}

#[test]
fn module_errors_compare_by_variant_and_message() {
    assert_eq!(ModuleError::ChannelClosed, ModuleError::ChannelClosed);
    assert_ne!(ModuleError::ChannelClosed, ModuleError::NotImplemented);
    assert_ne!(
        ModuleError::ConfigParse(String::from("a")),
        ModuleError::ConfigParse(String::from("b"))
    );
    assert_ne!(
        ModuleError::Construction(String::from("a")),
        ModuleError::ConfigParse(String::from("a"))
    );
}

#[test]
fn commands_carry_their_payload() {
    let cmd: UIServerCommand<u32> = UIServerCommand::RequestNotification {
        activity_id: ActivityIdentifier::new("music", "now_playing"),
        mode: 1,
        duration: Some(3000),
    };
    match cmd {
        UIServerCommand::RequestNotification { activity_id, mode, duration } => {
            assert_eq!(activity_id.activity(), "now_playing");
            assert_eq!(mode, 1);
            assert_eq!(duration, Some(3000));
        }
        _ => panic!("wrong variant"),
    }
    let add: UIServerCommand<u32> = UIServerCommand::AddActivity {
        activity_id: ActivityIdentifier::new("music", "now_playing"),
        widget: 5,
    };
    assert!(matches!(add, UIServerCommand::AddActivity { widget: 5, .. }));
}
