use cargopal::dev::handle;
use cargopal::supervisor::ChildStatus;
use cargopal::supervisor::DevError;
use cargopal::supervisor::Phase;

#[test]
fn fails_dev_command_in_non_cargopal_project() {
    let r = handle(None, false);
    match r {
        Err(e) => {
            assert_eq!(e, DevError::NotAProject);
            assert_eq!(
                e.message(),
                "Not a cargopal project. Try `cargopal new` to create a new project."
            );
        }
        Ok(_) => panic!("dev mode accepted a project with no descriptor"),
    }
}

#[test]
fn fails_dev_command_for_cli_project() {
    let r = handle(Some("template = \"cli\"\n"), false);
    match r {
        Err(e) => {
            assert_eq!(e, DevError::WrongTemplate(String::from("cli")));
            assert_eq!(
                e.message(),
                "The `dev` command is only available for web templates. This is a 'cli' project."
            );
        }
        Ok(_) => panic!("dev mode accepted a cli project"),
    }
}

#[test]
fn fails_dev_command_on_unparsable_descriptor() {
    let r = handle(Some("this is [ not toml"), false);
    assert_eq!(r.err(), Some(DevError::BadDescriptor));
}

#[test]
fn fails_dev_command_without_template_entry() {
    let r = handle(Some("version = 3\n"), false);
    assert_eq!(r.err(), Some(DevError::BadDescriptor));
}

#[test]
fn fails_dev_command_on_non_string_template() {
    let r = handle(Some("template = 7\n"), false);
    assert_eq!(r.err(), Some(DevError::BadDescriptor));
}

#[test]
fn dev_mode_starts_for_web_project() {
    // A descriptor with comments and extra entries still parses as TOML and
    // still carries template = "web".
    let text = "# project descriptor\ntemplate = \"web\"\nversion = 1\n";
    let s = handle(Some(text), true).expect("dev mode refused a web project");
    assert_eq!(s.phase, Phase::StartingWatch);
    assert_eq!(s.child, ChildStatus::Absent);
    assert!(!s.watcher_on);
    assert!(s.verbose);
    assert_eq!(s.error, None);
}

#[test]
fn one_shot_run_mode_fails_before_anything_runs() {
    // A one-shot project kind is refused at once: the machine that would
    // request the watch and the launch is never handed out, so no watcher
    // exists and no child is spawned.
    let r = handle(Some("template = \"cli\"\n"), true);
    assert!(r.is_err());
}
