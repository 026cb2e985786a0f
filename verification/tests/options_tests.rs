use nmosh::options::{parse_dimension, Options};

fn args(list: &[&str]) -> Vec<String> {
    list.iter().map(|s| s.to_string()).collect()
}

#[test]
fn defaults_without_arguments() {
    let o = Options::from_args(&args(&[])).unwrap();
    assert_eq!(o.ndi_name, None);
    assert_eq!(o.ndi_dll, None);
    assert_eq!(o.midi_name, None);
    assert_eq!(o.width, 1280);
    assert_eq!(o.height, 720);
    assert!(!o.help);
}

#[test]
fn all_options() {
    let o = Options::from_args(&args(&[
        "--ndi", "OBS", "--ndi-dll", "C:\\ndi.dll", "--midi", "Launch", "--width", "800",
        "--height", "+600", "-h",
    ]))
    .unwrap();
    assert_eq!(o.ndi_name.as_deref(), Some("OBS"));
    assert_eq!(o.ndi_dll.as_deref(), Some("C:\\ndi.dll"));
    assert_eq!(o.midi_name.as_deref(), Some("Launch"));
    assert_eq!(o.width, 800);
    assert_eq!(o.height, 600);
    assert!(o.help);
    assert!(Options::from_args(&args(&["--help"])).unwrap().help);
}

#[test]
fn missing_values_and_unknown_arguments() {
    assert_eq!(
        Options::from_args(&args(&["--ndi"])).unwrap_err(),
        "--ndi requires a source-name substring"
    );
    assert_eq!(
        Options::from_args(&args(&["--ndi-dll"])).unwrap_err(),
        "--ndi-dll requires a DLL/library path"
    );
    assert_eq!(
        Options::from_args(&args(&["--midi"])).unwrap_err(),
        "--midi requires a port-name substring"
    );
    assert_eq!(
        Options::from_args(&args(&["--width"])).unwrap_err(),
        "--width requires a positive integer"
    );
    assert_eq!(Options::from_args(&args(&["--fast"])).unwrap_err(), "unknown argument: --fast");
    assert_eq!(
        Options::from_args(&args(&["--height", "0"])).unwrap_err(),
        "--height must be greater than zero"
    );
    assert_eq!(
        Options::from_args(&args(&["--width", "wide"])).unwrap_err(),
        "--width must be a positive integer"
    );
}

#[test]
fn dimension_parsing() {
    assert_eq!(parse_dimension("--width", Some("1920".to_string())), Ok(1920));
    assert_eq!(parse_dimension("--width", Some("+7".to_string())), Ok(7));
    assert_eq!(parse_dimension("--width", Some("4294967295".to_string())), Ok(4294967295));
    assert_eq!(
        parse_dimension("--width", Some("4294967296".to_string())),
        Err("--width must be a positive integer".to_string())
    );
    assert_eq!(
        parse_dimension("--width", Some("-1".to_string())),
        Err("--width must be a positive integer".to_string())
    );
    assert_eq!(
        parse_dimension("--width", Some(" 5".to_string())),
        Err("--width must be a positive integer".to_string())
    );
    assert_eq!(
        parse_dimension("--width", Some("".to_string())),
        Err("--width must be a positive integer".to_string())
    );
    assert_eq!(
        parse_dimension("--width", Some("0".to_string())),
        Err("--width must be greater than zero".to_string())
    );
    assert_eq!(
        parse_dimension("--height", None),
        Err("--height requires a positive integer".to_string())
    );
}
