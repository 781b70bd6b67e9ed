use rshred::shred::ShredOptions;
use rshred::{ShredConfiguration, Verbosity};

#[test]
fn configuration_defaults() {
    let c = ShredConfiguration::new("some/path");
    assert_eq!(c.raw_path, "some/path");
    assert!(c.is_interactive);
    assert!(!c.is_recursive);
    assert_eq!(c.rewrite_iterations, 3);
    assert!(!c.keep_files);
    assert_eq!(c.verbosity, Verbosity::Silent);
}

#[test]
fn configuration_builder_chain() {
    let c = ShredConfiguration::new("target")
        .set_verbosity(Verbosity::High)
        .set_is_recursive(true)
        .set_is_interactive(false)
        .set_keep_files(true)
        .set_rewrite_iterations(9)
        .build();
    assert_eq!(c.raw_path, "target");
    assert_eq!(c.verbosity, Verbosity::High);
    assert!(c.is_recursive);
    assert!(!c.is_interactive);
    assert!(c.keep_files);
    assert_eq!(c.rewrite_iterations, 9);
}

#[test]
fn options_defaults() {
    let o = ShredOptions::new(String::from("a/file"));
    assert_eq!(o.path, "a/file");
    assert!(o.is_interactive);
    assert!(!o.is_recursive);
    assert_eq!(o.rewrite_iterations, 3);
    assert!(!o.keep_files);
    assert_eq!(o.verbosity, rshred::shred::Verbosity::Silent);
}

#[test]
fn options_builder_chain() {
    let o = ShredOptions::new(String::from("a/file"))
        .set_verbosity(rshred::shred::Verbosity::Low)
        .set_is_recursive(true)
        .set_is_interactive(false)
        .set_keep_files(true)
        .set_rewrite_iterations(1)
        .build();
    assert_eq!(o.verbosity, rshred::shred::Verbosity::Low);
    assert!(o.is_recursive);
    assert!(!o.is_interactive);
    assert!(o.keep_files);
    assert_eq!(o.rewrite_iterations, 1);
}

#[test]
fn shredder_holds_its_configuration() {
    let s = rshred::Shredder::with_options(
        ShredConfiguration::new("x").set_keep_files(true).build(),
    );
    assert!(s.configuration.keep_files);
    assert_eq!(s.configuration.raw_path, "x");

    let t = rshred::shred::Shredder::with_options(
        ShredOptions::new(String::from("y")).set_is_interactive(false).build(),
    );
    assert!(!t.options.is_interactive);
    assert_eq!(t.options.path, "y");
}
