use cross_shell::shell::{
    ColorChoice, MessageInfo, ShellError, Verbosity, get_color_choice, get_verbosity,
    CONFLICT_EXIT_CODE, CONFLICT_MESSAGE,
};

#[test]
fn color_choice_absent_is_auto() {
    assert_eq!(get_color_choice(None), Ok(ColorChoice::Auto));
}

#[test]
fn color_choice_always() {
    assert_eq!(get_color_choice(Some("always")), Ok(ColorChoice::Always));
}

#[test]
fn color_choice_never() {
    assert_eq!(get_color_choice(Some("never")), Ok(ColorChoice::Never));
}

#[test]
fn color_choice_auto() {
    assert_eq!(get_color_choice(Some("auto")), Ok(ColorChoice::Auto));
}

#[test]
fn color_choice_rejects_other_strings() {
    assert_eq!(
        get_color_choice(Some("Always")),
        Err(ShellError::InvalidColorArg(String::from("Always")))
    );
    assert_eq!(
        get_color_choice(Some("")),
        Err(ShellError::InvalidColorArg(String::from("")))
    );
    assert_eq!(
        get_color_choice(Some("alway")),
        Err(ShellError::InvalidColorArg(String::from("alway")))
    );
    assert_eq!(
        get_color_choice(Some("never ")),
        Err(ShellError::InvalidColorArg(String::from("never ")))
    );
}

#[test]
fn invalid_color_message_names_the_argument() {
    let e = get_color_choice(Some("bogus")).unwrap_err();
    assert_eq!(
        e.message(),
        "argument for --color must be auto, always, or never, but found `bogus`"
    );
}

#[test]
fn verbosity_of_each_flag_pair() {
    assert_eq!(
        get_verbosity(ColorChoice::Auto, true, false),
        Ok(Verbosity::Verbose)
    );
    assert_eq!(
        get_verbosity(ColorChoice::Auto, false, true),
        Ok(Verbosity::Quiet)
    );
    assert_eq!(
        get_verbosity(ColorChoice::Auto, false, false),
        Ok(Verbosity::Normal)
    );
}

#[test]
fn verbosity_conflict_is_fatal_configuration() {
    let e = get_verbosity(ColorChoice::Never, true, true).unwrap_err();
    assert_eq!(e, ShellError::VerbosityConflict(ColorChoice::Never));
    assert_eq!(CONFLICT_EXIT_CODE, 101);
    let text = e.message();
    assert_eq!(text, CONFLICT_MESSAGE);
    assert!(text.contains("verbose"));
    assert!(text.contains("quiet"));
}

#[test]
fn create_resolves_both_policies() {
    let m = MessageInfo::create(false, false, None).unwrap();
    assert_eq!(m.color_choice, ColorChoice::Auto);
    assert_eq!(m.verbosity, Verbosity::Normal);
    assert!(!m.stdout_needs_erase);
    assert!(!m.stderr_needs_erase);

    let m = MessageInfo::create(true, false, Some("always")).unwrap();
    assert_eq!(m.color_choice, ColorChoice::Always);
    assert_eq!(m.verbosity, Verbosity::Verbose);

    let m = MessageInfo::create(false, true, Some("never")).unwrap();
    assert_eq!(m.color_choice, ColorChoice::Never);
    assert_eq!(m.verbosity, Verbosity::Quiet);
}

#[test]
fn create_propagates_both_rejections() {
    assert_eq!(
        MessageInfo::create(false, false, Some("sometimes")),
        Err(ShellError::InvalidColorArg(String::from("sometimes")))
    );
    assert_eq!(
        MessageInfo::create(true, true, None),
        Err(ShellError::VerbosityConflict(ColorChoice::Auto))
    );
    // the color argument is resolved first, so a bad color wins
    assert_eq!(
        MessageInfo::create(true, true, Some("x")),
        Err(ShellError::InvalidColorArg(String::from("x")))
    );
}

#[test]
fn verbose_only_at_verbose() {
    assert!(Verbosity::Verbose.verbose());
    assert!(!Verbosity::Normal.verbose());
    assert!(!Verbosity::Quiet.verbose());
    assert!(MessageInfo::new(ColorChoice::Auto, Verbosity::Verbose).is_verbose());
    assert!(!MessageInfo::new(ColorChoice::Auto, Verbosity::Quiet).is_verbose());
}

#[test]
fn reporter_from_color_choice_defaults_verbosity() {
    let m = MessageInfo::from(ColorChoice::Always);
    assert_eq!(m.color_choice, ColorChoice::Always);
    assert_eq!(m.verbosity, Verbosity::Normal);
    assert!(!m.stdout_needs_erase);
    assert!(!m.stderr_needs_erase);
}

#[test]
fn reporter_from_verbosity_defaults_color() {
    let m = MessageInfo::from(Verbosity::Quiet);
    assert_eq!(m.color_choice, ColorChoice::Auto);
    assert_eq!(m.verbosity, Verbosity::Quiet);
    assert!(!m.stdout_needs_erase);
    assert!(!m.stderr_needs_erase);
}

#[test]
fn reporter_from_pair_keeps_both() {
    let m = MessageInfo::from((ColorChoice::Never, Verbosity::Verbose));
    assert_eq!(m.color_choice, ColorChoice::Never);
    assert_eq!(m.verbosity, Verbosity::Verbose);
    assert!(!m.stdout_needs_erase);
    assert!(!m.stderr_needs_erase);
}

#[test]
fn default_reporter_is_auto_normal() {
    let m = MessageInfo::default();
    assert_eq!(m.color_choice, ColorChoice::Auto);
    assert_eq!(m.verbosity, Verbosity::Normal);
    assert!(!m.stdout_needs_erase);
    assert!(!m.stderr_needs_erase);
}

#[test]
fn scoped_verbosity_is_restored() {
    let mut m = MessageInfo::new(ColorChoice::Never, Verbosity::Verbose);
    let seen = m.as_quiet(|inner| {
        let v = inner.is_verbose();
        (inner, v)
    });
    assert!(!seen);
    assert_eq!(m.verbosity, Verbosity::Verbose);

    let mut q = MessageInfo::new(ColorChoice::Never, Verbosity::Quiet);
    let seen = q.as_verbose(|inner| {
        let v = inner.is_verbose();
        (inner, v)
    });
    assert!(seen);
    assert_eq!(q.verbosity, Verbosity::Quiet);

    let seen = q.as_normal(|inner| {
        let v = inner.verbosity;
        (inner, v)
    });
    assert_eq!(seen, Verbosity::Normal);
    assert_eq!(q.verbosity, Verbosity::Quiet);
}

#[test]
fn scoped_verbosity_keeps_other_changes() {
    let mut m = MessageInfo::new(ColorChoice::Never, Verbosity::Normal);
    m.as_quiet(|mut inner| {
        inner.stdout_needs_erase = true;
        (inner, ())
    });
    assert!(m.stdout_needs_erase);
    assert_eq!(m.verbosity, Verbosity::Normal);
}
