use cli_boilerplate_automation::bog::{
    bog, init_bogger, init_filter, Bg, BogContext, BogFmter, BogLevel, BogOkExt, BogSink,
    BogStyle, BogUnwrapExt, Bogger, Fg, GLOBAL_BOGGER_STRUCT,
};

type Slot = Option<GLOBAL_BOGGER_STRUCT<BogStyle>>;

fn show(line: Option<String>) {
    if let Some(line) = line {
        println!("{}", line.trim_end_matches('\n'));
    }
}

fn dbog(slot: &Slot, tag: &str, msg: &str) -> Option<String> {
    bog(slot, BogLevel::DEBUG, tag, msg)
}

fn ibog(slot: &Slot, tag: &str, msg: &str) -> Option<String> {
    bog(slot, BogLevel::INFO, tag, msg)
}

fn wbog(slot: &Slot, tag: &str, msg: &str) -> Option<String> {
    bog(slot, BogLevel::WARN, tag, msg)
}

fn ebog(slot: &Slot, tag: &str, msg: &str) -> Option<String> {
    bog(slot, BogLevel::ERROR, tag, msg)
}

fn nbog(slot: &Slot, tag: &str, msg: &str) -> Option<String> {
    bog(slot, BogLevel::NOTE, tag, msg)
}

fn dnbog(slot: &Slot, tag: &str, msg: &str) -> Option<String> {
    bog(slot, BogLevel::DNOTE, tag, msg)
}

fn cbog(slot: &Slot, name: &'static str, tag: &str, msg: &str) -> Option<String> {
    bog(slot, BogLevel::CUSTOM(name), tag, msg)
}

#[test]
fn show_fg_bogger() {
    let mut slot: Slot = None;
    init_bogger(&mut slot, true, false);
    // DEBUG messages
    show(dbog(&slot, "", &format!("DEBUG message: {}", 3.14159)));
    show(dbog(&slot, "val", &format!("DEBUG values: x={}, y={}", 10, 20)));

    // INFO messages
    show(ibog(&slot, "", &format!("INFO message: {}", 42)));
    show(ibog(&slot, "Created Directory", "~/archr/Desktop"));

    // WARN messages
    show(wbog(&slot, "", &format!("WARN message: {}", "disk almost full")));
    show(wbog(&slot, "NoSpace", &format!("WARN message: {} attempts left", 3)));

    // ERROR messages
    show(ebog(&slot, "", &format!("ERROR message: {}", "file not found")));
    show(ebog(&slot, "404", "Not found"));

    // NOTE messages
    show(nbog(&slot, "", "justification"));
    show(nbog(&slot, "NOTE", "ancillary"));
    show(dnbog(&slot, "", "justification"));
    show(dnbog(&slot, "DNOTE", "ancillary"));

    // CUSTOM levels
    show(cbog(&slot, "NOTE", "", &format!("Custom note message: {}", "all good")));
    show(cbog(&slot, "NOTE", "", &format!("Custom note with tag: {}", 123)));
    show(cbog(&slot, "CUSTOM", "Custom discriminant", "Message with both tag and content"));
}

#[test]
fn show_bg_bogger() {
    let mut slot: Slot = None;
    init_bogger(&mut slot, false, true);
    // DEBUG messages
    show(dbog(&slot, "", &format!("DEBUG message: {}", 3.14159)));
    show(dbog(&slot, "val", &format!("DEBUG values: x={}, y={}", 10, 20)));

    // INFO messages
    show(ibog(&slot, "", &format!("INFO message: {}", 42)));
    show(ibog(&slot, "Urgent", &format!("INFO message number {}", 7)));

    // WARN messages
    show(wbog(&slot, "", &format!("WARN message: {}", "disk almost full")));
    show(wbog(&slot, "NoSpace", &format!("WARN message: {} attempts left", 3)));

    // ERROR messages
    show(ebog(&slot, "", &format!("ERROR message: {}", "file not found")));
    show(ebog(&slot, "404", "Not found"));

    // NOTE messages
    show(nbog(&slot, "", "justification"));
    show(nbog(&slot, "NOTE", "ancillary"));
    show(dnbog(&slot, "", "justification"));
    show(dnbog(&slot, "DNOTE", "ancillary"));

    // CUSTOM
    show(cbog(&slot, "NOTE", "", &format!("Custom note message: {}", "all good")));
    show(cbog(&slot, "NOTE", "", &format!("Custom note with tag: {}", 123)));
    show(cbog(&slot, "CUSTOM", "Custom discriminant", "Message with both tag and content"));
}

#[test]
fn min_level_and_downcast_combined() {
    let mut slot: Slot = None;
    init_bogger(&mut slot, true, false);

    // drop DEBUG entirely
    Bogger::filter_below(&mut slot, BogLevel::INFO);
    // downcast ERROR to WARN
    Bogger::downcast_above(&mut slot, BogLevel::WARN);

    let debug = dbog(&slot, "", "debug filtered");
    let info = ibog(&slot, "", "info normal");
    let error = ebog(&slot, "", "error shown as warn");
    assert_eq!(debug, None);
    assert_eq!(info, Some("\x1b[32m[INFO]\x1b[0m info normal\n".to_string()));
    assert_eq!(error, Some("\x1b[33m[WARN]\x1b[0m error shown as warn\n".to_string()));
    show(debug);
    show(info);
    show(error);
}

#[test]
fn fg_lines_are_exact() {
    let mut slot: Slot = None;
    init_bogger(&mut slot, true, false);
    assert_eq!(
        ibog(&slot, "Created Directory", "~/archr/Desktop"),
        Some("\x1b[32m[INFO: Created Directory]\x1b[0m ~/archr/Desktop\n".to_string())
    );
    assert_eq!(
        ebog(&slot, "404", "Not found"),
        Some("\x1b[31m[ERRO: 404]\x1b[0m Not found\n".to_string())
    );
    assert_eq!(
        dbog(&slot, "", "x"),
        Some("\x1b[35m[DBUG]\x1b[0m x\n".to_string())
    );
    assert_eq!(nbog(&slot, "", ""), Some("\x1b[34m[NOTE]\x1b[0m\n".to_string()));
    assert_eq!(
        dnbog(&slot, "t", ""),
        Some("\x1b[30m[DNTE: t]\x1b[0m\n".to_string())
    );
    assert_eq!(
        wbog(&slot, "", "w"),
        Some("\x1b[33m[WARN]\x1b[0m w\n".to_string())
    );
    assert_eq!(
        cbog(&slot, "CUSTOM", "Custom discriminant", "Message"),
        Some("\x1b[34m[CUSTOM: Custom discriminant]\x1b[0m Message\n".to_string())
    );
}

#[test]
fn bg_lines_are_exact() {
    let mut slot: Slot = None;
    init_bogger(&mut slot, false, true);
    assert_eq!(
        ibog(&slot, "Urgent", "INFO message number 7"),
        Some("\x1b[30;42mINFO | Urgent \x1b[0m INFO message number 7\n".to_string())
    );
    assert_eq!(
        ebog(&slot, "", "e"),
        Some("\x1b[30;41mERROR \x1b[0m e\n".to_string())
    );
    assert_eq!(
        nbog(&slot, "", "n"),
        Some("\x1b[30;44mNOTE  \x1b[0m n\n".to_string())
    );
    assert_eq!(
        wbog(&slot, "", "w"),
        Some("\x1b[30;43mWARN  \x1b[0m w\n".to_string())
    );
    assert_eq!(
        dbog(&slot, "", "d"),
        Some("\x1b[30;45mDEBUG \x1b[0m d\n".to_string())
    );
    assert_eq!(
        dnbog(&slot, "", "d"),
        Some("\x1b[30;47mDNOTE \x1b[0m d\n".to_string())
    );
    assert_eq!(
        cbog(&slot, "MINE", "", "c"),
        Some("\x1b[30;44mMINE \x1b[0m c\n".to_string())
    );
}

#[test]
fn formatter_pieces() {
    let fg = Fg {};
    assert_eq!(fg.begin_tag(BogLevel::ERROR), "\x1b[31m[ERRO");
    assert_eq!(fg.begin_tag(BogLevel::ALL), "\x1b[m[");
    assert_eq!(fg.end_tag(), "]\x1b[0m");
    let mut s = String::from("head");
    fg.push_tag(&mut s, "");
    assert_eq!(s, "head");
    fg.push_tag(&mut s, "tag");
    assert_eq!(s, "head: tag");
    assert_eq!(fg.format(BogLevel::INFO, "", ""), "\x1b[32m[INFO]\x1b[0m");

    let bg = Bg {};
    assert_eq!(bg.begin_tag(BogLevel::WARN), "\x1b[30;43mWARN ");
    assert_eq!(bg.begin_tag(BogLevel::ALL), "\x1b[30;m");
    assert_eq!(bg.end_tag(), " \x1b[0m");
    let mut s = String::from("head");
    bg.push_tag(&mut s, "");
    assert_eq!(s, "head");
    bg.push_tag(&mut s, "tag");
    assert_eq!(s, "head| tag");
}

#[test]
fn priorities() {
    let fg = Fg {};
    assert_eq!(fg.priority(&BogLevel::NOTE), 120);
    assert_eq!(fg.priority(&BogLevel::ERROR), 100);
    assert_eq!(fg.priority(&BogLevel::WARN), 80);
    assert_eq!(fg.priority(&BogLevel::INFO), 60);
    assert_eq!(fg.priority(&BogLevel::DEBUG), 40);
    assert_eq!(fg.priority(&BogLevel::DNOTE), 20);
    assert_eq!(fg.priority(&BogLevel::ALL), 0);
    assert_eq!(fg.priority(&BogLevel::CUSTOM("x")), 120);
    assert_eq!(Bg {}.priority(&BogLevel::WARN), 80);
    assert_eq!(BogStyle::Bg(Bg {}).priority(&BogLevel::INFO), 60);
}

#[test]
fn fresh_logger_shows_everything() {
    let b = GLOBAL_BOGGER_STRUCT::new(Fg {}, BogSink::Stderr);
    assert_eq!(b.sink(), BogSink::Stderr);
    let ((min, min_level), (max, max_level)) = b.bounds();
    assert_eq!(min, 0);
    assert!(matches!(min_level, BogLevel::DEBUG));
    assert_eq!(max, 255);
    assert!(matches!(max_level, BogLevel::ERROR));
    assert_eq!(b.prefix(), "");
    assert_eq!(b.suffix(), "");
    assert_eq!(b.tag_override(), &None);
    assert!(b.bog(BogLevel::ALL, "", "lowest").is_some());
    assert!(b.bog(BogLevel::NOTE, "", "highest").is_some());
}

#[test]
fn empty_slot_stays_empty() {
    let mut slot: Slot = None;
    assert_eq!(bog(&slot, BogLevel::ERROR, "t", "m"), None);
    Bogger::filter_below(&mut slot, BogLevel::WARN);
    Bogger::downcast_above(&mut slot, BogLevel::WARN);
    Bogger::pause(&mut slot);
    Bogger::resume(&mut slot);
    init_filter(&mut slot, 3);
    let ctx = BogContext::new().prefix("p").tag("t");
    let snapshot = Bogger::enter(&mut slot, &ctx);
    assert!(slot.is_none());
    Bogger::leave(&mut slot, snapshot, &ctx);
    assert!(slot.is_none());
    assert_eq!(Bogger::bog(&slot, BogLevel::ERROR, "t", "m"), None);
}

#[test]
fn prefix_suffix_and_tag_override() {
    let mut b = GLOBAL_BOGGER_STRUCT::new(Fg {}, BogSink::Stdout);
    b.set_prefix("pre-".to_string());
    b.set_suffix(" (end)".to_string());
    assert_eq!(
        b.bog(BogLevel::INFO, "own", "msg"),
        Some("\x1b[32m[INFO: own]\x1b[0m pre-msg (end)\n".to_string())
    );
    b.set_tag_override(Some("forced".to_string()));
    assert_eq!(
        b.bog(BogLevel::INFO, "own", "msg"),
        Some("\x1b[32m[INFO: forced]\x1b[0m pre-msg (end)\n".to_string())
    );
    // an empty message gets the prefix all the same
    assert_eq!(
        b.bog(BogLevel::INFO, "", ""),
        Some("\x1b[32m[INFO: forced]\x1b[0m pre- (end)\n".to_string())
    );
}

#[test]
fn threshold_and_ceiling() {
    let mut b = GLOBAL_BOGGER_STRUCT::new(Fg {}, BogSink::Stdout);
    b.filter_below(BogLevel::WARN);
    assert_eq!(b.bounds().0 .0, 80);
    assert_eq!(b.bog(BogLevel::INFO, "", "m"), None);
    // a message at the threshold is shown
    assert!(b.bog(BogLevel::WARN, "", "m").is_some());
    b.downcast_above(BogLevel::ERROR);
    assert_eq!(b.bounds().1 .0, 100);
    // a message at the ceiling keeps its level
    assert_eq!(b.bog(BogLevel::ERROR, "", "m"), Some("\x1b[31m[ERRO]\x1b[0m m\n".to_string()));
    // one above it is shown under the ceiling's level
    assert_eq!(b.bog(BogLevel::NOTE, "", "m"), Some("\x1b[31m[ERRO]\x1b[0m m\n".to_string()));
}

#[test]
fn pause_and_resume() {
    let mut b = GLOBAL_BOGGER_STRUCT::new(Fg {}, BogSink::Stdout);
    b.filter_below(BogLevel::INFO);
    b.pause();
    assert_eq!(b.bounds().0 .0, 255);
    assert!(matches!(b.bounds().0 .1, BogLevel::INFO));
    assert_eq!(b.bog(BogLevel::NOTE, "", "m"), None);
    b.resume();
    assert_eq!(b.bounds().0 .0, 60);
    assert!(b.bog(BogLevel::INFO, "", "m").is_some());
    assert_eq!(b.bog(BogLevel::DEBUG, "", "m"), None);
}

#[test]
fn set_bounds_takes_priorities_as_given() {
    let mut b = GLOBAL_BOGGER_STRUCT::new(Fg {}, BogSink::Stdout);
    b.set_bounds(((7, BogLevel::NOTE), (9, BogLevel::DNOTE)));
    let bounds = b.bounds();
    assert_eq!(bounds.0 .0, 7);
    assert!(matches!(bounds.0 .1, BogLevel::NOTE));
    assert_eq!(bounds.1 .0, 9);
    assert!(matches!(bounds.1 .1, BogLevel::DNOTE));
}

#[test]
fn verbosity_maps_to_levels() {
    let expected: [(u8, u8); 8] =
        [(0, 100), (1, 80), (2, 60), (3, 40), (4, 20), (5, 0), (6, 0), (255, 0)];
    for (verbosity, priority) in expected {
        let mut slot: Slot = None;
        init_bogger(&mut slot, true, false);
        init_filter(&mut slot, verbosity);
        let bounds = slot.as_ref().unwrap().bounds();
        assert_eq!(bounds.0 .0, priority);
        let level = bounds.0 .1;
        match verbosity {
            0 => assert!(matches!(level, BogLevel::ERROR)),
            1 => assert!(matches!(level, BogLevel::WARN)),
            2 => assert!(matches!(level, BogLevel::INFO)),
            3 => assert!(matches!(level, BogLevel::DEBUG)),
            4 => assert!(matches!(level, BogLevel::DNOTE)),
            _ => assert!(matches!(level, BogLevel::ALL)),
        }
    }
    let mut slot: Slot = None;
    init_bogger(&mut slot, true, false);
    init_filter(&mut slot, 0);
    assert_eq!(wbog(&slot, "", "m"), None);
    assert!(ebog(&slot, "", "m").is_some());
    init_filter(&mut slot, 4);
    assert!(dnbog(&slot, "", "m").is_some());
    assert_eq!(bog(&slot, BogLevel::ALL, "", "m"), None);
    init_filter(&mut slot, 5);
    assert!(bog(&slot, BogLevel::ALL, "", "m").is_some());
}

fn settings(slot: &Slot) -> ((u8, u8), String, String, Option<String>) {
    let b = slot.as_ref().unwrap();
    let bounds = b.bounds();
    (
        (bounds.0 .0, bounds.1 .0),
        b.prefix().clone(),
        b.suffix().clone(),
        b.tag_override().clone(),
    )
}

#[test]
fn scope_applies_and_restores() {
    let mut slot: Slot = None;
    init_bogger(&mut slot, true, false);
    Bogger::filter_below(&mut slot, BogLevel::DEBUG);
    Bogger::downcast_above(&mut slot, BogLevel::NOTE);
    slot.as_mut().unwrap().set_prefix("outer ".to_string());
    let before = settings(&slot);

    let ctx = BogContext::new()
        .lower(BogLevel::WARN)
        .upper(BogLevel::ERROR)
        .prefix("in ")
        .suffix(" !")
        .tag("scoped");
    let seen = Bogger::with(&mut slot, ctx, |inside| {
        let seen = (
            settings(&inside),
            bog(&inside, BogLevel::INFO, "", "dropped"),
            bog(&inside, BogLevel::NOTE, "own", "shown"),
        );
        (inside, seen)
    });
    assert_eq!(
        seen.0,
        ((80, 100), "in ".to_string(), " !".to_string(), Some("scoped".to_string()))
    );
    assert_eq!(seen.1, None);
    assert_eq!(seen.2, Some("\x1b[31m[ERRO: scoped]\x1b[0m in shown !\n".to_string()));
    assert_eq!(settings(&slot), before);
    assert!(matches!(slot.as_ref().unwrap().bounds().0 .1, BogLevel::DEBUG));
    assert!(matches!(slot.as_ref().unwrap().bounds().1 .1, BogLevel::NOTE));
}

#[test]
fn nested_scopes_restore() {
    let mut slot: Slot = None;
    init_bogger(&mut slot, false, false);
    Bogger::filter_below(&mut slot, BogLevel::INFO);
    slot.as_mut().unwrap().set_tag_override(Some("base".to_string()));
    let before = settings(&slot);

    let outer = BogContext::new().prefix("a/").tag("outer").pause(true);
    let (mid, after_inner) = Bogger::with(&mut slot, outer, |mut inside| {
        let mid = settings(&inside);
        let inner = BogContext::new().prefix("b/").lower(BogLevel::ERROR);
        let innermost = Bogger::with(&mut inside, inner, |innermost| {
            let seen = settings(&innermost);
            (innermost, seen)
        });
        let after_inner = settings(&inside);
        assert_eq!(
            innermost,
            ((100, 255), "b/".to_string(), "".to_string(), Some("outer".to_string()))
        );
        (inside, (mid, after_inner))
    });
    assert_eq!(mid, ((255, 255), "a/".to_string(), "".to_string(), Some("outer".to_string())));
    assert_eq!(after_inner, mid);
    assert_eq!(settings(&slot), before);
}

fn early(flag: bool) -> u8 {
    if flag {
        return 1;
    }
    2
}

#[test]
fn scope_restores_after_early_return() {
    let mut slot: Slot = None;
    init_bogger(&mut slot, true, false);
    Bogger::filter_below(&mut slot, BogLevel::WARN);
    let before = settings(&slot);
    let got = Bogger::with(&mut slot, BogContext::new().suffix("!").pause(true), |inside| {
        let r = early(true);
        (inside, r)
    });
    assert_eq!(got, 1);
    assert_eq!(settings(&slot), before);
}

#[test]
fn scope_on_a_fresh_logger_leaves_the_bounds() {
    // a logger that was just made has the threshold 0 beside the level DEBUG,
    // which is not the priority of that level: a scope leaves it so
    let mut slot: Slot = None;
    init_bogger(&mut slot, true, false);
    assert_eq!(settings(&slot).0, (0, 255));
    Bogger::with(&mut slot, BogContext::new(), |inside| (inside, ()));
    assert_eq!(settings(&slot).0, (0, 255));
    let bounds = slot.as_ref().unwrap().bounds();
    assert!(matches!(bounds.0 .1, BogLevel::DEBUG));
    assert!(matches!(bounds.1 .1, BogLevel::ERROR));
    assert_eq!(
        bog(&slot, BogLevel::DNOTE, "", "x"),
        Some("\x1b[30m[DNTE]\x1b[0m x\n".to_string())
    );
}

#[test]
fn scope_restores_bounds_that_were_set_by_hand() {
    let mut slot: Slot = None;
    init_bogger(&mut slot, false, false);
    slot.as_mut().unwrap().set_bounds(((7, BogLevel::NOTE), (9, BogLevel::DNOTE)));
    let before = settings(&slot);
    let ctx = BogContext::new().lower(BogLevel::WARN).upper(BogLevel::WARN).pause(true);
    Bogger::with(&mut slot, ctx, |inside| {
        assert_eq!(settings(&inside).0, (255, 80));
        (inside, ())
    });
    assert_eq!(settings(&slot), before);
    let bounds = slot.as_ref().unwrap().bounds();
    assert!(matches!(bounds.0 .1, BogLevel::NOTE));
    assert!(matches!(bounds.1 .1, BogLevel::DNOTE));
}

#[test]
fn scope_brings_the_tag_back() {
    // the scope set a tag and there was none before: none after
    let mut slot: Slot = None;
    init_bogger(&mut slot, true, false);
    Bogger::with(&mut slot, BogContext::new().tag("t"), |inside| {
        assert_eq!(settings(&inside).3, Some("t".to_string()));
        (inside, ())
    });
    assert_eq!(settings(&slot).3, None);
    // the scope set no tag and its body set one: none after
    Bogger::with(&mut slot, BogContext::new(), |mut inside| {
        inside.as_mut().unwrap().set_tag_override(Some("left".to_string()));
        (inside, ())
    });
    assert_eq!(settings(&slot).3, None);
    // there was a tag before: it comes back, whatever the scope and its body did
    slot.as_mut().unwrap().set_tag_override(Some("mine".to_string()));
    Bogger::with(&mut slot, BogContext::new(), |mut inside| {
        inside.as_mut().unwrap().set_tag_override(None);
        (inside, ())
    });
    assert_eq!(settings(&slot).3, Some("mine".to_string()));
    Bogger::with(&mut slot, BogContext::new().tag("t"), |mut inside| {
        inside.as_mut().unwrap().set_tag_override(Some("other".to_string()));
        (inside, ())
    });
    assert_eq!(settings(&slot).3, Some("mine".to_string()));
}

#[test]
fn scope_undoes_what_its_body_changed() {
    let mut slot: Slot = None;
    init_bogger(&mut slot, true, false);
    Bogger::filter_below(&mut slot, BogLevel::INFO);
    slot.as_mut().unwrap().set_suffix(";".to_string());
    let before = settings(&slot);
    Bogger::with(&mut slot, BogContext::new(), |mut inside| {
        Bogger::filter_below(&mut inside, BogLevel::ERROR);
        Bogger::downcast_above(&mut inside, BogLevel::DNOTE);
        Bogger::pause(&mut inside);
        inside.as_mut().unwrap().set_prefix("p".to_string());
        inside.as_mut().unwrap().set_suffix("s".to_string());
        (inside, ())
    });
    assert_eq!(settings(&slot), before);
}

#[test]
fn scope_around_a_logger_that_its_body_set_up() {
    // nothing was saved on entry: the logger keeps what the body gave it,
    // but for the tag where the context set one
    let mut slot: Slot = None;
    Bogger::with(&mut slot, BogContext::new().tag("t").prefix("p"), |mut inside| {
        init_bogger(&mut inside, true, false);
        inside.as_mut().unwrap().set_tag_override(Some("own".to_string()));
        inside.as_mut().unwrap().set_prefix("kept".to_string());
        (inside, ())
    });
    assert_eq!(settings(&slot), ((0, 255), "kept".to_string(), "".to_string(), None));
    let mut slot: Slot = None;
    Bogger::with(&mut slot, BogContext::new(), |mut inside| {
        init_bogger(&mut inside, true, false);
        inside.as_mut().unwrap().set_tag_override(Some("own".to_string()));
        (inside, ())
    });
    assert_eq!(settings(&slot).3, Some("own".to_string()));
}

#[test]
fn scope_keeps_a_paused_logger_paused() {
    let mut slot: Slot = None;
    init_bogger(&mut slot, true, false);
    Bogger::filter_below(&mut slot, BogLevel::INFO);
    Bogger::pause(&mut slot);
    let before = settings(&slot);
    Bogger::with(&mut slot, BogContext::new().lower(BogLevel::ALL), |inside| {
        assert_eq!(settings(&inside).0 .0, 0);
        (inside, ())
    });
    assert_eq!(settings(&slot), before);
    assert_eq!(settings(&slot).0 .0, 255);
}

#[test]
fn enter_and_leave_by_hand() {
    let mut slot: Slot = None;
    init_bogger(&mut slot, true, false);
    Bogger::filter_below(&mut slot, BogLevel::DNOTE);
    let before = settings(&slot);
    let ctx = BogContext::new().upper(BogLevel::INFO).pause(false).suffix("...");
    let snapshot = Bogger::enter(&mut slot, &ctx);
    assert_eq!(settings(&slot), ((20, 60), "".to_string(), "...".to_string(), None));
    Bogger::leave(&mut slot, snapshot, &ctx);
    assert_eq!(settings(&slot), before);
}

#[test]
fn paused_runs_silently() {
    let mut slot: Slot = None;
    init_bogger(&mut slot, true, false);
    Bogger::filter_below(&mut slot, BogLevel::INFO);
    let line = Bogger::paused(&mut slot, |inside| {
        let line = bog(&inside, BogLevel::NOTE, "", "quiet");
        (inside, line)
    });
    assert_eq!(line, None);
    assert_eq!(settings(&slot).0 .0, 60);
    assert!(bog(&slot, BogLevel::INFO, "", "loud").is_some());
}

#[test]
fn paused_leaves_a_paused_logger_paused() {
    let mut slot: Slot = None;
    init_bogger(&mut slot, true, false);
    Bogger::filter_below(&mut slot, BogLevel::INFO);
    Bogger::pause(&mut slot);
    let before = settings(&slot);
    let inside_threshold = Bogger::paused(&mut slot, |inside| {
        let seen = settings(&inside).0 .0;
        (inside, seen)
    });
    assert_eq!(inside_threshold, 255);
    assert_eq!(settings(&slot), before);
    assert_eq!(settings(&slot).0 .0, 255);
    assert_eq!(bog(&slot, BogLevel::ERROR, "", "still quiet"), None);
    Bogger::resume(&mut slot);
    assert_eq!(settings(&slot).0 .0, 60);
}

#[test]
fn paused_leaves_a_fresh_logger_as_it_was() {
    let mut slot: Slot = None;
    init_bogger(&mut slot, true, false);
    let before = settings(&slot);
    let line = Bogger::paused(&mut slot, |inside| {
        let line = bog(&inside, BogLevel::NOTE, "", "quiet");
        (inside, line)
    });
    assert_eq!(line, None);
    assert_eq!(settings(&slot), before);
    assert_eq!(settings(&slot).0, (0, 255));
    assert!(bog(&slot, BogLevel::ALL, "", "lowest").is_some());
}

#[test]
fn paused_keeps_the_other_settings() {
    let mut slot: Slot = None;
    init_bogger(&mut slot, true, false);
    slot.as_mut().unwrap().set_prefix("p ".to_string());
    slot.as_mut().unwrap().set_tag_override(Some("t".to_string()));
    Bogger::downcast_above(&mut slot, BogLevel::WARN);
    let before = settings(&slot);
    let inside = Bogger::paused(&mut slot, |inside| {
        let seen = settings(&inside);
        (inside, seen)
    });
    assert_eq!(inside, ((255, 80), "p ".to_string(), "".to_string(), Some("t".to_string())));
    assert_eq!(settings(&slot), before);
}

#[test]
fn result_is_downgraded_with_a_line() {
    let mut slot: Slot = None;
    init_bogger(&mut slot, true, false);
    let ok: Result<i32, String> = Ok(42);
    assert_eq!(BogOkExt::or_err(ok, &slot), (Some(42), None));
    let err: Result<i32, String> = Err("boom".to_string());
    assert_eq!(
        BogOkExt::or_err(err, &slot),
        (None, Some("\x1b[31m[ERRO]\x1b[0m boom\n".to_string()))
    );
    let err: Result<i32, String> = Err("boom".to_string());
    assert_eq!(
        BogOkExt::or_warn(err, &slot),
        (None, Some("\x1b[33m[WARN]\x1b[0m boom\n".to_string()))
    );
    let err: Result<i32, i32> = Err(7);
    assert_eq!(
        BogOkExt::or_err_tagged(err, &slot, "code"),
        (None, Some("\x1b[31m[ERRO: code]\x1b[0m 7\n".to_string()))
    );
    let err: Result<i32, i32> = Err(7);
    assert_eq!(
        BogOkExt::or_warn_tagged(err, &slot, "code"),
        (None, Some("\x1b[33m[WARN: code]\x1b[0m 7\n".to_string()))
    );
    let err: Result<i32, i32> = Err(7);
    assert_eq!(
        BogOkExt::or_bog(err, &slot, BogLevel::INFO),
        (None, Some("\x1b[32m[INFO]\x1b[0m 7\n".to_string()))
    );
    let err: Result<i32, i32> = Err(7);
    assert_eq!(
        BogOkExt::or_bog_tagged(err, &slot, BogLevel::DEBUG, "t"),
        (None, Some("\x1b[35m[DBUG: t]\x1b[0m 7\n".to_string()))
    );
    // a dropped message leaves no line
    Bogger::pause(&mut slot);
    let err: Result<i32, i32> = Err(7);
    assert_eq!(BogOkExt::or_err(err, &slot), (None, None));
}

#[test]
fn option_is_unwrapped_or_reported() {
    let mut slot: Slot = None;
    init_bogger(&mut slot, true, false);
    assert_eq!(BogUnwrapExt::or_err(Some(1), &slot, "missing"), Ok(1));
    let none: Option<i32> = None;
    assert_eq!(
        BogUnwrapExt::or_err(none, &slot, "missing"),
        Err(Some("\x1b[31m[ERRO]\x1b[0m missing\n".to_string()))
    );
    assert_eq!(
        BogUnwrapExt::or_err_tagged(none, &slot, "cfg", "missing"),
        Err(Some("\x1b[31m[ERRO: cfg]\x1b[0m missing\n".to_string()))
    );
    assert_eq!(
        BogUnwrapExt::or_bog(none, &slot, BogLevel::WARN, "missing"),
        Err(Some("\x1b[33m[WARN]\x1b[0m missing\n".to_string()))
    );
    assert_eq!(
        BogUnwrapExt::or_bog_tagged(none, &slot, BogLevel::INFO, "cfg", "missing"),
        Err(Some("\x1b[32m[INFO: cfg]\x1b[0m missing\n".to_string()))
    );
    let empty: Slot = None;
    assert_eq!(BogUnwrapExt::or_err(none, &empty, "missing"), Err(None));
}

struct Plain {}

impl BogFmter for Plain {
    fn begin_tag(&self, level: BogLevel) -> String {
        match level {
            BogLevel::ERROR => "E".to_string(),
            _ => "-".to_string(),
        }
    }

    fn end_tag(&self) -> &'static str {
        ">"
    }

    fn push_tag(&self, s: &mut String, tag: &str) {
        s.push_str(tag);
    }

    fn format(&self, level: BogLevel, tag: &str, msg: &str) -> String {
        let mut s = self.begin_tag(level);
        self.push_tag(&mut s, tag);
        s.push_str(self.end_tag());
        s.push_str(msg);
        s
    }

    fn priority(&self, level: &BogLevel) -> u8 {
        match level {
            BogLevel::CUSTOM(_) => 10,
            BogLevel::ERROR => 200,
            _ => 50,
        }
    }
}

#[test]
fn a_formatter_of_ones_own() {
    let mut b = GLOBAL_BOGGER_STRUCT::new(Plain {}, BogSink::Stdout);
    assert_eq!(b.bog(BogLevel::ERROR, "t", "m"), Some("Et>m\n".to_string()));
    b.filter_below(BogLevel::INFO);
    assert_eq!(b.bounds().0 .0, 50);
    assert_eq!(b.bog(BogLevel::CUSTOM("low"), "t", "m"), None);
    b.downcast_above(BogLevel::WARN);
    assert_eq!(b.bog(BogLevel::ERROR, "t", "m"), Some("-t>m\n".to_string()));
}

#[test]
fn init_global_replaces_the_logger() {
    let mut slot: Option<GLOBAL_BOGGER_STRUCT<Fg>> = None;
    GLOBAL_BOGGER_STRUCT::init_global(&mut slot, Fg {}, BogSink::Stdout);
    Bogger::pause(&mut slot);
    slot.as_mut().unwrap().set_prefix("p".to_string());
    GLOBAL_BOGGER_STRUCT::init_global(&mut slot, Fg {}, BogSink::Stderr);
    let b = slot.as_ref().unwrap();
    assert_eq!(b.sink(), BogSink::Stderr);
    assert_eq!(b.bounds().0 .0, 0);
    assert_eq!(b.prefix(), "");
}
