use rustlog::local::{Logger, LoggerBuilder, TimerGuard};
use rustlog::{
    emit, set_level, set_show_file_line, set_show_group, set_show_thread_id, set_show_time,
    set_target, set_writer, Clock, ColorMode, Context, DefaultLogger, Emission, FileError, Level,
    Route, Settings, Target,
};
use std::sync::{Arc, Mutex};

type Mem = Arc<Mutex<Vec<u8>>>;

const FILE: &str = "tests/local_logger.rs";

fn cx() -> Context<'static> {
    Context {
        now: Clock::Utc {
            secs: 1_700_000_000,
            millis: 7,
        },
        thread: "ThreadId(2)",
        stdout_tty: false,
        stderr_tty: false,
        optimized: false,
    }
}

fn mem() -> Mem {
    Arc::new(Mutex::new(Vec::new()))
}

fn text_of(buf: &Mem) -> String {
    String::from_utf8(buf.lock().unwrap().clone()).unwrap()
}

fn write_to(w: Option<&Mem>, e: Option<Emission>) {
    if let Some(e) = e {
        if e.route == Route::Writer {
            w.expect("a line for the writer needs a writer")
                .lock()
                .unwrap()
                .extend_from_slice(e.text.as_bytes());
        }
    }
}

fn glog(g: &mut DefaultLogger<Mem>, l: Level, line: u32, msg: &str) {
    let e = emit(g, l, None, FILE, line, msg, &cx());
    write_to(g.writer(), e);
}

fn llog(lg: &Logger<Mem>, l: Level, group: Option<&str>, line: u32, msg: &str) {
    let e = lg.emit_to(l, group, FILE, line, msg, &cx());
    write_to(lg.writer(), e);
}

#[test]
fn default_and_local_coexist_and_use_own_settings() {
    let g_buf = mem();
    let l_buf = mem();

    let mut g: DefaultLogger<Mem> = DefaultLogger::new();
    set_writer(&mut g, g_buf.clone());
    set_target(&mut g, Target::Writer);
    set_level(&mut g, Level::Info);
    set_show_time(&mut g, false);
    set_show_thread_id(&mut g, false);
    set_show_group(&mut g, false);
    set_show_file_line(&mut g, false);

    let lg = Logger::builder()
        .set_writer(l_buf.clone())
        .set_level(Level::Trace)
        .set_show_time(false)
        .set_show_thread_id(false)
        .set_show_group(false)
        .set_show_file_line(true)
        .build_static(None)
        .unwrap();

    glog(&mut g, Level::Info, 1, "G: info");
    glog(&mut g, Level::Debug, 2, "G: debug (filtered)");

    llog(lg, Level::Info, None, 3, "L: info");
    llog(lg, Level::Debug, None, 4, "L: debug");

    let g = text_of(&g_buf);
    let l = text_of(&l_buf);

    assert!(g.contains("G: info"), "global should include INFO");
    assert!(
        !g.contains("G: debug"),
        "global should filter DEBUG at INFO level"
    );
    assert!(
        !g.contains("L: info"),
        "global writer must not receive local logs"
    );
    assert!(
        !g.contains("L: debug"),
        "global writer must not receive local logs"
    );

    assert!(l.contains("L: info"), "local should include INFO");
    assert!(
        l.contains("L: debug"),
        "local should include DEBUG at TRACE level"
    );
    assert!(
        !l.contains("G: info"),
        "local writer must not receive global logs"
    );

    let fname = FILE;
    assert!(!g.contains(fname), "global should hide file:line");
    assert!(l.contains(fname), "local should show file:line");
}

#[test]
fn two_loggers_are_apart() {
    let a_buf = mem();
    let b_buf = mem();
    let mut a = Logger::builder()
        .set_writer(a_buf.clone())
        .set_show_time(false)
        .set_show_thread_id(false)
        .set_show_file_line(false)
        .build(None)
        .unwrap();
    let b = Logger::builder()
        .set_writer(b_buf.clone())
        .set_show_time(false)
        .set_show_thread_id(false)
        .set_show_file_line(false)
        .build(None)
        .unwrap();
    let b_before = b.settings();
    a.set_level(Level::Error);
    a.set_color_mode(ColorMode::Always);
    a.set_show_group(false);
    assert_eq!(b.settings(), b_before);
    assert_eq!(b.target(), Target::Writer);
    assert!(Arc::ptr_eq(b.writer().unwrap(), &b_buf));
    llog(&a, Level::Info, None, 1, "a: held back");
    llog(&b, Level::Info, Some("g"), 2, "b: info");
    llog(&a, Level::Error, Some("g"), 3, "a: error");
    assert_eq!(text_of(&a_buf), "\u{1b}[31mERROR\u{1b}[0m a: error\n");
    assert_eq!(text_of(&b_buf), "INFO  [g] b: info\n");
}

#[test]
fn a_logger_starts_with_the_usual_settings() {
    let lg: Logger<Mem> = Logger::default();
    assert_eq!(lg.settings(), Settings::new());
    assert_eq!(lg.settings().level, Level::Info);
    assert!(lg.settings().show_group);
    assert_eq!(lg.settings().color_mode, ColorMode::Auto);
    assert_eq!(lg.target(), Target::Stderr);
    assert_eq!(lg.fixed_target(), None);
    assert!(lg.writer().is_none());
    let built: Logger<Mem> = Logger::builder().build(None).unwrap();
    assert_eq!(built.settings(), lg.settings());
    assert_eq!(built.target(), Target::Stderr);
    assert_eq!(built.fixed_target(), None);
    assert!(built.writer().is_none());
    assert!(lg.enabled(Level::Info));
    assert!(lg.enabled(Level::Fatal));
    assert!(!lg.enabled(Level::Debug));
}

#[test]
fn the_builder_takes_every_choice() {
    let w = mem();
    let lg = Logger::builder()
        .set_level(Level::Warn)
        .set_show_thread_id(false)
        .set_show_time(false)
        .set_show_group(false)
        .set_show_file_line(false)
        .set_color_mode(ColorMode::Never)
        .set_writer(w.clone())
        .build(None)
        .unwrap();
    assert_eq!(
        lg.settings(),
        Settings {
            level: Level::Warn,
            show_tid: false,
            show_time: false,
            show_group: false,
            show_file_line: false,
            color_mode: ColorMode::Never,
        }
    );
    assert_eq!(lg.target(), Target::Writer);
    assert!(Arc::ptr_eq(lg.writer().unwrap(), &w));

    let b: LoggerBuilder<Mem> = Logger::builder().stdout();
    assert_eq!(b.build(None).unwrap().target(), Target::Stdout);
    let b: LoggerBuilder<Mem> = Logger::builder().stdout().stderr();
    assert_eq!(b.build(None).unwrap().target(), Target::Stderr);
}

#[test]
fn a_pending_file_has_to_be_opened() {
    let b: LoggerBuilder<Mem> = Logger::builder().file("/tmp/app.log");
    assert_eq!(b.pending_file(), Some("/tmp/app.log"));
    assert!(matches!(b.build(None), Err(FileError)));

    let file = mem();
    let b: LoggerBuilder<Mem> = Logger::builder().file("/tmp/app.log");
    let lg = b.build(Some(file.clone())).unwrap();
    assert_eq!(lg.target(), Target::Writer);
    assert!(Arc::ptr_eq(lg.writer().unwrap(), &file));

    let b: LoggerBuilder<Mem> = Logger::builder().file("/tmp/app.log");
    assert!(matches!(b.build_static(None), Err(FileError)));
}

#[test]
fn a_file_takes_the_place_of_a_writer() {
    let w = mem();
    let file = mem();
    let b = Logger::builder().set_writer(w.clone()).file("out.log");
    assert_eq!(b.pending_file(), Some("out.log"));
    let lg = b.build(Some(file.clone())).unwrap();
    assert!(Arc::ptr_eq(lg.writer().unwrap(), &file));
}

#[test]
fn a_file_that_is_no_longer_the_target_is_not_pending() {
    let b: LoggerBuilder<Mem> = Logger::builder().file("out.log").stdout();
    assert_eq!(b.pending_file(), None);
    let lg = b.build(None).unwrap();
    assert_eq!(lg.target(), Target::Stdout);
    assert!(lg.writer().is_none());

    let w = mem();
    let spare = mem();
    let b = Logger::builder().set_writer(w.clone()).stderr();
    assert_eq!(b.pending_file(), None);
    let lg = b.build(Some(spare)).unwrap();
    assert_eq!(lg.target(), Target::Stderr);
    assert!(Arc::ptr_eq(lg.writer().unwrap(), &w));
}

#[test]
fn a_local_sink_is_fixed_by_the_first_call() {
    let mut lg: Logger<Mem> = Logger::default();
    lg.set_target(Target::Stdout);
    assert_eq!(lg.target(), Target::Stdout);
    lg.set_target(Target::Writer);
    assert_eq!(lg.target(), Target::Stdout);
    let e = lg.emit_to(Level::Info, None, FILE, 1, "m", &cx()).unwrap();
    assert_eq!(e.route, Route::Stdout);

    let first = mem();
    let second = mem();
    let mut lg: Logger<Mem> = Logger::builder().build(None).unwrap();
    lg.set_writer(first.clone());
    assert_eq!(lg.target(), Target::Writer);
    lg.set_writer(second.clone());
    assert!(Arc::ptr_eq(lg.writer().unwrap(), &first));
    lg.set_target(Target::Stderr);
    assert_eq!(lg.target(), Target::Writer);
    assert_eq!(lg.set_file(None), Err(FileError));
    assert_eq!(lg.set_file(Some(second.clone())), Ok(()));
    assert!(Arc::ptr_eq(lg.writer().unwrap(), &first));
    let e = lg.emit_to(Level::Info, None, FILE, 1, "m", &cx()).unwrap();
    assert_eq!(e.route, Route::Writer);

    let mut lg: Logger<Mem> = Logger::default();
    lg.set_target(Target::Writer);
    let e = lg.emit_to(Level::Info, None, FILE, 1, "m", &cx()).unwrap();
    assert_eq!(e.route, Route::Nowhere);
    lg.set_writer(first.clone());
    let e = lg.emit_to(Level::Info, None, FILE, 1, "m", &cx()).unwrap();
    assert_eq!(e.route, Route::Writer);
}

#[test]
fn what_the_builder_chose_is_no_call() {
    for chosen in [Target::Stdout, Target::Stderr] {
        for first in [Target::Stdout, Target::Stderr, Target::Writer] {
            for later in [Target::Stdout, Target::Stderr, Target::Writer] {
                let b: LoggerBuilder<Mem> = Logger::builder();
                let b = if chosen == Target::Stdout {
                    b.stdout()
                } else {
                    b.stderr()
                };
                let mut lg = b.build(None).unwrap();
                assert_eq!(lg.target(), chosen);
                assert_eq!(lg.fixed_target(), None);
                lg.set_target(first);
                assert_eq!(lg.target(), first);
                assert_eq!(lg.fixed_target(), Some(first));
                lg.set_target(later);
                assert_eq!(lg.target(), first);
            }
        }
    }

    let chosen = mem();
    let first = mem();
    let second = mem();
    let mut lg = Logger::builder()
        .set_writer(chosen.clone())
        .stdout()
        .build(None)
        .unwrap();
    assert_eq!(lg.target(), Target::Stdout);
    assert!(Arc::ptr_eq(lg.writer().unwrap(), &chosen));
    lg.set_writer(first.clone());
    assert_eq!(lg.target(), Target::Writer);
    assert!(Arc::ptr_eq(lg.writer().unwrap(), &first));
    lg.set_writer(second.clone());
    assert!(Arc::ptr_eq(lg.writer().unwrap(), &first));
    lg.set_target(Target::Stdout);
    assert_eq!(lg.target(), Target::Writer);
}

#[test]
fn a_local_logger_has_the_floor_of_its_build() {
    let fast = Context {
        optimized: true,
        ..cx()
    };
    let lg: Logger<Mem> = Logger::builder()
        .set_level(Level::Trace)
        .build(None)
        .unwrap();
    assert!(lg.enabled(Level::Trace));
    assert!(lg.emit_to(Level::Trace, None, FILE, 1, "t", &fast).is_none());
    assert!(lg.emit_to(Level::Debug, None, FILE, 1, "d", &fast).is_none());
    assert!(lg.emit_to(Level::Info, None, FILE, 1, "i", &fast).is_some());
    assert!(lg.emit_to(Level::Trace, None, FILE, 1, "t", &cx()).is_some());
    let quiet = TimerGuard::new_at(&lg, "on", FILE, 1, 0);
    assert!(quiet.finish(5, &fast).is_some());
}

#[test]
fn local_color_depends_on_the_target() {
    let tty = Context {
        stdout_tty: false,
        stderr_tty: true,
        ..cx()
    };
    let mut lg: Logger<Mem> = Logger::default();
    assert!(lg.use_color_for_target(Target::Stderr, &tty));
    assert!(!lg.use_color_for_target(Target::Stdout, &tty));
    assert!(!lg.use_color_for_target(Target::Writer, &tty));
    lg.set_color_mode(ColorMode::Never);
    assert!(!lg.use_color_for_target(Target::Stderr, &tty));
    lg.set_color_mode(ColorMode::Always);
    assert!(lg.use_color_for_target(Target::Writer, &tty));
    lg.set_color_mode(ColorMode::Auto);
    lg.set_show_time(false);
    lg.set_show_thread_id(false);
    lg.set_show_file_line(false);
    let e = lg.emit_to(Level::Info, None, FILE, 1, "m", &tty).unwrap();
    assert_eq!(e.route, Route::Stderr);
    assert_eq!(e.text, "\u{1b}[32mINFO \u{1b}[0m m\n");
}

#[test]
fn local_scope_time_block_only_writes_to_local() {
    let g_buf = mem();
    let mut g: DefaultLogger<Mem> = DefaultLogger::new();
    set_writer(&mut g, g_buf.clone());
    set_target(&mut g, Target::Writer);
    set_level(&mut g, Level::Info);
    set_show_time(&mut g, false);
    set_show_group(&mut g, false);
    set_show_file_line(&mut g, false);

    let l_buf = mem();
    let lg = Logger::builder()
        .set_writer(l_buf.clone())
        .set_level(Level::Trace)
        .set_show_time(false)
        .set_show_group(true)
        .set_show_file_line(true)
        .build_static(None)
        .unwrap();

    let guard = TimerGuard::new_at(lg, "block-run", FILE, 1, 0);
    let e = guard.finish(5_000_000, &cx());
    write_to(lg.writer(), e);

    let g = text_of(&g_buf);
    let l = text_of(&l_buf);

    assert!(
        l.contains("[block-run] took"),
        "label + 'took' should appear in local"
    );
    assert!(
        l.contains(FILE),
        "file:line should be present for local logger"
    );
    assert!(g.is_empty(), "global must remain empty");
}

#[test]
fn scope_time_local_block_and_raii() {
    let l_buf = mem();
    let lg = Logger::builder()
        .set_writer(l_buf.clone())
        .set_level(Level::Trace)
        .set_show_time(false)
        .set_show_group(true)
        .set_show_file_line(true)
        .build_static(None)
        .unwrap();

    let guard = TimerGuard::new_at(lg, "local-block", FILE, 10, 1_000);
    let e = guard.finish(5_001_000, &cx());
    write_to(lg.writer(), e);

    let after_block = text_of(&l_buf);
    assert!(
        after_block.contains("local-block"),
        "local block label should appear (group)"
    );
    assert!(
        after_block.contains("took "),
        "local block should contain 'took {{HumanDuration}}'"
    );
    assert!(
        after_block.contains(FILE),
        "local block should contain file:line"
    );

    let before_len = l_buf.lock().unwrap().len();
    {
        let guard = TimerGuard::new_at(lg, "local-raii", FILE, 20, 0);
        let during_len = l_buf.lock().unwrap().len();
        assert_eq!(
            during_len, before_len,
            "local RAII should not log before scope ends"
        );
        let e = guard.finish(65_000_000_000, &cx());
        write_to(lg.writer(), e);
    }

    let after_raii = text_of(&l_buf);
    assert!(
        after_raii.contains("local-raii"),
        "local RAII label should appear (group)"
    );
    assert!(
        after_raii.contains("took "),
        "local RAII should contain 'took {{HumanDuration}}'"
    );
    assert!(
        after_raii.contains(FILE),
        "local RAII should contain file:line"
    );
    assert_eq!(
        after_raii,
        "INFO  [ThreadId(2)] <tests/local_logger.rs:10> [local-block] took 5.000 ms\n\
         INFO  [ThreadId(2)] <tests/local_logger.rs:20> [local-raii] took 1m05.000s\n"
    );
}

#[test]
fn a_local_timer_goes_through_its_own_logger() {
    let a_buf = mem();
    let b_buf = mem();
    let a = Logger::builder()
        .set_writer(a_buf.clone())
        .set_level(Level::Warn)
        .build(None)
        .unwrap();
    let b = Logger::builder()
        .set_writer(b_buf.clone())
        .set_show_time(false)
        .set_show_thread_id(false)
        .set_show_file_line(false)
        .build(None)
        .unwrap();
    let quiet = TimerGuard::new_at(&a, "quiet", FILE, 1, 0);
    let loud = TimerGuard::new_at(&b, "loud", FILE, 2, 0);
    assert!(quiet.finish(1_500, &cx()).is_none());
    let e = loud.finish(1_500, &cx()).unwrap();
    assert_eq!(e.route, Route::Writer);
    assert_eq!(e.text, "INFO  [loud] took 1 us\n");
}
