use rusty_pomo::args::Args;
use rusty_pomo::control::{command_for, Command, Key};
use rusty_pomo::notifications::notice_for;
use rusty_pomo::state::{AppState, PhaseKind};
use rusty_pomo::theme::{Rgb, Theme};
use rusty_pomo::time::{TimeSpan, Timestamp};
use rusty_pomo::ui::{format_mm_ss, phase_color, title_of};

#[test]
fn formats_mm_ss() {
    assert_eq!(format_mm_ss(TimeSpan::from_secs(0)), "00:00");
    assert_eq!(format_mm_ss(TimeSpan::from_secs(59)), "00:59");
    assert_eq!(format_mm_ss(TimeSpan::from_secs(60)), "01:00");
    assert_eq!(format_mm_ss(TimeSpan::from_secs(125)), "02:05");
}

#[test]
fn formats_long_and_fractional_spans() {
    assert_eq!(format_mm_ss(TimeSpan::from_millis(59_999)), "00:59");
    assert_eq!(format_mm_ss(TimeSpan::from_secs(25 * 60)), "25:00");
    assert_eq!(format_mm_ss(TimeSpan::from_secs(100 * 60 + 7)), "100:07");
    assert_eq!(format_mm_ss(TimeSpan::from_millis(u64::MAX)), "307445734561825:51");
}

#[test]
fn theme_colors() {
    let (bg, accent, ok) = Theme::Dracula.colors();
    assert_eq!(bg, Rgb { r: 40, g: 42, b: 54 });
    assert_eq!(accent, Rgb { r: 189, g: 147, b: 249 });
    assert_eq!(ok, Rgb { r: 80, g: 250, b: 123 });
    assert_eq!(Theme::SolarizedDark.colors().1, Rgb { r: 38, g: 139, b: 210 });
    assert_eq!(Theme::GruvboxDark.colors().2, Rgb { r: 184, g: 187, b: 38 });
}

#[test]
fn keys_map_to_commands() {
    assert_eq!(command_for(Key::Char(' ')), Some(Command::TogglePause));
    assert_eq!(command_for(Key::Char('n')), Some(Command::Skip));
    assert_eq!(command_for(Key::Char('r')), Some(Command::Reset));
    assert_eq!(command_for(Key::Char('q')), Some(Command::Quit));
    assert_eq!(command_for(Key::Esc), Some(Command::Quit));
    assert_eq!(command_for(Key::Char('x')), None);
    assert_eq!(command_for(Key::Other), None);
}

#[test]
fn notice_follows_configuration() {
    let mut args = Args::default();
    let n = notice_for(&args, PhaseKind::ShortBreak).unwrap();
    assert_eq!(n.kind, PhaseKind::ShortBreak);
    assert_eq!(n.summary, "Rusty Pomo · Short Break");
    assert_eq!(n.body, "Time for a quick breather.");
    assert_eq!(n.sound, "default");
    assert_eq!(n.timeout_secs, 10);
    args.notification_sound = Some("Ping".to_string());
    let n = notice_for(&args, PhaseKind::Focus).unwrap();
    assert_eq!(n.summary, "Rusty Pomo · Focus");
    assert_eq!(n.sound, "Ping");
    args.notifications = false;
    assert!(notice_for(&args, PhaseKind::LongBreak).is_none());
}

#[test]
fn advance_hands_out_notice_of_new_phase() {
    let mut app = AppState::new(Args::default()).unwrap();
    let n = app.advance_phase_at(Timestamp::from_secs(1)).unwrap();
    assert_eq!(n.kind, PhaseKind::ShortBreak);
    assert_eq!(n.body, "Time for a quick breather.");
}

#[test]
fn tick_advances_only_when_due_and_running() {
    let mut app = AppState::new(Args::default()).unwrap();
    app.reset_phase_at(Timestamp::from_secs(0));
    assert!(app.tick_at(Timestamp::from_secs(60)).is_none());
    assert_eq!(app.current_phase.kind, PhaseKind::Focus);
    app.toggle_pause_at(Timestamp::from_secs(1499));
    assert!(app.tick_at(Timestamp::from_secs(5000)).is_none());
    assert_eq!(app.current_phase.kind, PhaseKind::Focus);
    app.toggle_pause_at(Timestamp::from_secs(1500));
    assert!(!app.is_phase_due(Timestamp::from_secs(1500)));
    assert!(app.is_phase_due(Timestamp::from_secs(1501)));
    let n = app.tick_at(Timestamp::from_secs(1501));
    assert_eq!(n.map(|n| n.kind), Some(PhaseKind::ShortBreak));
    assert_eq!(app.phase_started_at, Timestamp::from_secs(1501));
}

#[test]
fn apply_carries_out_commands() {
    let mut app = AppState::new(Args::default()).unwrap();
    app.reset_phase_at(Timestamp::from_secs(0));
    assert!(app.apply_at(Command::TogglePause, Timestamp::from_secs(5)).is_none());
    assert!(app.paused);
    app.apply_at(Command::Quit, Timestamp::from_secs(6));
    assert!(app.paused);
    app.apply_at(Command::Reset, Timestamp::from_secs(7));
    assert!(!app.paused);
    assert_eq!(app.phase_started_at, Timestamp::from_secs(7));
    let n = app.apply_at(Command::Skip, Timestamp::from_secs(8));
    assert_eq!(n.map(|n| n.kind), Some(PhaseKind::ShortBreak));
}

#[test]
fn titles_and_colors_of_phases() {
    assert_eq!(title_of(PhaseKind::Focus), "Focus");
    assert_eq!(title_of(PhaseKind::ShortBreak), "Short Break");
    assert_eq!(title_of(PhaseKind::LongBreak), "Long Break");
    assert_eq!(phase_color(Theme::Dracula, PhaseKind::Focus), Rgb { r: 189, g: 147, b: 249 });
    assert_eq!(phase_color(Theme::Dracula, PhaseKind::LongBreak), Rgb { r: 80, g: 250, b: 123 });
    assert_eq!(phase_color(Theme::GruvboxDark, PhaseKind::ShortBreak), Rgb { r: 184, g: 187, b: 38 });
}
