use tempfile::TempDir;
use timers::app::{App, CurrentScreen, CurrentlyEditing, Key, KeyOutcome};
use timers::db::Db;
use timers::errors::TimerError;
use timers::rows::selectable_mask;
use timers::throbber::Throbber;
use timers::timer::Timer;

fn fresh_app(temp_dir: &TempDir) -> App {
    let db_path = temp_dir.path().join("model.db");
    let db = Db::new(db_path.to_str().unwrap());
    App::new(db, 0)
}

fn add_named(app: &mut App, name: &str, now_ms: i64) {
    app.name_input = name.to_string();
    app.description_input = String::new();
    app.add_timer_at(now_ms).unwrap();
}

#[test]
fn test_only_last_added_runs() {
    let dir = TempDir::new().unwrap();
    let mut app = fresh_app(&dir);
    add_named(&mut app, "A", 1000);
    add_named(&mut app, "B", 2000);
    add_named(&mut app, "C", 3000);
    assert_eq!(app.timers.len(), 3);
    assert!(!app.timers[0].running);
    assert!(!app.timers[1].running);
    assert!(app.timers[2].running);
}

#[test]
fn test_tick_accumulates_whole_seconds() {
    let dir = TempDir::new().unwrap();
    let mut app = fresh_app(&dir);
    add_named(&mut app, "A", 1000);
    assert_eq!(app.timers[0].duration_s, 0);
    // Four sub-second steps spanning 1.1 seconds: exactly one increment.
    assert_eq!(app.tick(1300), 0);
    assert_eq!(app.tick(1600), 0);
    assert_eq!(app.tick(1900), 0);
    assert_eq!(app.tick(2100), 1);
    assert_eq!(app.timers[0].duration_s, 1);
    // A repeated render at the same instant adds nothing.
    assert_eq!(app.tick(2100), 0);
    assert_eq!(app.timers[0].duration_s, 1);
    // In total, floor((3050 - 1000) / 1000) = 2 seconds by now.
    assert_eq!(app.tick(3050), 1);
    assert_eq!(app.timers[0].duration_s, 2);
}

#[test]
fn test_tick_ignores_stopped_timer() {
    let dir = TempDir::new().unwrap();
    let mut app = fresh_app(&dir);
    add_named(&mut app, "A", 1000);
    app.toggle_timer_at(1500);
    assert!(!app.timers[0].running);
    app.tick(5000);
    assert_eq!(app.timers[0].duration_s, 0);
}

#[test]
fn test_edit_empty_name_rejected() {
    let dir = TempDir::new().unwrap();
    let mut app = fresh_app(&dir);
    add_named(&mut app, "A", 1000);
    app.refresh_mask();
    app.selected = 1;
    app.name_input = String::new();
    app.description_input = "changed".to_string();
    let r = app.edit_timer();
    assert_eq!(r, Err(TimerError::ValidationError));
    assert_eq!(app.timers[0].name.as_str(), "A");
    assert_eq!(app.timers[0].description.as_str(), "");
    let stored = app.db.get_timers_from_db().unwrap();
    assert_eq!(stored[0].name.as_str(), "A");
}

#[test]
fn test_delete_removes_from_list_and_store() {
    let dir = TempDir::new().unwrap();
    let mut app = fresh_app(&dir);
    add_named(&mut app, "A", 1000);
    add_named(&mut app, "B", 2000);
    app.refresh_mask();
    // Rows: [header, A, B]; select A's row.
    app.selected = 1;
    let deleted_id = app.timers[0].id;
    app.delete_selected_timer().unwrap();
    assert_eq!(app.timers.len(), 1);
    assert_eq!(app.timers[0].name.as_str(), "B");
    let stored = app.db.get_timers_from_db().unwrap();
    assert_eq!(stored.len(), 1);
    assert!(stored.iter().all(|t| t.id != deleted_id));
}

#[test]
fn test_insert_list_roundtrip() {
    let dir = TempDir::new().unwrap();
    let db_path = dir.path().join("rt.db");
    let mut db = Db::new(db_path.to_str().unwrap());
    let mut timer = Timer::new("alpha".to_string(), "beta".to_string(), 1_700_000_000_123);
    db.add_timer_to_db(&mut timer).unwrap();
    assert!(timer.id >= 1);
    let stored = db.get_timers_from_db().unwrap();
    assert_eq!(stored.len(), 1);
    let back = &stored[0];
    assert_eq!(back.name.as_str(), "alpha");
    assert_eq!(back.description.as_str(), "beta");
    assert_eq!(back.start_time_s, 1_700_000_000);
    assert_eq!(back.duration_s, 0);
    assert_eq!(back.running, true);
    assert_eq!(back.id, timer.id);
}

#[test]
fn test_selection_skips_headers_and_wraps() {
    let dir = TempDir::new().unwrap();
    let mut app = fresh_app(&dir);
    app.selectable_rows = vec![false, true, true, false, true];
    app.selected = 1;
    app.next_row();
    assert_eq!(app.selected, 2);
    app.next_row();
    assert_eq!(app.selected, 4);
    app.next_row();
    assert_eq!(app.selected, 1);
    app.previous_row();
    assert_eq!(app.selected, 4);
}

#[test]
fn test_toggle_last_stops_then_resumes() {
    let dir = TempDir::new().unwrap();
    let mut app = fresh_app(&dir);
    add_named(&mut app, "A", 1000);
    add_named(&mut app, "B", 2000);
    add_named(&mut app, "C", 3000);
    assert!(app.timers[2].running);
    app.toggle_timer_at(4000);
    assert!(!app.timers[0].running);
    assert!(!app.timers[1].running);
    assert!(!app.timers[2].running);
    app.toggle_timer_at(5000);
    assert!(!app.timers[0].running);
    assert!(!app.timers[1].running);
    assert!(app.timers[2].running);
}

#[test]
fn test_store_count_tracks_insert_and_delete() {
    let dir = TempDir::new().unwrap();
    let db_path = dir.path().join("count.db");
    let mut db = Db::new(db_path.to_str().unwrap());
    assert_eq!(db.count().unwrap(), 0);
    let mut timer = Timer::new("one".to_string(), String::new(), 1000);
    db.add_timer_to_db(&mut timer).unwrap();
    assert_eq!(db.count().unwrap(), 1);
    db.delete_timer(timer.id).unwrap();
    assert_eq!(db.count().unwrap(), 0);
}

#[test]
fn test_delete_unknown_id_not_found() {
    let dir = TempDir::new().unwrap();
    let mut app = fresh_app(&dir);
    // A record the store never saw: its id is unknown there.
    app.timers = vec![Timer::new("ghost".to_string(), String::new(), 1000)];
    app.selectable_rows = vec![true];
    app.selected = 0;
    let r = app.delete_selected_timer();
    assert_eq!(r, Err(TimerError::NotFoundError));
    assert_eq!(app.timers.len(), 1);
}

#[test]
fn test_add_empty_name_rejected() {
    let dir = TempDir::new().unwrap();
    let mut app = fresh_app(&dir);
    app.name_input = String::new();
    app.description_input = "d".to_string();
    let r = app.add_timer_at(1000);
    assert_eq!(r, Err(TimerError::ValidationError));
    assert_eq!(app.timers.len(), 0);
    assert_eq!(app.db.count().unwrap(), 0);
}

#[test]
fn test_locked_store_reports_storage_error() {
    let dir = TempDir::new().unwrap();
    let db_path = dir.path().join("locked.db");
    let path = db_path.to_str().unwrap();
    let mut db = Db::new(path);
    let blocker = rusqlite::Connection::open(path).unwrap();
    blocker.execute_batch("BEGIN EXCLUSIVE").unwrap();
    let mut timer = Timer::new("x".to_string(), String::new(), 1000);
    let r = db.add_timer_to_db(&mut timer);
    assert_eq!(r, Err(TimerError::StorageError));
    assert_eq!(timer.id, 0);
}

#[test]
fn test_formatted_duration_renders_hh_mm_ss() {
    let mut t = Timer::new("x".to_string(), String::new(), 0);
    assert_eq!(t.formatted_duration().as_str(), "00:00:00");
    t.duration_s = 3661;
    assert_eq!(t.formatted_duration().as_str(), "01:01:01");
    t.duration_s = 59;
    assert_eq!(t.formatted_duration().as_str(), "00:00:59");
    t.duration_s = 360_000 + 120 + 3;
    assert_eq!(t.formatted_duration().as_str(), "100:02:03");
}

#[test]
fn test_formatted_date_renders_day_month_year() {
    // 2024-01-01T00:00:00Z.
    let t = Timer::new("x".to_string(), String::new(), 1_704_067_200_000);
    assert_eq!(t.formatted_date().as_str(), "01-01-2024");
}

#[test]
fn test_selectable_mask_groups_by_date() {
    // Two records on one day, one on the next: a header row before each
    // group, a selectable row per record.
    let day: i64 = 86_400_000;
    let timers = vec![
        Timer::new("a".to_string(), String::new(), 0),
        Timer::new("b".to_string(), String::new(), 1000),
        Timer::new("c".to_string(), String::new(), day),
    ];
    let mask = selectable_mask(&timers);
    assert_eq!(mask, vec![false, true, true, false, true]);
    assert_eq!(selectable_mask(&Vec::<Timer>::new()), Vec::<bool>::new());
}

#[test]
fn test_timer_index_counts_selectable_rows() {
    let dir = TempDir::new().unwrap();
    let mut app = fresh_app(&dir);
    app.timers = vec![
        Timer::new("a".to_string(), String::new(), 0),
        Timer::new("b".to_string(), String::new(), 1000),
    ];
    app.selectable_rows = vec![false, true, true];
    assert_eq!(app.get_timer_index_from_selection(1), Some(0));
    assert_eq!(app.get_timer_index_from_selection(2), Some(1));
    // A header row maps by the selectable rows before it.
    assert_eq!(app.get_timer_index_from_selection(0), Some(0));
    // Out of range: no timer.
    assert_eq!(app.get_timer_index_from_selection(9), None);
    assert_eq!(app.get_timer_index_from_selection(3), None);
}

#[test]
fn test_on_frame_persists_durations() {
    let dir = TempDir::new().unwrap();
    let mut app = fresh_app(&dir);
    add_named(&mut app, "A", 1000);
    app.on_frame(3500).unwrap();
    assert_eq!(app.timers[0].duration_s, 2);
    let stored = app.db.get_timers_from_db().unwrap();
    assert_eq!(stored[0].duration_s, 2);
    assert_eq!(stored[0].running, true);
}

#[test]
fn test_add_screen_flow_commits_timer() {
    let dir = TempDir::new().unwrap();
    let mut app = fresh_app(&dir);
    // Alt+i opens the add screen with the name field focused.
    assert_eq!(app.handle_key(Key::AltChar('i'), 100), Ok(KeyOutcome::Continue));
    assert_eq!(app.current_screen, CurrentScreen::Add);
    assert_eq!(app.currently_editing, Some(CurrentlyEditing::Name));
    app.handle_key(Key::Char('h'), 110).unwrap();
    app.handle_key(Key::Char('i'), 120).unwrap();
    // Submit on the name field only advances to the description field.
    app.handle_key(Key::Enter, 130).unwrap();
    assert_eq!(app.currently_editing, Some(CurrentlyEditing::Description));
    assert_eq!(app.current_screen, CurrentScreen::Add);
    app.handle_key(Key::Char('d'), 140).unwrap();
    // Submit on the description field commits and returns to the main screen.
    app.handle_key(Key::Enter, 150).unwrap();
    assert_eq!(app.current_screen, CurrentScreen::Main);
    assert_eq!(app.timers.len(), 1);
    assert_eq!(app.timers[0].name.as_str(), "hi");
    assert_eq!(app.timers[0].description.as_str(), "d");
    assert_eq!(app.name_input.as_str(), "");
}

#[test]
fn test_backspace_edits_staging_buffer() {
    let dir = TempDir::new().unwrap();
    let mut app = fresh_app(&dir);
    app.handle_key(Key::AltChar('i'), 0).unwrap();
    app.handle_key(Key::Char('a'), 0).unwrap();
    app.handle_key(Key::Char('b'), 0).unwrap();
    app.handle_key(Key::Backspace, 0).unwrap();
    assert_eq!(app.name_input.as_str(), "a");
    // Escape discards the staging buffers.
    app.handle_key(Key::Esc, 0).unwrap();
    assert_eq!(app.current_screen, CurrentScreen::Main);
    assert_eq!(app.name_input.as_str(), "");
}

#[test]
fn test_exit_screen_confirmation() {
    let dir = TempDir::new().unwrap();
    let mut app = fresh_app(&dir);
    app.handle_key(Key::Esc, 0).unwrap();
    assert_eq!(app.current_screen, CurrentScreen::Exit);
    // Deny: back to the main screen.
    assert_eq!(app.handle_key(Key::Char('n'), 0), Ok(KeyOutcome::Continue));
    assert_eq!(app.current_screen, CurrentScreen::Main);
    // Confirm with 'y': quit.
    app.handle_key(Key::Esc, 0).unwrap();
    assert_eq!(app.handle_key(Key::Char('y'), 0), Ok(KeyOutcome::Quit));
    // Enter quits only with the yes button highlighted.
    assert_eq!(app.handle_key(Key::Enter, 0), Ok(KeyOutcome::Continue));
    app.handle_key(Key::Esc, 0).unwrap();
    app.handle_key(Key::Tab, 0).unwrap();
    assert_eq!(app.handle_key(Key::Enter, 0), Ok(KeyOutcome::Quit));
}

#[test]
fn test_delete_needs_confirmation_within_window() {
    let dir = TempDir::new().unwrap();
    let mut app = fresh_app(&dir);
    add_named(&mut app, "A", 1000);
    app.refresh_mask();
    app.selected = 1;
    // One press only arms the gesture.
    app.handle_key(Key::Char('d'), 2000).unwrap();
    assert_eq!(app.timers.len(), 1);
    // A second press after the window re-arms instead of deleting.
    app.handle_key(Key::Char('d'), 2600).unwrap();
    assert_eq!(app.timers.len(), 1);
    // A second press within the window deletes.
    app.handle_key(Key::Char('d'), 2900).unwrap();
    assert_eq!(app.timers.len(), 0);
    assert_eq!(app.db.count().unwrap(), 0);
}

#[test]
fn test_other_key_disarms_delete() {
    let dir = TempDir::new().unwrap();
    let mut app = fresh_app(&dir);
    add_named(&mut app, "A", 1000);
    app.refresh_mask();
    app.selected = 1;
    app.handle_key(Key::Char('d'), 2000).unwrap();
    app.handle_key(Key::Other, 2100).unwrap();
    app.handle_key(Key::Char('d'), 2200).unwrap();
    assert_eq!(app.timers.len(), 1);
}

#[test]
fn test_edit_screen_flow_renames_record() {
    let dir = TempDir::new().unwrap();
    let mut app = fresh_app(&dir);
    add_named(&mut app, "old", 1000);
    app.refresh_mask();
    app.selected = 1;
    app.handle_key(Key::Char('e'), 2000).unwrap();
    assert_eq!(app.current_screen, CurrentScreen::Edit);
    assert_eq!(app.name_input.as_str(), "old");
    app.handle_key(Key::Char('!'), 2100).unwrap();
    app.handle_key(Key::Enter, 2200).unwrap();
    app.handle_key(Key::Enter, 2300).unwrap();
    assert_eq!(app.current_screen, CurrentScreen::Main);
    assert_eq!(app.timers[0].name.as_str(), "old!");
    let stored = app.db.get_timers_from_db().unwrap();
    assert_eq!(stored[0].name.as_str(), "old!");
}

#[test]
fn test_throbber_cycles_four_states() {
    let mut th = Throbber::new();
    assert_eq!(th.get_state_string(), "-");
    th.tick();
    assert_eq!(th.get_state_string(), "\\");
    th.tick();
    assert_eq!(th.get_state_string(), "|");
    th.tick();
    assert_eq!(th.get_state_string(), "/");
    th.tick();
    assert_eq!(th.get_state_string(), "-");
}

#[test]
fn test_edit_unknown_id_not_found() {
    let dir = TempDir::new().unwrap();
    let mut app = fresh_app(&dir);
    // A record the store never saw.
    app.timers = vec![Timer::new("ghost".to_string(), String::new(), 1000)];
    app.selectable_rows = vec![true];
    app.selected = 0;
    app.name_input = "renamed".to_string();
    let r = app.edit_timer();
    assert_eq!(r, Err(TimerError::NotFoundError));
    assert_eq!(app.timers[0].name.as_str(), "ghost");
}

#[test]
fn test_add_validation_keeps_screen_up() {
    let dir = TempDir::new().unwrap();
    let mut app = fresh_app(&dir);
    app.handle_key(Key::AltChar('i'), 0).unwrap();
    // Empty name: Enter from the name field, then Enter from the
    // description field is rejected and the screen stays for a re-prompt.
    app.handle_key(Key::Enter, 10).unwrap();
    let r = app.handle_key(Key::Enter, 20);
    assert_eq!(r, Err(TimerError::ValidationError));
    assert_eq!(app.current_screen, CurrentScreen::Add);
    assert_eq!(app.timers.len(), 0);
}

#[test]
fn test_toggle_on_empty_list_is_noop() {
    let dir = TempDir::new().unwrap();
    let mut app = fresh_app(&dir);
    app.toggle_timer_at(1000);
    assert_eq!(app.timers.len(), 0);
    assert_eq!(app.tick_ref_ms, 0);
}

#[test]
fn test_tick_tolerates_clock_regression() {
    let dir = TempDir::new().unwrap();
    let mut app = fresh_app(&dir);
    add_named(&mut app, "A", 10_000);
    // The wall clock jumps backwards: nothing is consumed, nothing panics.
    assert_eq!(app.tick(4000), 0);
    assert_eq!(app.timers[0].duration_s, 0);
    assert_eq!(app.tick(12_000), 2);
    assert_eq!(app.timers[0].duration_s, 2);
}

#[test]
fn test_selection_with_no_selectable_rows_stays() {
    let dir = TempDir::new().unwrap();
    let mut app = fresh_app(&dir);
    app.selectable_rows = vec![false, false];
    app.selected = 1;
    app.next_row();
    assert_eq!(app.selected, 1);
    app.selectable_rows = Vec::new();
    app.selected = 7;
    app.next_row();
    assert_eq!(app.selected, 7);
}
