use httping::app::{App, Command, Cursor, DisplayStyle, Key};
use httping::itdog::client::CHANNEL_CAPACITY;
use httping::server::CancelFailed;
use httping::{Itdog, PingServer, ProbeError, TaskRespone};
use tokio::runtime::{Builder, Runtime};
use tokio::sync::mpsc::Sender;
use tokio::sync::oneshot;

fn cursor(task: Option<usize>, server: Option<usize>, table_offset: usize) -> Cursor {
    Cursor { task, server, table_offset }
}

fn none() -> Cursor {
    cursor(None, None, 0)
}

fn record(phases: usize) -> TaskRespone {
    TaskRespone::default()
        .with_status(200)
        .with_other_cost_list((0..phases).map(|p| format!("0.{}", p)).collect())
}

fn launch_with(
    app: &mut App<Itdog>,
    runtime: &Runtime,
    host: &str,
    outcome: Result<(), ProbeError>,
) -> (Sender<Option<TaskRespone>>, oneshot::Receiver<bool>) {
    let mut ends = None;
    app.ping_host(0, host.to_string(), |_server, _target, flag, out| {
        ends = Some((out, flag));
        runtime.spawn(async move { outcome })
    });
    ends.unwrap()
}

fn launch(app: &mut App<Itdog>, runtime: &Runtime, host: &str) -> Sender<Option<TaskRespone>> {
    launch_with(app, runtime, host, Ok(())).0
}

fn with_records(records: usize, phases: usize) -> (App<Itdog>, Runtime) {
    let runtime = Builder::new_current_thread().build().unwrap();
    let mut app = App::default().with_server(Itdog);
    let tx = launch(&mut app, &runtime, "h");
    for _ in 0..records {
        tx.try_send(Some(record(phases))).unwrap();
    }
    app.handler();
    (app, runtime)
}

#[test]
fn a_new_context_is_empty_and_shows_totals() {
    let app: App<Itdog> = App::default();
    assert!(app.servers().is_empty());
    assert!(app.tasks().is_empty());
    assert_eq!(app.cache(), "");
    assert!(!app.editing());
    assert_eq!(app.display_style(), DisplayStyle::Total);
    assert_eq!(app.total_index(), 0);
    assert_eq!(app.other_index(), 0);
    assert_eq!(CHANNEL_CAPACITY, 128);
}

#[test]
fn servers_are_listed_in_the_order_of_registration() {
    let mut app = App::default().with_server(Itdog);
    app.add_server(Itdog).add_server(Itdog);
    assert_eq!(app.servers().len(), 3);
    assert_eq!(app.servers()[0].name(), "itdog");
}

#[test]
fn started_tasks_are_listed_in_order() {
    let runtime = Builder::new_current_thread().build().unwrap();
    let mut app = App::default().with_server(Itdog);
    let _a = launch(&mut app, &runtime, "a.example");
    let _b = launch(&mut app, &runtime, "b.example");
    let hosts: Vec<&str> = app.tasks().iter().map(|t| t.host()).collect();
    assert_eq!(hosts, ["a.example", "b.example"]);
    assert!(app.tasks().iter().all(|t| !t.ending() && t.respone().is_empty()));
}

#[test]
fn handler_drains_each_task_from_its_own_channel() {
    let runtime = Builder::new_current_thread().build().unwrap();
    let mut app = App::default().with_server(Itdog);
    let a = launch(&mut app, &runtime, "a");
    let b = launch(&mut app, &runtime, "b");
    let _c = launch(&mut app, &runtime, "c");
    a.try_send(Some(record(0).with_loc("a1".to_string()))).unwrap();
    a.try_send(Some(record(0).with_loc("a2".to_string()))).unwrap();
    b.try_send(Some(record(0).with_loc("b1".to_string()))).unwrap();
    b.try_send(None).unwrap();
    app.handler();
    let tasks = app.tasks();
    assert_eq!(tasks.len(), 3);
    assert_eq!(tasks[0].respone().len(), 2);
    assert_eq!(tasks[0].respone()[0].loc(), "a1");
    assert_eq!(tasks[0].respone()[1].loc(), "a2");
    assert!(!tasks[0].ending());
    assert_eq!(tasks[1].respone().len(), 1);
    assert!(tasks[1].ending());
    assert!(tasks[2].respone().is_empty());
    assert!(!tasks[2].ending());
    app.handler();
    assert_eq!(app.tasks()[0].respone().len(), 2);
}

#[test]
fn handler_on_no_tasks_does_nothing() {
    let mut app: App<Itdog> = App::default();
    app.handler();
    assert!(app.tasks().is_empty());
}

#[test]
fn typing_a_host_and_launching_it() {
    let mut app = App::default().with_server(Itdog);
    assert_eq!(app.update(Key::Char('e'), none()), Command::Nothing);
    assert!(app.editing());
    for c in "a.bx".chars() {
        assert_eq!(app.update(Key::Char(c), none()), Command::Nothing);
    }
    assert_eq!(app.cache(), "a.bx");
    assert_eq!(app.update(Key::Backspace, none()), Command::Nothing);
    assert_eq!(app.cache(), "a.b");
    assert_eq!(app.update(Key::Enter, none()), Command::Nothing);
    assert!(app.editing());
    assert_eq!(app.cache(), "a.b");
    assert_eq!(
        app.update(Key::Enter, cursor(None, Some(0), 0)),
        Command::Launch(0, "a.b".to_string())
    );
    assert!(!app.editing());
    assert_eq!(app.cache(), "");
}

#[test]
fn typing_takes_e_and_m_as_letters_and_ignores_other_keys() {
    let mut app: App<Itdog> = App::default();
    app.update(Key::Char('e'), none());
    app.update(Key::Char('m'), none());
    app.update(Key::Char('e'), none());
    assert_eq!(app.update(Key::Esc, none()), Command::Nothing);
    assert_eq!(app.update(Key::Down, none()), Command::Nothing);
    assert_eq!(app.update(Key::PageUp, none()), Command::Nothing);
    assert_eq!(app.cache(), "me");
    assert!(app.editing());
    assert_eq!(app.display_style(), DisplayStyle::Total);
}

#[test]
fn backspace_on_an_empty_host_does_nothing() {
    let mut app: App<Itdog> = App::default();
    app.update(Key::Char('e'), none());
    assert_eq!(app.update(Key::Backspace, none()), Command::Nothing);
    assert_eq!(app.cache(), "");
}

#[test]
fn browsing_keys_become_commands() {
    let mut app: App<Itdog> = App::default();
    assert_eq!(app.update(Key::Esc, none()), Command::Quit);
    assert_eq!(app.update(Key::Down, none()), Command::NextTask);
    assert_eq!(app.update(Key::Up, none()), Command::PreviousTask);
    assert_eq!(app.update(Key::Left, none()), Command::PreviousServer);
    assert_eq!(app.update(Key::Right, none()), Command::NextServer);
    assert_eq!(app.update(Key::Enter, none()), Command::Nothing);
    assert_eq!(app.update(Key::Backspace, none()), Command::Nothing);
    assert_eq!(app.update(Key::Other, none()), Command::Nothing);
    assert_eq!(app.update(Key::Char('x'), none()), Command::Nothing);
    assert!(!app.editing());
    assert_eq!(app.cache(), "");
}

#[test]
fn m_cycles_through_table_totals_and_each_phase() {
    let (mut app, _rt) = with_records(2, 3);
    let at = cursor(Some(0), Some(0), 0);
    assert_eq!(app.display_style(), DisplayStyle::Total);
    assert_eq!(app.update(Key::Char('m'), at), Command::Nothing);
    assert_eq!(app.display_style(), DisplayStyle::Chart(0));
    assert_eq!(app.update(Key::Char('m'), at), Command::Nothing);
    assert_eq!(app.display_style(), DisplayStyle::Chart(1));
    assert_eq!(app.update(Key::Char('m'), at), Command::Nothing);
    assert_eq!(app.display_style(), DisplayStyle::Chart(2));
    assert_eq!(app.update(Key::Char('m'), at), Command::ResetTable);
    assert_eq!(app.display_style(), DisplayStyle::Table);
    assert_eq!(app.update(Key::Char('m'), at), Command::Nothing);
    assert_eq!(app.display_style(), DisplayStyle::Total);
}

#[test]
fn m_skips_the_phases_where_there_is_nothing_to_chart() {
    let (mut app, _rt) = with_records(2, 0);
    assert_eq!(app.update(Key::Char('m'), cursor(Some(0), None, 0)), Command::ResetTable);
    assert_eq!(app.display_style(), DisplayStyle::Table);

    let (mut app, _rt) = with_records(0, 0);
    assert_eq!(app.update(Key::Char('m'), cursor(Some(0), None, 0)), Command::ResetTable);

    let (mut app, _rt) = with_records(2, 3);
    assert_eq!(app.update(Key::Char('m'), none()), Command::ResetTable);
    assert_eq!(app.display_style(), DisplayStyle::Table);
}

#[test]
fn m_resets_the_index_of_the_chart_it_turns_to() {
    let (mut app, _rt) = with_records(20, 2);
    let at = cursor(Some(0), None, 0);
    app.update(Key::PageDown, at);
    assert_eq!(app.total_index(), 5);
    app.update(Key::Char('m'), at);
    app.update(Key::PageDown, at);
    app.update(Key::PageDown, at);
    assert_eq!(app.other_index(), 10);
    assert_eq!(app.total_index(), 5);
    app.update(Key::Char('m'), at);
    assert_eq!(app.display_style(), DisplayStyle::Chart(1));
    assert_eq!(app.other_index(), 0);
    app.update(Key::Char('m'), at);
    app.update(Key::Char('m'), at);
    assert_eq!(app.display_style(), DisplayStyle::Total);
    assert_eq!(app.total_index(), 0);
}

#[test]
fn paging_the_totals_moves_by_five_within_the_records() {
    let (mut app, _rt) = with_records(12, 0);
    let at = cursor(Some(0), None, 0);
    app.update(Key::PageDown, at);
    assert_eq!(app.total_index(), 5);
    app.update(Key::PageDown, at);
    assert_eq!(app.total_index(), 10);
    app.update(Key::PageDown, at);
    assert_eq!(app.total_index(), 10);
    app.update(Key::PageUp, at);
    assert_eq!(app.total_index(), 5);
    app.update(Key::PageUp, at);
    assert_eq!(app.total_index(), 0);
    app.update(Key::PageUp, at);
    assert_eq!(app.total_index(), 0);
    app.update(Key::PageDown, none());
    assert_eq!(app.total_index(), 0);
}

#[test]
fn paging_the_table_scrolls_from_the_offset_on_screen() {
    let (mut app, _rt) = with_records(12, 0);
    app.update(Key::Char('m'), cursor(Some(0), None, 0));
    assert_eq!(app.display_style(), DisplayStyle::Table);
    assert_eq!(app.update(Key::PageDown, cursor(Some(0), None, 0)), Command::ScrollTable(5));
    assert_eq!(app.update(Key::PageDown, cursor(Some(0), None, 6)), Command::ScrollTable(11));
    assert_eq!(app.update(Key::PageDown, cursor(Some(0), None, 7)), Command::ScrollTable(7));
    assert_eq!(app.update(Key::PageDown, cursor(None, None, 3)), Command::ScrollTable(3));
    assert_eq!(app.update(Key::PageUp, cursor(Some(0), None, 11)), Command::ScrollTable(6));
    assert_eq!(app.update(Key::PageUp, cursor(Some(0), None, 6)), Command::ScrollTable(1));
    assert_eq!(app.update(Key::PageUp, cursor(Some(0), None, 5)), Command::ScrollTable(0));
    assert_eq!(app.update(Key::PageUp, cursor(None, None, 0)), Command::ScrollTable(0));
    assert_eq!(
        app.update(Key::PageDown, cursor(Some(0), None, usize::MAX)),
        Command::ScrollTable(usize::MAX)
    );
    assert_eq!(app.total_index(), 0);
}

#[test]
fn page_helpers_on_plain_numbers() {
    assert_eq!(App::<Itdog>::one_page_back(0), 0);
    assert_eq!(App::<Itdog>::one_page_back(5), 0);
    assert_eq!(App::<Itdog>::one_page_back(6), 1);
    assert_eq!(App::<Itdog>::one_page_on(0, Some(5)), 0);
    assert_eq!(App::<Itdog>::one_page_on(0, Some(6)), 5);
    assert_eq!(App::<Itdog>::one_page_on(4, None), 4);
}

#[test]
fn ping_host_hands_the_job_its_backend_host_and_ends() {
    let runtime = Builder::new_current_thread().build().unwrap();
    let mut app = App::default().with_server(Itdog);
    let mut seen = None;
    app.ping_host(0, "www.example.com".to_string(), |server, target, flag, out| {
        seen = Some((server.name().to_string(), target, flag, out));
        runtime.spawn(async { Ok::<(), ProbeError>(()) })
    });
    let (name, target, mut flag, out) = seen.unwrap();
    assert_eq!(name, "itdog");
    assert_eq!(target, "www.example.com");
    assert!(flag.try_recv().is_err());
    assert_eq!(out.max_capacity(), 128);
    assert_eq!(app.tasks().len(), 1);
    assert_eq!(app.tasks()[0].host(), "www.example.com");
    assert!(!app.tasks()[0].ending());
    assert!(!app.tasks()[0].cancel_requested());
    assert_eq!(app.tasks()[0].failure(), None);
}

#[test]
fn a_full_channel_holds_the_probe_back_until_the_owner_drains() {
    let runtime = Builder::new_current_thread().build().unwrap();
    let mut app = App::default().with_server(Itdog);
    let tx = launch(&mut app, &runtime, "h");
    for _ in 0..128 {
        tx.try_send(Some(record(0))).unwrap();
    }
    assert!(tx.try_send(Some(record(0))).is_err());
    app.handler();
    assert_eq!(app.tasks()[0].respone().len(), 128);
    tx.try_send(None).unwrap();
    app.handler();
    assert!(app.tasks()[0].ending());
}

#[test]
fn cancelling_a_task_reaches_its_probe_once() {
    let runtime = Builder::new_current_thread().build().unwrap();
    let mut app = App::default().with_server(Itdog);
    let (_a, mut flag_a) = launch_with(&mut app, &runtime, "a", Ok(()));
    let (_b, mut flag_b) = launch_with(&mut app, &runtime, "b", Ok(()));
    assert_eq!(app.try_cancell(1), Ok(()));
    assert_eq!(app.try_cancell(1), Ok(()));
    assert_eq!(flag_b.try_recv(), Ok(true));
    assert!(flag_a.try_recv().is_err());
    assert!(app.tasks()[1].cancel_requested());
    assert!(!app.tasks()[0].cancel_requested());
    drop(flag_a);
    assert_eq!(app.try_cancell(0), Err(CancelFailed));
    assert_eq!(app.try_cancell(0), Ok(()));
}

#[test]
fn a_failed_job_becomes_the_failure_of_its_task() {
    let runtime = Builder::new_current_thread().build().unwrap();
    let mut app = App::default().with_server(Itdog);
    let _a = launch_with(&mut app, &runtime, "a", Err(ProbeError::Handshake));
    let _b = launch_with(&mut app, &runtime, "b", Ok(()));
    assert!(!app.tasks()[0].job_finished());
    runtime.block_on(async { tokio::task::yield_now().await });
    for index in 0..2 {
        assert!(app.tasks()[index].job_finished());
        let handle = app.take_handler(index).unwrap();
        assert!(!app.tasks()[index].job_finished());
        assert!(app.take_handler(index).is_none());
        let outcome = runtime.block_on(handle).unwrap();
        app.settle(index, outcome);
    }
    assert_eq!(app.tasks()[0].failure(), Some(ProbeError::Handshake));
    assert_eq!(app.tasks()[1].failure(), None);
    assert!(!app.tasks()[0].ending());
    assert_eq!(app.tasks()[0].host(), "a");
}

#[test]
fn a_key_that_was_not_pressed_changes_nothing() {
    let (mut app, _rt) = with_records(12, 2);
    let at = cursor(Some(0), Some(0), 3);
    for key in [Key::Esc, Key::Char('e'), Key::Char('m'), Key::PageDown, Key::Down, Key::Enter] {
        assert_eq!(app.key_event(false, key, at), Command::Nothing);
    }
    assert!(!app.editing());
    assert_eq!(app.cache(), "");
    assert_eq!(app.display_style(), DisplayStyle::Total);
    assert_eq!(app.total_index(), 0);
    assert_eq!(app.key_event(false, Key::PageDown, cursor(Some(99), None, 0)), Command::Nothing);
}

#[test]
fn a_pressed_key_is_taken_in_as_by_update() {
    let (mut app, _rt) = with_records(12, 2);
    let at = cursor(Some(0), Some(0), 3);
    assert_eq!(app.key_event(true, Key::Esc, at), Command::Quit);
    assert_eq!(app.key_event(true, Key::PageDown, at), Command::Nothing);
    assert_eq!(app.total_index(), 5);
    assert_eq!(app.key_event(true, Key::Char('e'), at), Command::Nothing);
    assert!(app.editing());
    assert_eq!(app.key_event(false, Key::Char('x'), at), Command::Nothing);
    assert_eq!(app.key_event(true, Key::Char('y'), at), Command::Nothing);
    assert_eq!(app.cache(), "y");
}

#[test]
fn display_styles_are_ordered_as_they_are_listed() {
    assert!(DisplayStyle::Table < DisplayStyle::Total);
    assert!(DisplayStyle::Total < DisplayStyle::Chart(0));
    assert!(DisplayStyle::Chart(0) < DisplayStyle::Chart(1));
    assert_eq!(DisplayStyle::Chart(2).max(DisplayStyle::Table), DisplayStyle::Chart(2));
}
