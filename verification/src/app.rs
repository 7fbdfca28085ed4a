//! The owning context: the registered backends, the tasks that were started
//! through them, and what the owner looks at.

use vstd::prelude::*;
use crate::channel::{data_channel, signal_channel};
use crate::error::ProbeError;
use crate::itdog::client::CHANNEL_CAPACITY;
use crate::server::{
    drained_from, new_task, settled, CancelFailed, PingServer, Task, TaskRespone, TaskState,
};
use crate::text::{pop_char, push_char};

verus! {

/// How the records of the selected task are shown.
#[derive(Debug, Clone, Copy, PartialEq, Eq, PartialOrd, Ord, Structural)]
pub enum DisplayStyle {
    /// One row for each record.
    Table,
    /// One bar for each record's total time.
    Total,
    /// One bar for each record's time of the phase with this index.
    Chart(usize),
}

/// A key that the owner pressed.
#[derive(Debug, Clone, Copy, PartialEq, Eq, Structural)]
pub enum Key {
    Char(char),
    Esc,
    Up,
    Down,
    Left,
    Right,
    PageUp,
    PageDown,
    Backspace,
    Enter,
    Other,
}

/// What is selected on the screen when a key is pressed.
#[derive(Debug, Clone, Copy, PartialEq, Eq, Structural)]
pub struct Cursor {
    /// The selected task, if any.
    pub task: Option<usize>,
    /// The selected backend, if any.
    pub server: Option<usize>,
    /// The first row shown in the table of records.
    pub table_offset: usize,
}

/// What a key asks of the screen and of the probes.
#[derive(Debug, PartialEq, Eq)]
pub enum Command {
    /// Nothing beyond what the context itself has taken in.
    Nothing,
    /// Leave.
    Quit,
    /// Select the next task and show its table from the top.
    NextTask,
    /// Select the task before and show its table from the top.
    PreviousTask,
    /// Select the next backend.
    NextServer,
    /// Select the backend before.
    PreviousServer,
    /// Show the table from the top, with no row selected.
    ResetTable,
    /// Show the table from this row on, and select the row.
    ScrollTable(usize),
    /// Start a probe of this host through the backend with this index.
    Launch(usize, String),
}

/// A command as plain values.
pub enum CommandView {
    Nothing,
    Quit,
    NextTask,
    PreviousTask,
    NextServer,
    PreviousServer,
    ResetTable,
    ScrollTable(usize),
    Launch(usize, Seq<char>),
}

impl View for Command {
    type V = CommandView;

    open spec fn view(&self) -> CommandView {
        match self {
            Command::Nothing => CommandView::Nothing,
            Command::Quit => CommandView::Quit,
            Command::NextTask => CommandView::NextTask,
            Command::PreviousTask => CommandView::PreviousTask,
            Command::NextServer => CommandView::NextServer,
            Command::PreviousServer => CommandView::PreviousServer,
            Command::ResetTable => CommandView::ResetTable,
            Command::ScrollTable(offset) => CommandView::ScrollTable(*offset),
            Command::Launch(server, host) => CommandView::Launch(*server, host@),
        }
    }
}

/// The index one page back from `index`: five less, and the first where
/// fewer than six come before.
pub open spec fn page_back(index: nat) -> nat {
    if index > 5 {
        (index - 5) as nat
    } else {
        0
    }
}

/// The index one page on from `index` among `len`: five more where that is
/// still one of them, else `index` itself.
pub open spec fn page_on(index: nat, len: nat) -> nat {
    if index + 5 < len {
        index + 5
    } else {
        index
    }
}

/// The owning context as plain values.
pub struct AppState<S> {
    /// The registered backends, in the order of their registration.
    pub servers: Seq<S>,
    /// The tasks, in the order in which they were started.
    pub tasks: Seq<TaskState>,
    /// The host that is being typed.
    pub cache: Seq<char>,
    /// Whether keys go to the host that is being typed.
    pub editing: bool,
    /// How the records are shown.
    pub display_style: DisplayStyle,
    /// The first record shown in the chart of total times.
    pub total_index: nat,
    /// The first record shown in the chart of a phase.
    pub other_index: nat,
}

/// The owning context of the probes.
pub struct App<S: PingServer> {
    cache: String,
    editing: bool,
    display_style: DisplayStyle,
    task_list: Vec<Task>,
    total_index: usize,
    other_index: usize,
    server_list: Vec<S>,
}

impl<S: PingServer> View for App<S> {
    type V = AppState<S>;

    closed spec fn view(&self) -> AppState<S> {
        AppState {
            servers: self.server_list@,
            tasks: self.task_list.deep_view(),
            cache: self.cache@,
            editing: self.editing,
            display_style: self.display_style,
            total_index: self.total_index as nat,
            other_index: self.other_index as nat,
        }
    }
}

/// The owning context with no backend and no task.
pub open spec fn initial_app<S>() -> AppState<S> {
    AppState {
        servers: Seq::empty(),
        tasks: Seq::empty(),
        cache: Seq::empty(),
        editing: false,
        display_style: DisplayStyle::Total,
        total_index: 0,
        other_index: 0,
    }
}

impl<S: PingServer> Default for App<S> {
    fn default() -> (ret: Self)
        ensures
            ret@ == initial_app::<S>(),
    {
        let ret = Self {
            server_list: Vec::new(),
            task_list: Vec::new(),
            cache: String::new(),
            editing: false,
            total_index: 0,
            other_index: 0,
            display_style: DisplayStyle::Total,
        };
        assert(ret@.tasks =~= Seq::<TaskState>::empty());
        ret
    }
}

impl<S: PingServer> App<S> {
    /// The same context with `server` registered after the others.
    pub fn with_server(self, server: S) -> (ret: Self)
        ensures
            ret@ == (AppState { servers: self@.servers.push(server), ..self@ }),
    {
        let mut this = self;
        this.server_list.push(server);
        this
    }

    /// Registers `server` after the others.
    pub fn add_server(&mut self, server: S) -> (ret: &mut Self)
        ensures
            ret@ == (AppState { servers: old(self)@.servers.push(server), ..old(self)@ }),
            *final(self) == *final(ret),
    {
        self.server_list.push(server);
        self
    }

    /// The registered backends, in the order of their registration.
    pub fn servers(&self) -> (ret: &[S])
        ensures
            ret@ == self@.servers,
    {
        self.server_list.as_slice()
    }

    /// The tasks, in the order in which they were started.
    pub fn tasks(&self) -> (ret: &[Task])
        ensures
            ret.deep_view() == self@.tasks,
    {
        self.task_list.as_slice()
    }

    /// Starts a probe of `host` through the backend at `server_index` and
    /// takes up its task. The probe gets a channel of its own, which holds
    /// `CHANNEL_CAPACITY` records, and a signal of its own to call it off;
    /// `start` sets the job going, once, with that backend, the host, the
    /// receiving end of the signal and the producer end of the channel, and
    /// hands back the handle on the job. The handle and the other ends stay
    /// with the task.
    pub fn ping_host<F>(&mut self, server_index: usize, host: String, start: F) -> (ret: &mut Self)
        where
            F: FnOnce(
                &S,
                String,
                tokio::sync::oneshot::Receiver<bool>,
                tokio::sync::mpsc::Sender<Option<TaskRespone>>,
            ) -> tokio::task::JoinHandle<Result<(), ProbeError>>,
        requires
            server_index < old(self)@.servers.len(),
            forall|
                server: &S,
                target: String,
                flag: tokio::sync::oneshot::Receiver<bool>,
                out: tokio::sync::mpsc::Sender<Option<TaskRespone>>,
            | #[trigger] call_requires(start, (server, target, flag, out)),
        ensures
            ret@ == (AppState { tasks: old(self)@.tasks.push(new_task(host@)), ..old(self)@ }),
            *final(self) == *final(ret),
            exists|
                target: String,
                flag: tokio::sync::oneshot::Receiver<bool>,
                out: tokio::sync::mpsc::Sender<Option<TaskRespone>>,
                job: tokio::task::JoinHandle<Result<(), ProbeError>>,
            |
                target@ == host@ && #[trigger] call_ensures(
                    start,
                    (&old(self)@.servers[server_index as int], target, flag, out),
                    job,
                ),
            ret.has_handler(old(self)@.tasks.len() as int),
            forall|j: int|
                0 <= j < old(self)@.tasks.len() ==> ret.has_handler(j) == old(self).has_handler(j),
    {
        let (resp_tx, resp_rx) = data_channel(CHANNEL_CAPACITY);
        let (cc_tx, cc_rx) = signal_channel();
        let target = host.clone();
        let handler = start(&self.server_list[server_index], target, cc_rx, resp_tx);
        let task = Task::new(host, handler, cc_tx, resp_rx);
        self.task_list.push(task);
        proof {
            let before = old(self).task_list@;
            assert(old(self)@.tasks.len() == before.len());
            assert(self@.tasks =~= old(self)@.tasks.push(new_task(host@)));
            assert(self.task_list@[before.len() as int].has_handler());
            assert forall|j: int| 0 <= j < before.len() implies self.has_handler(j) == old(
                self,
            ).has_handler(j) by {
                assert(self.task_list@[j] == before[j]);
            }
        }
        self
    }

    /// Asks the probe of the task at `index` to stop.
    pub fn try_cancell(&mut self, index: usize) -> (ret: Result<(), CancelFailed>)
        requires
            index < old(self)@.tasks.len(),
        ensures
            final(self)@ == (AppState {
                tasks: old(self)@.tasks.update(
                    index as int,
                    TaskState { cancel_requested: true, ..old(self)@.tasks[index as int] },
                ),
                ..old(self)@
            }),
            old(self)@.tasks[index as int].cancel_requested ==> ret is Ok,
    {
        let ret = self.task_list[index].try_cancell();
        assert(self@.tasks =~= old(self)@.tasks.update(
            index as int,
            TaskState { cancel_requested: true, ..old(self)@.tasks[index as int] },
        ));
        ret
    }

    /// Whether the handle on the job of the task at `index` is still held.
    pub closed spec fn has_handler(&self, index: int) -> bool {
        self.task_list@[index].has_handler()
    }

    /// Gives up the handle on the job of the task at `index`, if it is still
    /// held. The task stays as it is, and so does every other handle.
    pub fn take_handler(&mut self, index: usize) -> (ret: Option<
        tokio::task::JoinHandle<Result<(), ProbeError>>,
    >)
        requires
            index < old(self)@.tasks.len(),
        ensures
            final(self)@ == old(self)@,
            ret is Some == old(self).has_handler(index as int),
            !final(self).has_handler(index as int),
            forall|j: int|
                0 <= j < old(self)@.tasks.len() && j != index ==> final(self).has_handler(j) == old(
                    self,
                ).has_handler(j),
    {
        let ret = self.task_list[index].take_handler();
        assert(self@.tasks =~= old(self)@.tasks);
        ret
    }

    /// Takes note of the outcome of the job of the task at `index`.
    pub fn settle(&mut self, index: usize, outcome: Result<(), ProbeError>)
        requires
            index < old(self)@.tasks.len(),
        ensures
            final(self)@ == (AppState {
                tasks: old(self)@.tasks.update(
                    index as int,
                    settled(old(self)@.tasks[index as int], outcome),
                ),
                ..old(self)@
            }),
    {
        self.task_list[index].settle(outcome);
        assert(self@.tasks =~= old(self)@.tasks.update(
            index as int,
            settled(old(self)@.tasks[index as int], outcome),
        ));
    }

    /// Lets every task take in what waits in its channel, without blocking.
    /// Nothing else changes, and no task changes but by what arrived for it.
    pub fn handler(&mut self)
        ensures
            final(self)@.tasks.len() == old(self)@.tasks.len(),
            forall|i: int|
                0 <= i < old(self)@.tasks.len() ==> drained_from(
                    old(self)@.tasks[i],
                    #[trigger] final(self)@.tasks[i],
                ),
            final(self)@ == (AppState { tasks: final(self)@.tasks, ..old(self)@ }),
    {
        let n: usize = self.task_list.len();
        let mut k: usize = 0;
        while k < n
            invariant
                k <= n == self.task_list.len() == old(self).task_list.len(),
                self@ == (AppState { tasks: self@.tasks, ..old(self)@ }),
                forall|i: int|
                    0 <= i < k ==> drained_from(
                        old(self).task_list@[i]@,
                        #[trigger] self.task_list@[i]@,
                    ),
                forall|i: int| k <= i < n ==> #[trigger] self.task_list@[i]@ == old(
                    self,
                ).task_list@[i]@,
            decreases n - k,
        {
            self.task_list[k].recv_respone();
            k = k + 1;
        }
    }
}

/// How many records the selected task has, if a task is selected.
pub open spec fn selected_len<S>(a: AppState<S>, cursor: Cursor) -> Option<nat> {
    match cursor.task {
        Some(i) => Some(a.tasks[i as int].records.len()),
        None => None,
    }
}

/// How many phases the first record of the selected task times; none where
/// no task is selected or the task has no record.
pub open spec fn selected_phases<S>(a: AppState<S>, cursor: Cursor) -> nat {
    match cursor.task {
        Some(i) => if a.tasks[i as int].records.len() > 0 {
            a.tasks[i as int].records[0].other_cost_list.len()
        } else {
            0
        },
        None => 0,
    }
}

/// The display that follows `style`: the table, the total times, then one
/// chart for each phase that the selected task's records time, and the table
/// again.
pub open spec fn next_style(style: DisplayStyle, phases: nat) -> DisplayStyle {
    match style {
        DisplayStyle::Table => DisplayStyle::Total,
        DisplayStyle::Total => if phases > 0 {
            DisplayStyle::Chart(0)
        } else {
            DisplayStyle::Table
        },
        DisplayStyle::Chart(i) => if i + 1 < phases {
            DisplayStyle::Chart((i + 1) as usize)
        } else {
            DisplayStyle::Table
        },
    }
}

/// One page on among the records of the selected task; `index` itself where
/// no task is selected.
pub open spec fn page_on_selected(index: nat, len: Option<nat>) -> nat {
    match len {
        Some(n) => page_on(index, n),
        None => index,
    }
}

/// What a key leads to while no host is being typed.
pub open spec fn browsed<S>(a: AppState<S>, key: Key, cursor: Cursor) -> (
    AppState<S>,
    CommandView,
) {
    match key {
        Key::Char(c) => if c == 'e' {
            (AppState { editing: true, ..a }, CommandView::Nothing)
        } else if c == 'm' {
            let style = next_style(a.display_style, selected_phases(a, cursor));
            match style {
                DisplayStyle::Total => (
                    AppState { display_style: style, total_index: 0, ..a },
                    CommandView::Nothing,
                ),
                DisplayStyle::Chart(_) => (
                    AppState { display_style: style, other_index: 0, ..a },
                    CommandView::Nothing,
                ),
                DisplayStyle::Table => (
                    AppState { display_style: style, ..a },
                    CommandView::ResetTable,
                ),
            }
        } else {
            (a, CommandView::Nothing)
        },
        Key::Esc => (a, CommandView::Quit),
        Key::Down => (a, CommandView::NextTask),
        Key::Up => (a, CommandView::PreviousTask),
        Key::Left => (a, CommandView::PreviousServer),
        Key::Right => (a, CommandView::NextServer),
        Key::PageUp => match a.display_style {
            DisplayStyle::Table => (
                a,
                CommandView::ScrollTable(page_back(cursor.table_offset as nat) as usize),
            ),
            DisplayStyle::Total => (
                AppState { total_index: page_back(a.total_index), ..a },
                CommandView::Nothing,
            ),
            DisplayStyle::Chart(_) => (
                AppState { other_index: page_back(a.other_index), ..a },
                CommandView::Nothing,
            ),
        },
        Key::PageDown => match a.display_style {
            DisplayStyle::Table => (
                a,
                CommandView::ScrollTable(
                    page_on_selected(cursor.table_offset as nat, selected_len(a, cursor)) as usize,
                ),
            ),
            DisplayStyle::Total => (
                AppState {
                    total_index: page_on_selected(a.total_index, selected_len(a, cursor)),
                    ..a
                },
                CommandView::Nothing,
            ),
            DisplayStyle::Chart(_) => (
                AppState {
                    other_index: page_on_selected(a.other_index, selected_len(a, cursor)),
                    ..a
                },
                CommandView::Nothing,
            ),
        },
        _ => (a, CommandView::Nothing),
    }
}

/// What a key leads to while a host is being typed.
pub open spec fn typed<S>(a: AppState<S>, key: Key, cursor: Cursor) -> (AppState<S>, CommandView) {
    match key {
        Key::Backspace => if a.cache.len() > 0 {
            (AppState { cache: a.cache.drop_last(), ..a }, CommandView::Nothing)
        } else {
            (a, CommandView::Nothing)
        },
        Key::Enter => match cursor.server {
            Some(i) => (
                AppState { cache: Seq::empty(), editing: false, ..a },
                CommandView::Launch(i, a.cache),
            ),
            None => (a, CommandView::Nothing),
        },
        Key::Char(c) => (AppState { cache: a.cache.push(c), ..a }, CommandView::Nothing),
        _ => (a, CommandView::Nothing),
    }
}

/// The context after `key`, and what the key asks for beyond it.
pub open spec fn updated<S>(a: AppState<S>, key: Key, cursor: Cursor) -> (
    AppState<S>,
    CommandView,
) {
    if a.editing {
        typed(a, key, cursor)
    } else {
        browsed(a, key, cursor)
    }
}

/// The context after a key event: only a key that was pressed is taken in;
/// one that repeats or was released changes nothing and asks for nothing.
pub open spec fn keyed<S>(a: AppState<S>, pressed: bool, key: Key, cursor: Cursor) -> (
    AppState<S>,
    CommandView,
) {
    if pressed {
        updated(a, key, cursor)
    } else {
        (a, CommandView::Nothing)
    }
}

impl<S: PingServer> App<S> {
    /// The host that is being typed.
    pub fn cache(&self) -> (ret: &str)
        ensures
            ret@ == self@.cache,
    {
        self.cache.as_str()
    }

    /// Whether keys go to the host that is being typed.
    pub fn editing(&self) -> (ret: bool)
        ensures
            ret == self@.editing,
    {
        self.editing
    }

    /// How the records are shown.
    pub fn display_style(&self) -> (ret: DisplayStyle)
        ensures
            ret == self@.display_style,
    {
        self.display_style
    }

    /// The first record shown in the chart of total times.
    pub fn total_index(&self) -> (ret: usize)
        ensures
            ret == self@.total_index,
    {
        self.total_index
    }

    /// The first record shown in the chart of a phase.
    pub fn other_index(&self) -> (ret: usize)
        ensures
            ret == self@.other_index,
    {
        self.other_index
    }

    fn records_of_selected(&self, cursor: &Cursor) -> (ret: Option<usize>)
        requires
            cursor.task matches Some(i) ==> i < self@.tasks.len(),
        ensures
            ret matches Some(n) ==> selected_len(self@, *cursor) == Some(n as nat),
            ret is None ==> selected_len(self@, *cursor) is None,
    {
        match cursor.task {
            Some(i) => Some(self.task_list[i].respone().len()),
            None => None,
        }
    }

    fn phases_of_selected(&self, cursor: &Cursor) -> (ret: usize)
        requires
            cursor.task matches Some(i) ==> i < self@.tasks.len(),
        ensures
            ret == selected_phases(self@, *cursor),
    {
        match cursor.task {
            Some(i) => {
                let records = self.task_list[i].respone();
                if records.len() > 0 {
                    records[0].other_cost_list().len()
                } else {
                    0
                }
            },
            None => 0,
        }
    }

    /// Takes in one key. `cursor` says what is selected on the screen; the
    /// task it names, if any, is one of the tasks.
    pub fn update(&mut self, key: Key, cursor: Cursor) -> (command: Command)
        requires
            cursor.task matches Some(i) ==> i < old(self)@.tasks.len(),
        ensures
            (final(self)@, command@) == updated(old(self)@, key, cursor),
    {
        if self.editing {
            match key {
                Key::Backspace => {
                    let _ = pop_char(&mut self.cache);
                    Command::Nothing
                },
                Key::Enter => match cursor.server {
                    Some(i) => {
                        let host = self.cache.clone();
                        self.cache = String::new();
                        self.editing = false;
                        Command::Launch(i, host)
                    },
                    None => Command::Nothing,
                },
                Key::Char(c) => {
                    push_char(&mut self.cache, c);
                    Command::Nothing
                },
                _ => Command::Nothing,
            }
        } else {
            match key {
                Key::Char(c) => {
                    if c == 'e' {
                        self.editing = true;
                        Command::Nothing
                    } else if c == 'm' {
                        let phases = self.phases_of_selected(&cursor);
                        match self.display_style {
                            DisplayStyle::Table => {
                                self.display_style = DisplayStyle::Total;
                                self.total_index = 0;
                                Command::Nothing
                            },
                            DisplayStyle::Total => {
                                if phases > 0 {
                                    self.display_style = DisplayStyle::Chart(0);
                                    self.other_index = 0;
                                    Command::Nothing
                                } else {
                                    self.display_style = DisplayStyle::Table;
                                    Command::ResetTable
                                }
                            },
                            DisplayStyle::Chart(i) => {
                                if i < phases && i + 1 < phases {
                                    self.display_style = DisplayStyle::Chart(i + 1);
                                    self.other_index = 0;
                                    Command::Nothing
                                } else {
                                    self.display_style = DisplayStyle::Table;
                                    Command::ResetTable
                                }
                            },
                        }
                    } else {
                        Command::Nothing
                    }
                },
                Key::Esc => Command::Quit,
                Key::Down => Command::NextTask,
                Key::Up => Command::PreviousTask,
                Key::Left => Command::PreviousServer,
                Key::Right => Command::NextServer,
                Key::PageUp => match self.display_style {
                    DisplayStyle::Table => Command::ScrollTable(
                        Self::one_page_back(cursor.table_offset),
                    ),
                    DisplayStyle::Total => {
                        self.total_index = Self::one_page_back(self.total_index);
                        Command::Nothing
                    },
                    DisplayStyle::Chart(_) => {
                        self.other_index = Self::one_page_back(self.other_index);
                        Command::Nothing
                    },
                },
                Key::PageDown => {
                    let len = self.records_of_selected(&cursor);
                    match self.display_style {
                        DisplayStyle::Table => Command::ScrollTable(
                            Self::one_page_on(cursor.table_offset, len),
                        ),
                        DisplayStyle::Total => {
                            self.total_index = Self::one_page_on(self.total_index, len);
                            Command::Nothing
                        },
                        DisplayStyle::Chart(_) => {
                            self.other_index = Self::one_page_on(self.other_index, len);
                            Command::Nothing
                        },
                    }
                },
                _ => Command::Nothing,
            }
        }
    }

    /// Takes in one key event. `pressed` says whether the key was pressed,
    /// rather than held or released; only then is the key taken in, and only
    /// then need the task that `cursor` names be one of the tasks.
    pub fn key_event(&mut self, pressed: bool, key: Key, cursor: Cursor) -> (command: Command)
        requires
            pressed ==> (cursor.task matches Some(i) ==> i < old(self)@.tasks.len()),
        ensures
            (final(self)@, command@) == keyed(old(self)@, pressed, key, cursor),
    {
        if pressed {
            self.update(key, cursor)
        } else {
            Command::Nothing
        }
    }

    /// The index one page back from `index`.
    pub fn one_page_back(index: usize) -> (ret: usize)
        ensures
            ret == page_back(index as nat),
    {
        if index > 5 {
            index - 5
        } else {
            0
        }
    }

    /// The index one page on from `index` among `len` records, and `index`
    /// itself where there is no task to page through.
    pub fn one_page_on(index: usize, len: Option<usize>) -> (ret: usize)
        ensures
            ret == page_on_selected(
                index as nat,
                match len {
                    Some(n) => Some(n as nat),
                    None => None,
                },
            ),
    {
        match len {
            Some(n) => {
                if index < n && n - index > 5 {
                    index + 5
                } else {
                    index
                }
            },
            None => index,
        }
    }
}

} // verus!
