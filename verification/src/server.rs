//! The owner's side of a probe: the records it yields and the task that
//! collects them.

use vstd::prelude::*;
use crate::channel::{
    job_is_finished, poll_channel, send_signal, stop_flag, waiting, Polled,
};
use crate::error::ProbeError;

pub mod itdog;

verus! {

/// A measurement record as plain values.
pub struct RecordView {
    pub loc: Seq<char>,
    pub ip: Seq<char>,
    pub status: int,
    pub total_cost: Seq<char>,
    pub other_name_list: Seq<Seq<char>>,
    pub other_cost_list: Seq<Seq<char>>,
    pub redirect: int,
    pub redirect_cost: Seq<char>,
}

/// The record with every text empty and every number zero.
pub open spec fn empty_record() -> RecordView {
    RecordView {
        loc: Seq::empty(),
        ip: Seq::empty(),
        status: 0,
        total_cost: Seq::empty(),
        other_name_list: Seq::empty(),
        other_cost_list: Seq::empty(),
        redirect: 0,
        redirect_cost: Seq::empty(),
    }
}

/// One measurement of the target host from one location. The times are
/// decimal seconds, kept as the text that the service sent.
#[derive(Debug, Clone)]
pub struct TaskRespone {
    loc: String,
    ip: String,
    status: i32,
    total_cost: String,
    other_name_list: Vec<String>,
    other_cost_list: Vec<String>,
    redirect: i32,
    redirect_cost: String,
}

impl View for TaskRespone {
    type V = RecordView;

    closed spec fn view(&self) -> RecordView {
        RecordView {
            loc: self.loc@,
            ip: self.ip@,
            status: self.status as int,
            total_cost: self.total_cost@,
            other_name_list: self.other_name_list.deep_view(),
            other_cost_list: self.other_cost_list.deep_view(),
            redirect: self.redirect as int,
            redirect_cost: self.redirect_cost@,
        }
    }
}

impl DeepView for TaskRespone {
    type V = RecordView;

    open spec fn deep_view(&self) -> RecordView {
        self@
    }
}

impl Default for TaskRespone {
    fn default() -> (ret: Self)
        ensures
            ret@ == empty_record(),
    {
        let ret = Self {
            loc: String::new(),
            ip: String::new(),
            status: 0,
            total_cost: String::new(),
            other_name_list: Vec::new(),
            other_cost_list: Vec::new(),
            redirect: 0,
            redirect_cost: String::new(),
        };
        assert(ret@.other_name_list =~= Seq::<Seq<char>>::empty());
        assert(ret@.other_cost_list =~= Seq::<Seq<char>>::empty());
        ret
    }
}

impl TaskRespone {
    /// The same record with where the measurement was taken replaced.
    pub fn with_loc(self, loc: String) -> (ret: Self)
        ensures
            ret@ == (RecordView { loc: loc@, ..self@ }),
    {
        let mut this = self;
        this.loc = loc;
        this
    }

    /// The same record with the address that the host resolved to replaced.
    pub fn with_ip(self, ip: String) -> (ret: Self)
        ensures
            ret@ == (RecordView { ip: ip@, ..self@ }),
    {
        let mut this = self;
        this.ip = ip;
        this
    }

    /// The same record with the HTTP status code replaced.
    pub fn with_status(self, status: i32) -> (ret: Self)
        ensures
            ret@ == (RecordView { status: status as int, ..self@ }),
    {
        let mut this = self;
        this.status = status;
        this
    }

    /// The same record with the total time, in decimal seconds replaced.
    pub fn with_total_cost(self, total_cost: String) -> (ret: Self)
        ensures
            ret@ == (RecordView { total_cost: total_cost@, ..self@ }),
    {
        let mut this = self;
        this.total_cost = total_cost;
        this
    }

    /// The same record with the names of the phases replaced.
    pub fn with_other_name_list(self, other_name_list: Vec<String>) -> (ret: Self)
        ensures
            ret@ == (RecordView { other_name_list: other_name_list.deep_view(), ..self@ }),
    {
        let mut this = self;
        this.other_name_list = other_name_list;
        this
    }

    /// The same record with the times of the phases, in the order of their names replaced.
    pub fn with_other_cost_list(self, other_cost_list: Vec<String>) -> (ret: Self)
        ensures
            ret@ == (RecordView { other_cost_list: other_cost_list.deep_view(), ..self@ }),
    {
        let mut this = self;
        this.other_cost_list = other_cost_list;
        this
    }

    /// The same record with the number of redirects replaced.
    pub fn with_redirect(self, redirect: i32) -> (ret: Self)
        ensures
            ret@ == (RecordView { redirect: redirect as int, ..self@ }),
    {
        let mut this = self;
        this.redirect = redirect;
        this
    }

    /// The same record with the time spent on redirects replaced.
    pub fn with_redirect_cost(self, redirect_cost: String) -> (ret: Self)
        ensures
            ret@ == (RecordView { redirect_cost: redirect_cost@, ..self@ }),
    {
        let mut this = self;
        this.redirect_cost = redirect_cost;
        this
    }

    /// Where the measurement was taken.
    pub fn loc(&self) -> (ret: &str)
        ensures
            ret@ == self@.loc,
    {
        self.loc.as_str()
    }

    /// The address that the host resolved to.
    pub fn ip(&self) -> (ret: &str)
        ensures
            ret@ == self@.ip,
    {
        self.ip.as_str()
    }

    /// The HTTP status code.
    pub fn status(&self) -> (ret: i32)
        ensures
            ret as int == self@.status,
    {
        self.status
    }

    /// The total time, in decimal seconds.
    pub fn total_cost(&self) -> (ret: &str)
        ensures
            ret@ == self@.total_cost,
    {
        self.total_cost.as_str()
    }

    /// The names of the phases.
    pub fn other_name_list(&self) -> (ret: &[String])
        ensures
            ret.deep_view() == self@.other_name_list,
    {
        self.other_name_list.as_slice()
    }

    /// The times of the phases, in the order of their names.
    pub fn other_cost_list(&self) -> (ret: &[String])
        ensures
            ret.deep_view() == self@.other_cost_list,
    {
        self.other_cost_list.as_slice()
    }

    /// The number of redirects.
    pub fn redirect(&self) -> (ret: i32)
        ensures
            ret as int == self@.redirect,
    {
        self.redirect
    }

    /// The time spent on redirects.
    pub fn redirect_cost(&self) -> (ret: &str)
        ensures
            ret@ == self@.redirect_cost,
    {
        self.redirect_cost.as_str()
    }

    /// Sets where the measurement was taken.
    pub fn set_loc(&mut self, loc: String) -> (ret: &mut Self)
        ensures
            ret@ == (RecordView { loc: loc@, ..old(self)@ }),
            *final(self) == *final(ret),
    {
        self.loc = loc;
        self
    }

    /// Sets the address that the host resolved to.
    pub fn set_ip(&mut self, ip: String) -> (ret: &mut Self)
        ensures
            ret@ == (RecordView { ip: ip@, ..old(self)@ }),
            *final(self) == *final(ret),
    {
        self.ip = ip;
        self
    }

    /// Sets the HTTP status code.
    pub fn set_status(&mut self, status: i32) -> (ret: &mut Self)
        ensures
            ret@ == (RecordView { status: status as int, ..old(self)@ }),
            *final(self) == *final(ret),
    {
        self.status = status;
        self
    }

    /// Sets the total time, in decimal seconds.
    pub fn set_total_cost(&mut self, total_cost: String) -> (ret: &mut Self)
        ensures
            ret@ == (RecordView { total_cost: total_cost@, ..old(self)@ }),
            *final(self) == *final(ret),
    {
        self.total_cost = total_cost;
        self
    }

    /// Sets the names of the phases.
    pub fn set_other_name_list(&mut self, other_name_list: Vec<String>) -> (ret: &mut Self)
        ensures
            ret@ == (RecordView { other_name_list: other_name_list.deep_view(), ..old(self)@ }),
            *final(self) == *final(ret),
    {
        self.other_name_list = other_name_list;
        self
    }

    /// Sets the times of the phases, in the order of their names.
    pub fn set_other_cost_list(&mut self, other_cost_list: Vec<String>) -> (ret: &mut Self)
        ensures
            ret@ == (RecordView { other_cost_list: other_cost_list.deep_view(), ..old(self)@ }),
            *final(self) == *final(ret),
    {
        self.other_cost_list = other_cost_list;
        self
    }

    /// Sets the number of redirects.
    pub fn set_redirect(&mut self, redirect: i32) -> (ret: &mut Self)
        ensures
            ret@ == (RecordView { redirect: redirect as int, ..old(self)@ }),
            *final(self) == *final(ret),
    {
        self.redirect = redirect;
        self
    }

    /// Sets the time spent on redirects.
    pub fn set_redirect_cost(&mut self, redirect_cost: String) -> (ret: &mut Self)
        ensures
            ret@ == (RecordView { redirect_cost: redirect_cost@, ..old(self)@ }),
            *final(self) == *final(ret),
    {
        self.redirect_cost = redirect_cost;
        self
    }

}

/// A measurement service that probes can be run through.
pub trait PingServer {
    /// The name that the service is listed under.
    fn name(&self) -> &str;
}

/// What one look into a task's channel brought.
pub enum Arrival {
    /// A record.
    Record(RecordView),
    /// The end-of-stream marker.
    End,
    /// Nothing: the channel was empty, or its sender gone.
    Nothing,
}

/// What a look into the channel brought, as plain values.
pub open spec fn arrival_of(polled: Polled<Option<TaskRespone>>) -> Arrival {
    match polled {
        Polled::Item(Some(record)) => Arrival::Record(record@),
        Polled::Item(None) => Arrival::End,
        Polled::Empty => Arrival::Nothing,
        Polled::Disconnected => Arrival::Nothing,
    }
}

/// A task as plain values.
pub struct TaskState {
    /// The host that is probed.
    pub host: Seq<char>,
    /// The records that arrived, in the order of their arrival.
    pub records: Seq<RecordView>,
    /// Whether the end-of-stream marker arrived.
    pub ended: bool,
    /// Whether the probe was asked to stop.
    pub cancel_requested: bool,
    /// Why the probe's job failed, once that is known.
    pub failure: Option<ProbeError>,
}

/// The task for `host` that nothing has arrived at yet.
pub open spec fn new_task(host: Seq<char>) -> TaskState {
    TaskState {
        host: host,
        records: Seq::empty(),
        ended: false,
        cancel_requested: false,
        failure: None,
    }
}

/// The task after one arrival: a record is appended, the end-of-stream marker
/// ends the task, and nothing changes a task that has ended.
pub open spec fn absorb(t: TaskState, a: Arrival) -> TaskState {
    if t.ended {
        t
    } else {
        match a {
            Arrival::Record(r) => TaskState { records: t.records.push(r), ..t },
            Arrival::End => TaskState { ended: true, ..t },
            Arrival::Nothing => t,
        }
    }
}

/// The task after the arrivals `items`, in their order.
pub open spec fn absorb_all(t: TaskState, items: Seq<Arrival>) -> TaskState
    decreases items.len(),
{
    if items.len() == 0 {
        t
    } else {
        absorb_all(absorb(t, items[0]), items.drop_first())
    }
}

/// The task once the outcome of its job is known.
pub open spec fn settled(t: TaskState, outcome: Result<(), ProbeError>) -> TaskState {
    match outcome {
        Ok(_) => t,
        Err(e) => TaskState { failure: Some(e), ..t },
    }
}

/// `after` is what `before` becomes by taking in some run of arrivals.
pub open spec fn drained_from(before: TaskState, after: TaskState) -> bool {
    exists|items: Seq<Arrival>| after == absorb_all(before, items)
}

/// The records among `items`, in their order.
pub open spec fn records_in(items: Seq<Arrival>) -> Seq<RecordView>
    decreases items.len(),
{
    if items.len() == 0 {
        Seq::empty()
    } else {
        match items[0] {
            Arrival::Record(r) => seq![r] + records_in(items.drop_first()),
            _ => records_in(items.drop_first()),
        }
    }
}

/// The owner's handle on one probe.
#[derive(Debug)]
pub struct Task {
    host: String,
    handler: Option<tokio::task::JoinHandle<Result<(), ProbeError>>>,
    resp: Vec<TaskRespone>,
    resp_rx: tokio::sync::mpsc::Receiver<Option<TaskRespone>>,
    cancell: Option<tokio::sync::oneshot::Sender<bool>>,
    ending: bool,
    failure: Option<ProbeError>,
}

impl View for Task {
    type V = TaskState;

    closed spec fn view(&self) -> TaskState {
        TaskState {
            host: self.host@,
            records: self.resp.deep_view(),
            ended: self.ending,
            cancel_requested: self.cancell is None,
            failure: self.failure,
        }
    }
}

impl DeepView for Task {
    type V = TaskState;

    open spec fn deep_view(&self) -> TaskState {
        self@
    }
}

impl Task {
    /// The task for the probe of `host` that runs as `handler`, sends its
    /// records to `respone` and is called off through `cancell`.
    pub fn new(
        host: String,
        handler: tokio::task::JoinHandle<Result<(), ProbeError>>,
        cancell: tokio::sync::oneshot::Sender<bool>,
        respone: tokio::sync::mpsc::Receiver<Option<TaskRespone>>,
    ) -> (ret: Self)
        ensures
            ret@ == new_task(host@),
            ret.has_handler(),
    {
        let ret = Self {
            host,
            handler: Some(handler),
            resp: Vec::new(),
            cancell: Some(cancell),
            resp_rx: respone,
            ending: false,
            failure: None,
        };
        assert(ret@.records =~= Seq::<RecordView>::empty());
        ret
    }

    /// Whether the handle on the probe's job is still held.
    pub closed spec fn has_handler(&self) -> bool {
        self.handler is Some
    }

    /// The host that is probed.
    pub fn host(&self) -> (ret: &str)
        ensures
            ret@ == self@.host,
    {
        self.host.as_str()
    }

    /// The records that arrived, in the order of their arrival.
    pub fn respone(&self) -> (ret: &[TaskRespone])
        ensures
            ret.deep_view() == self@.records,
    {
        self.resp.as_slice()
    }

    /// Whether the end-of-stream marker arrived.
    pub fn ending(&self) -> (ret: bool)
        ensures
            ret == self@.ended,
    {
        self.ending
    }

    /// Whether the probe was asked to stop.
    pub fn cancel_requested(&self) -> (ret: bool)
        ensures
            ret == self@.cancel_requested,
    {
        self.cancell.is_none()
    }

    /// Why the probe's job failed, once that is known.
    pub fn failure(&self) -> (ret: Option<ProbeError>)
        ensures
            ret == self@.failure,
    {
        self.failure
    }

    /// Whether the outcome of the probe's job waits to be taken, given
    /// whether the job has run to its end: it does where the job has, and the
    /// handle on it is still held.
    pub fn outcome_waits(&self, job_done: bool) -> (ret: bool)
        ensures
            ret == (self.has_handler() && job_done),
    {
        self.handler.is_some() && job_done
    }

    /// Whether the probe's job has run to its end and its outcome waits to
    /// be taken. Without the handle on the job the answer is no.
    pub fn job_finished(&self) -> (ret: bool)
        ensures
            ret ==> self.has_handler(),
    {
        match &self.handler {
            Some(handle) => {
                let job_done = job_is_finished(handle);
                self.outcome_waits(job_done)
            },
            None => false,
        }
    }

    /// Takes note of the outcome of the probe's job: a failure becomes the
    /// task's failure, and success leaves the task as it is.
    pub fn settle(&mut self, outcome: Result<(), ProbeError>)
        ensures
            final(self)@ == settled(old(self)@, outcome),
            final(self).has_handler() == old(self).has_handler(),
    {
        match outcome {
            Ok(()) => {},
            Err(e) => {
                self.failure = Some(e);
            },
        }
    }

    /// Asks the probe to stop. The first call sends the signal, with the
    /// value that `stop_flag` gives, and fails where the probe no longer
    /// listens; any later call does nothing and succeeds. The probe sees the
    /// signal when it next looks.
    pub fn try_cancell(&mut self) -> (ret: Result<(), CancelFailed>)
        ensures
            final(self)@ == (TaskState { cancel_requested: true, ..old(self)@ }),
            final(self).has_handler() == old(self).has_handler(),
            old(self)@.cancel_requested ==> ret is Ok,
    {
        match self.cancell.take() {
            Some(tx) => {
                if send_signal(tx, stop_flag()) {
                    Ok(())
                } else {
                    Err(CancelFailed)
                }
            },
            None => Ok(()),
        }
    }

    /// Takes one arrival in: a record is appended, the end-of-stream marker
    /// ends the task, and an empty channel changes nothing. A task that has
    /// ended takes nothing more.
    pub fn absorb(&mut self, polled: Polled<Option<TaskRespone>>)
        ensures
            final(self)@ == absorb(old(self)@, arrival_of(polled)),
            final(self).has_handler() == old(self).has_handler(),
    {
        if !self.ending {
            match polled {
                Polled::Item(Some(record)) => {
                    self.resp.push(record);
                    assert(final(self)@.records =~= old(self)@.records.push(record@));
                },
                Polled::Item(None) => {
                    self.ending = true;
                },
                Polled::Empty => {},
                Polled::Disconnected => {},
            }
        }
    }

    /// Takes in what waits in the channel at this moment, without blocking:
    /// as many arrivals as the channel held when the call began, or fewer
    /// where the end-of-stream marker or an empty channel came first.
    pub fn recv_respone(&mut self)
        ensures
            drained_from(old(self)@, final(self)@),
            final(self)@.host == old(self)@.host,
            final(self)@.cancel_requested == old(self)@.cancel_requested,
            final(self)@.failure == old(self)@.failure,
            final(self).has_handler() == old(self).has_handler(),
            old(self)@.records.is_prefix_of(final(self)@.records),
            old(self)@.ended ==> final(self)@ == old(self)@,
            old(self)@.ended ==> final(self)@.ended,
    {
        let ghost mut seen: Seq<Arrival> = Seq::empty();
        if self.ending {
            assert(self@ == absorb_all(old(self)@, seen));
            return ;
        }
        let n: usize = waiting(&self.resp_rx);
        let mut k: usize = 0;
        while k < n && !self.ending
            invariant
                k <= n,
                self@ == absorb_all(old(self)@, seen),
                self@.host == old(self)@.host,
                self@.cancel_requested == old(self)@.cancel_requested,
                self@.failure == old(self)@.failure,
                self.has_handler() == old(self).has_handler(),
                old(self)@.records.is_prefix_of(self@.records),
            decreases n - k,
        {
            let polled = poll_channel(&mut self.resp_rx);
            let stop = !matches!(polled, Polled::Item(_));
            proof {
                lemma_absorb_all_push(old(self)@, seen, arrival_of(polled));
                seen = seen.push(arrival_of(polled));
            }
            self.absorb(polled);
            if stop {
                break ;
            }
            k = k + 1;
        }
    }

    /// Gives up the handle on the probe's job, if it is still held.
    pub fn take_handler(&mut self) -> (ret: Option<tokio::task::JoinHandle<Result<(), ProbeError>>>)
        ensures
            final(self)@ == old(self)@,
            !final(self).has_handler(),
            ret is Some == old(self).has_handler(),
    {
        self.handler.take()
    }
}

/// The probe no longer listens for the signal to stop.
#[derive(Debug, Clone, Copy, PartialEq, Eq, Structural)]
pub struct CancelFailed;

/// Taking in `items` and then `a` is taking in `items` with `a` at the end.
pub proof fn lemma_absorb_all_push(t: TaskState, items: Seq<Arrival>, a: Arrival)
    ensures
        absorb_all(t, items.push(a)) == absorb(absorb_all(t, items), a),
    decreases items.len(),
{
    let longer = items.push(a);
    if items.len() == 0 {
        assert(longer.drop_first() =~= Seq::<Arrival>::empty());
        assert(absorb_all(absorb(t, a), longer.drop_first()) == absorb(t, a));
    } else {
        assert(longer[0] == items[0]);
        assert(longer.drop_first() =~= items.drop_first().push(a));
        lemma_absorb_all_push(absorb(t, items[0]), items.drop_first(), a);
    }
}

/// An empty channel leaves a task as it is.
pub proof fn lemma_nothing_changes_nothing(t: TaskState)
    ensures
        absorb(t, Arrival::Nothing) == t,
{
}

/// A task that has ended stays as it is, whatever arrives: it does not
/// start again, and no record is added to it.
pub proof fn lemma_ended_is_final(t: TaskState, items: Seq<Arrival>)
    requires
        t.ended,
    ensures
        absorb_all(t, items) == t,
    decreases items.len(),
{
    if items.len() > 0 {
        lemma_ended_is_final(absorb(t, items[0]), items.drop_first());
    }
}

/// Taking in `front` and then `back` is taking in the two on end.
pub proof fn lemma_absorb_all_split(t: TaskState, front: Seq<Arrival>, back: Seq<Arrival>)
    ensures
        absorb_all(t, front + back) == absorb_all(absorb_all(t, front), back),
    decreases front.len(),
{
    if front.len() == 0 {
        assert(front + back =~= back);
    } else {
        assert((front + back)[0] == front[0]);
        assert((front + back).drop_first() =~= front.drop_first() + back);
        lemma_absorb_all_split(absorb(t, front[0]), front.drop_first(), back);
    }
}

/// Along any run of arrivals a task ends at most once: where it has ended
/// after the first `i` of them, it is the same after the first `j`, for any
/// later `j`.
pub proof fn lemma_ended_never_reverts(t: TaskState, items: Seq<Arrival>, i: int, j: int)
    requires
        0 <= i <= j <= items.len(),
        absorb_all(t, items.take(i)).ended,
    ensures
        absorb_all(t, items.take(j)) == absorb_all(t, items.take(i)),
        absorb_all(t, items.take(j)).ended,
{
    let front = items.take(i);
    let back = items.subrange(i, j);
    assert(items.take(j) =~= front + back);
    lemma_absorb_all_split(t, front, back);
    lemma_ended_is_final(absorb_all(t, front), back);
}

/// The records among the first `k` arrivals are the first of the records
/// among them all.
pub proof fn lemma_records_in_take(items: Seq<Arrival>, k: int)
    requires
        0 <= k <= items.len(),
    ensures
        records_in(items.take(k)).is_prefix_of(records_in(items)),
    decreases items.len(),
{
    if k == 0 {
        assert(items.take(0) =~= Seq::<Arrival>::empty());
    } else {
        let rest = items.drop_first();
        assert(items.take(k)[0] == items[0]);
        assert(items.take(k).drop_first() =~= rest.take(k - 1));
        lemma_records_in_take(rest, k - 1);
        let short = records_in(rest.take(k - 1));
        let long = records_in(rest);
        match items[0] {
            Arrival::Record(r) => {
                assert((seq![r] + short) =~= (seq![r] + long).subrange(0, short.len() as int + 1));
            },
            _ => {},
        }
    }
}

/// Arrivals change nothing of a task but its records and whether it has
/// ended. The records it had stay in front, and what is added to them are
/// the first of the records that arrived, in their order: none is skipped
/// and none changes place.
pub proof fn lemma_records_in_order(t: TaskState, items: Seq<Arrival>)
    ensures
        absorb_all(t, items).host == t.host,
        absorb_all(t, items).cancel_requested == t.cancel_requested,
        absorb_all(t, items).failure == t.failure,
        t.records.is_prefix_of(absorb_all(t, items).records),
        absorb_all(t, items).records.is_prefix_of(t.records + records_in(items)),
    decreases items.len(),
{
    if items.len() > 0 {
        let next = absorb(t, items[0]);
        let rest = items.drop_first();
        lemma_records_in_order(next, rest);
        if t.ended {
            lemma_ended_is_final(t, rest);
        } else {
            match items[0] {
                Arrival::Record(r) => {
                    assert(next.records + records_in(rest) =~= t.records + records_in(items));
                },
                Arrival::End => {
                    lemma_ended_is_final(next, rest);
                },
                Arrival::Nothing => {},
            }
        }
    }
}

/// What the owner of a new task has seen after any number of arrivals is a
/// prefix of the records that the probe produced, in the order in which it
/// produced them.
pub proof fn lemma_observed_is_prefix(host: Seq<char>, produced: Seq<Arrival>, k: int)
    requires
        0 <= k <= produced.len(),
    ensures
        absorb_all(new_task(host), produced.take(k)).records.is_prefix_of(records_in(produced)),
{
    let seen = absorb_all(new_task(host), produced.take(k)).records;
    let part = records_in(produced.take(k));
    lemma_records_in_order(new_task(host), produced.take(k));
    assert(new_task(host).records + part =~= part);
    lemma_records_in_take(produced, k);
    assert(seen =~= records_in(produced).subrange(0, seen.len() as int));
}

/// A task whose probe was called off before it produced anything, and so
/// hands over the end-of-stream marker alone, ends with no record.
pub proof fn lemma_end_without_records(host: Seq<char>)
    ensures
        absorb_all(new_task(host), seq![Arrival::End]) == (TaskState {
            ended: true,
            ..new_task(host)
        }),
        absorb_all(new_task(host), seq![Arrival::End]).records.len() == 0,
        absorb_all(new_task(host), seq![Arrival::End]).failure is None,
{
    let items = seq![Arrival::End];
    assert(items.drop_first() =~= Seq::<Arrival>::empty());
    assert(absorb_all(absorb(new_task(host), Arrival::End), items.drop_first()) == absorb(
        new_task(host),
        Arrival::End,
    ));
}

/// The end-of-stream marker ends a task that has not ended, adds no record
/// to it, and nothing that arrives afterwards does.
pub proof fn lemma_end_marker_ends(t: TaskState, later: Seq<Arrival>)
    requires
        !t.ended,
    ensures
        absorb(t, Arrival::End).ended,
        absorb(t, Arrival::End).records == t.records,
        absorb_all(absorb(t, Arrival::End), later) == absorb(t, Arrival::End),
{
    lemma_ended_is_final(absorb(t, Arrival::End), later);
}

} // verus!
