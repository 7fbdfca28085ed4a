//! The backend that measures through the itdog service.

use vstd::prelude::*;
use crate::itdog::message::{Message, MessageView};
use crate::server::{PingServer, RecordView, TaskRespone};

verus! {

/// The names of the phases that the service times, in the order in which a
/// record lists their times.
pub open spec fn phase_names() -> Seq<Seq<char>> {
    seq!["DNS时间"@, "连接时间"@, "下载时间"@]
}

/// The record that the measurement `m` becomes.
pub open spec fn record_of(m: MessageView) -> RecordView {
    RecordView {
        loc: m.name,
        ip: m.ip,
        status: m.http_code,
        total_cost: m.all_time,
        other_name_list: phase_names(),
        other_cost_list: seq![m.dns_time, m.connect_time, m.download_time],
        redirect: m.redirect,
        redirect_cost: m.redirect_time,
    }
}

/// The itdog measurement service as a backend.
pub struct Itdog;

impl PingServer for Itdog {
    fn name(&self) -> (ret: &str)
        ensures
            ret@ == "itdog"@,
    {
        "itdog"
    }
}

impl Itdog {
    /// The record that the service's measurement `msg` becomes. Every text is
    /// taken over as it is.
    pub fn respone_of(msg: &Message) -> (ret: TaskRespone)
        ensures
            ret@ == record_of(msg@),
    {
        let mut names: Vec<String> = Vec::new();
        names.push("DNS时间".to_owned());
        names.push("连接时间".to_owned());
        names.push("下载时间".to_owned());
        let mut costs: Vec<String> = Vec::new();
        costs.push(msg.dns_time().to_owned());
        costs.push(msg.connect_time().to_owned());
        costs.push(msg.download_time().to_owned());
        assert(names.deep_view() =~= phase_names());
        assert(costs.deep_view() =~= seq![msg@.dns_time, msg@.connect_time, msg@.download_time]);
        TaskRespone::default()
            .with_loc(msg.name().to_owned())
            .with_ip(msg.ip().to_owned())
            .with_status(msg.http_code())
            .with_redirect(msg.redirect())
            .with_redirect_cost(msg.redirect_time().to_owned())
            .with_total_cost(msg.all_time().to_owned())
            .with_other_name_list(names)
            .with_other_cost_list(costs)
    }
}

} // verus!
