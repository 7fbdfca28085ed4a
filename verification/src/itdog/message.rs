//! One measurement as the service reports it.

use vstd::prelude::*;
use crate::text::{i32_to_string, int_decimal};

verus! {

/// A measurement as plain values.
pub struct MessageView {
    pub ip: Seq<char>,
    pub http_code: int,
    pub all_time: Seq<char>,
    pub dns_time: Seq<char>,
    pub connect_time: Seq<char>,
    pub download_time: Seq<char>,
    pub redirect: int,
    pub redirect_time: Seq<char>,
    pub name: Seq<char>,
}

/// The cells of the table row for `m`, in the order of the table's columns.
pub open spec fn row_of(m: MessageView) -> Seq<Seq<char>> {
    seq![
        m.name,
        m.ip,
        int_decimal(m.http_code),
        m.all_time,
        m.dns_time,
        m.connect_time,
        m.download_time,
        int_decimal(m.redirect),
        m.redirect_time,
    ]
}

/// The titles of the table's columns.
pub open spec fn header_row() -> Seq<Seq<char>> {
    seq![
        "名称"@,
        "IP"@,
        "状态"@,
        "总时间"@,
        "DNS时间"@,
        "连接时间"@,
        "下载时间"@,
        "重定向"@,
        "重定向时间"@,
    ]
}

/// One measurement from one location. The times are decimal seconds, kept as
/// the text that the service sent.
#[derive(Debug)]
pub struct Message {
    ip: String,
    http_code: i32,
    all_time: String,
    dns_time: String,
    connect_time: String,
    download_time: String,
    redirect: i32,
    redirect_time: String,
    name: String,
}

impl View for Message {
    type V = MessageView;

    closed spec fn view(&self) -> MessageView {
        MessageView {
            ip: self.ip@,
            http_code: self.http_code as int,
            all_time: self.all_time@,
            dns_time: self.dns_time@,
            connect_time: self.connect_time@,
            download_time: self.download_time@,
            redirect: self.redirect as int,
            redirect_time: self.redirect_time@,
            name: self.name@,
        }
    }
}

impl Message {
    /// A measurement of the given fields.
    pub fn new(
        ip: String,
        http_code: i32,
        all_time: String,
        dns_time: String,
        connect_time: String,
        download_time: String,
        redirect: i32,
        redirect_time: String,
        name: String,
    ) -> (ret: Self)
        ensures
            ret@ == (MessageView {
                ip: ip@,
                http_code: http_code as int,
                all_time: all_time@,
                dns_time: dns_time@,
                connect_time: connect_time@,
                download_time: download_time@,
                redirect: redirect as int,
                redirect_time: redirect_time@,
                name: name@,
            }),
    {
        Self {
            ip,
            http_code,
            all_time,
            dns_time,
            connect_time,
            download_time,
            redirect,
            redirect_time,
            name,
        }
    }

    /// The address that the host resolved to.
    pub fn ip(&self) -> (ret: &str)
        ensures
            ret@ == self@.ip,
    {
        self.ip.as_str()
    }

    /// The HTTP status code.
    pub fn http_code(&self) -> (ret: i32)
        ensures
            ret as int == self@.http_code,
    {
        self.http_code
    }

    /// The total time.
    pub fn all_time(&self) -> (ret: &str)
        ensures
            ret@ == self@.all_time,
    {
        self.all_time.as_str()
    }

    /// The time of the name lookup.
    pub fn dns_time(&self) -> (ret: &str)
        ensures
            ret@ == self@.dns_time,
    {
        self.dns_time.as_str()
    }

    /// The time to connect.
    pub fn connect_time(&self) -> (ret: &str)
        ensures
            ret@ == self@.connect_time,
    {
        self.connect_time.as_str()
    }

    /// The time to download.
    pub fn download_time(&self) -> (ret: &str)
        ensures
            ret@ == self@.download_time,
    {
        self.download_time.as_str()
    }

    /// The number of redirects.
    pub fn redirect(&self) -> (ret: i32)
        ensures
            ret as int == self@.redirect,
    {
        self.redirect
    }

    /// The time spent on redirects.
    pub fn redirect_time(&self) -> (ret: &str)
        ensures
            ret@ == self@.redirect_time,
    {
        self.redirect_time.as_str()
    }

    /// Where the measurement was taken.
    pub fn name(&self) -> (ret: &str)
        ensures
            ret@ == self@.name,
    {
        self.name.as_str()
    }

    /// The cells of the table row for this measurement.
    pub fn construct_row(&self) -> (row: Vec<String>)
        ensures
            row.deep_view() == row_of(self@),
    {
        let mut row: Vec<String> = Vec::new();
        row.push(self.name.clone());
        row.push(self.ip.clone());
        row.push(i32_to_string(self.http_code));
        row.push(self.all_time.clone());
        row.push(self.dns_time.clone());
        row.push(self.connect_time.clone());
        row.push(self.download_time.clone());
        row.push(i32_to_string(self.redirect));
        row.push(self.redirect_time.clone());
        assert(row.deep_view() =~= row_of(self@));
        row
    }

    /// The titles of the table's columns.
    pub fn construct_header() -> (row: Vec<String>)
        ensures
            row.deep_view() == header_row(),
    {
        let mut row: Vec<String> = Vec::new();
        row.push("名称".to_owned());
        row.push("IP".to_owned());
        row.push("状态".to_owned());
        row.push("总时间".to_owned());
        row.push("DNS时间".to_owned());
        row.push("连接时间".to_owned());
        row.push("下载时间".to_owned());
        row.push("重定向".to_owned());
        row.push("重定向时间".to_owned());
        assert(row.deep_view() =~= header_row());
        row
    }
}

} // verus!
