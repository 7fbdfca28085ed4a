use httping::itdog::message::Message;
use httping::{Itdog, PingServer, TaskRespone};

fn sample() -> Message {
    Message::new(
        "1.2.3.4".to_string(),
        200,
        "0.123".to_string(),
        "0.011".to_string(),
        "0.022".to_string(),
        "0.033".to_string(),
        1,
        "0.044".to_string(),
        "北京".to_string(),
    )
}

#[test]
fn message_getters_return_the_fields() {
    let m = sample();
    assert_eq!(m.ip(), "1.2.3.4");
    assert_eq!(m.http_code(), 200);
    assert_eq!(m.all_time(), "0.123");
    assert_eq!(m.dns_time(), "0.011");
    assert_eq!(m.connect_time(), "0.022");
    assert_eq!(m.download_time(), "0.033");
    assert_eq!(m.redirect(), 1);
    assert_eq!(m.redirect_time(), "0.044");
    assert_eq!(m.name(), "北京");
}

#[test]
fn construct_row_lists_the_cells_in_column_order() {
    assert_eq!(
        sample().construct_row(),
        vec!["北京", "1.2.3.4", "200", "0.123", "0.011", "0.022", "0.033", "1", "0.044"]
    );
}

#[test]
fn construct_row_writes_negative_numbers() {
    let m = Message::new(
        String::new(),
        -1,
        String::new(),
        String::new(),
        String::new(),
        String::new(),
        i32::MIN,
        String::new(),
        String::new(),
    );
    assert_eq!(m.construct_row(), vec!["", "", "-1", "", "", "", "", "-2147483648", ""]);
}

#[test]
fn construct_header_names_the_nine_columns() {
    assert_eq!(
        Message::construct_header(),
        vec![
            "名称",
            "IP",
            "状态",
            "总时间",
            "DNS时间",
            "连接时间",
            "下载时间",
            "重定向",
            "重定向时间"
        ]
    );
}

#[test]
fn default_record_is_empty() {
    let r = TaskRespone::default();
    assert_eq!(r.loc(), "");
    assert_eq!(r.ip(), "");
    assert_eq!(r.status(), 0);
    assert_eq!(r.total_cost(), "");
    assert!(r.other_name_list().is_empty());
    assert!(r.other_cost_list().is_empty());
    assert_eq!(r.redirect(), 0);
    assert_eq!(r.redirect_cost(), "");
}

#[test]
fn record_builders_set_one_field_each() {
    let r = TaskRespone::default()
        .with_loc("上海".to_string())
        .with_ip("5.6.7.8".to_string())
        .with_status(404)
        .with_total_cost("1.500".to_string())
        .with_other_name_list(vec!["a".to_string(), "b".to_string()])
        .with_other_cost_list(vec!["0.1".to_string(), "0.2".to_string()])
        .with_redirect(3)
        .with_redirect_cost("0.7".to_string());
    assert_eq!(r.loc(), "上海");
    assert_eq!(r.ip(), "5.6.7.8");
    assert_eq!(r.status(), 404);
    assert_eq!(r.total_cost(), "1.500");
    assert_eq!(r.other_name_list(), ["a".to_string(), "b".to_string()]);
    assert_eq!(r.other_cost_list(), ["0.1".to_string(), "0.2".to_string()]);
    assert_eq!(r.redirect(), 3);
    assert_eq!(r.redirect_cost(), "0.7");
}

#[test]
fn record_setters_chain_and_keep_the_rest() {
    let mut r = TaskRespone::default().with_loc("x".to_string()).with_status(200);
    r.set_ip("9.9.9.9".to_string()).set_redirect(2).set_redirect_cost("0.9".to_string());
    r.set_total_cost("0.001".to_string());
    r.set_other_name_list(vec!["n".to_string()]).set_other_cost_list(vec!["c".to_string()]);
    assert_eq!(r.loc(), "x");
    assert_eq!(r.status(), 200);
    assert_eq!(r.ip(), "9.9.9.9");
    assert_eq!(r.redirect(), 2);
    assert_eq!(r.redirect_cost(), "0.9");
    assert_eq!(r.total_cost(), "0.001");
    assert_eq!(r.other_name_list(), ["n".to_string()]);
    assert_eq!(r.other_cost_list(), ["c".to_string()]);
    r.set_loc("y".to_string()).set_status(500);
    assert_eq!(r.loc(), "y");
    assert_eq!(r.status(), 500);
    assert_eq!(r.ip(), "9.9.9.9");
}

#[test]
fn time_text_is_kept_to_the_letter() {
    let r = TaskRespone::default().with_total_cost("0.0100".to_string());
    assert_eq!(r.total_cost(), "0.0100");
    let copy = r.clone();
    assert_eq!(copy.total_cost(), "0.0100");
}

#[test]
fn itdog_is_named_itdog() {
    assert_eq!(Itdog.name(), "itdog");
}

#[test]
fn itdog_turns_a_measurement_into_a_record() {
    let r = Itdog::respone_of(&sample());
    assert_eq!(r.loc(), "北京");
    assert_eq!(r.ip(), "1.2.3.4");
    assert_eq!(r.status(), 200);
    assert_eq!(r.total_cost(), "0.123");
    assert_eq!(r.redirect(), 1);
    assert_eq!(r.redirect_cost(), "0.044");
    assert_eq!(
        r.other_name_list(),
        ["DNS时间".to_string(), "连接时间".to_string(), "下载时间".to_string()]
    );
    assert_eq!(
        r.other_cost_list(),
        ["0.011".to_string(), "0.022".to_string(), "0.033".to_string()]
    );
}
