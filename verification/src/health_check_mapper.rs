//! The health-check records and how an insert statement is laid out.
use vstd::prelude::*;

verus! {

/// One health-check record; every field is optional as in the table.
#[derive(Debug, Clone)]
pub struct HealthCheck {
    pub id: Option<u32>,
    pub create_time: Option<i64>,
    pub request_time: Option<i64>,
    pub node_name: Option<String>,
    pub status_code: Option<u16>,
    pub status_des: Option<String>,
    pub delay_ms: Option<i32>,
}

/// The columns that an insert may fill.
#[derive(Debug, Clone, Copy, PartialEq, Eq)]
pub enum HealthCheckColumn {
    CreateTime,
    RequestTime,
    NodeName,
    StatusCode,
    StatusDes,
    DelayMs,
}

/// The columns of the fields that `e` holds, in table order: create time,
/// request time, node name, status code, status description, delay.
pub open spec fn present_columns(e: HealthCheck) -> Seq<HealthCheckColumn> {
    (if e.create_time is Some { seq![HealthCheckColumn::CreateTime] } else { seq![] })
        + (if e.request_time is Some { seq![HealthCheckColumn::RequestTime] } else { seq![] })
        + (if e.node_name is Some { seq![HealthCheckColumn::NodeName] } else { seq![] })
        + (if e.status_code is Some { seq![HealthCheckColumn::StatusCode] } else { seq![] })
        + (if e.status_des is Some { seq![HealthCheckColumn::StatusDes] } else { seq![] })
        + (if e.delay_ms is Some { seq![HealthCheckColumn::DelayMs] } else { seq![] })
}

/// The columns an insert of `e` names, and binds values for, in this order.
pub fn insert_columns(e: &HealthCheck) -> (r: Vec<HealthCheckColumn>)
    ensures
        r@ == present_columns(*e),
{
    let mut r: Vec<HealthCheckColumn> = Vec::new();
    if e.create_time.is_some() {
        r.push(HealthCheckColumn::CreateTime);
    }
    if e.request_time.is_some() {
        r.push(HealthCheckColumn::RequestTime);
    }
    if e.node_name.is_some() {
        r.push(HealthCheckColumn::NodeName);
    }
    if e.status_code.is_some() {
        r.push(HealthCheckColumn::StatusCode);
    }
    if e.status_des.is_some() {
        r.push(HealthCheckColumn::StatusDes);
    }
    if e.delay_ms.is_some() {
        r.push(HealthCheckColumn::DelayMs);
    }
    assert(r@ =~= present_columns(*e));
    r
}

/// The name of a column in the `health_check` table.
pub open spec fn column_name_spec(c: HealthCheckColumn) -> Seq<char> {
    match c {
        HealthCheckColumn::CreateTime => "create_time"@,
        HealthCheckColumn::RequestTime => "request_time"@,
        HealthCheckColumn::NodeName => "node_name"@,
        HealthCheckColumn::StatusCode => "status_code"@,
        HealthCheckColumn::StatusDes => "status_des"@,
        HealthCheckColumn::DelayMs => "delay_ms"@,
    }
}

/// The name of a column in the `health_check` table.
pub fn column_name(c: HealthCheckColumn) -> (r: &'static str)
    ensures
        r@ == column_name_spec(c),
{
    match c {
        HealthCheckColumn::CreateTime => "create_time",
        HealthCheckColumn::RequestTime => "request_time",
        HealthCheckColumn::NodeName => "node_name",
        HealthCheckColumn::StatusCode => "status_code",
        HealthCheckColumn::StatusDes => "status_des",
        HealthCheckColumn::DelayMs => "delay_ms",
    }
}

/// The number of rows a page skips: `(page_number - 1) * page_size`.
/// Pages are counted from 1, and the offset must fit in 32 bits.
pub fn page_offset(page_number: u32, page_size: u32) -> (r: u32)
    requires
        page_number >= 1,
        (page_number - 1) * page_size <= u32::MAX,
    ensures
        r == (page_number - 1) * page_size,
{
    (page_number - 1) * page_size
}

/// The total a page reports when `count` rows match: none when no row
/// matches, and the page is empty; else the count cut to its low 32 bits.
pub fn page_total(count: i64) -> (r: Option<u32>)
    ensures
        count <= 0 ==> r is None,
        count > 0 ==> r == Some(count as u32),
{
    if count <= 0 {
        None
    } else {
        Some(count as u32)
    }
}

} // verus!
