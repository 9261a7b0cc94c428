//! What a delay test of one proxy node records.
use vstd::prelude::*;

use crate::health_check_mapper::HealthCheck;
use crate::proxy_service::DelayStatusError;

verus! {

/// How a delay test ended.
#[derive(Debug, Clone)]
pub enum DelayOutcome {
    /// The node answered after this many milliseconds.
    Delay(i64),
    /// The controller answered the test with an unsuccessful status.
    Status(DelayStatusError),
    /// The test could not be made; the text describes why.
    Failure(String),
}

/// The record of a delay test of `node_name` requested at `request_time`:
/// a measured delay is stored with status 200 `Success`; an unsuccessful
/// status is stored with its code and description and delay -1. A test
/// that could not be made is not recorded: its description comes back as
/// the error. The creation time is left to the caller.
pub fn health_check_record(request_time: i64, node_name: &str, outcome: DelayOutcome) -> (r: Result<
    HealthCheck,
    String,
>)
    ensures
        match outcome {
            DelayOutcome::Failure(msg) => r matches Err(m) && m@ == msg@,
            _ => r matches Ok(e) && {
                &&& e.id is None
                &&& e.create_time is None
                &&& e.request_time == Some(request_time)
                &&& e.node_name.deep_view() == Some(node_name@)
                &&& match outcome {
                    DelayOutcome::Delay(ms) => {
                        &&& e.status_code == Some(200u16)
                        &&& e.status_des.deep_view() == Some("Success"@)
                        &&& e.delay_ms == Some(ms as i32)
                    },
                    DelayOutcome::Status(s) => {
                        &&& e.status_code == Some(s.status)
                        &&& e.status_des.deep_view() == Some(s.des@)
                        &&& e.delay_ms == Some(-1i32)
                    },
                    _ => true,
                }
            },
        },
{
    let mut entity = HealthCheck {
        id: None,
        create_time: None,
        request_time: Some(request_time),
        node_name: Some(node_name.to_owned()),
        status_code: None,
        status_des: None,
        delay_ms: None,
    };
    match outcome {
        DelayOutcome::Delay(ms) => {
            entity.status_code = Some(200);
            entity.status_des = Some("Success".to_owned());
            entity.delay_ms = Some(ms as i32);
        },
        DelayOutcome::Status(s) => {
            entity.status_code = Some(s.status);
            entity.status_des = Some(s.des);
            entity.delay_ms = Some(-1);
        },
        DelayOutcome::Failure(msg) => {
            return Err(msg);
        },
    }
    Ok(entity)
}

} // verus!
