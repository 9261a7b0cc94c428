//! The verified core of airdo: configuration checks, subscription
//! conversion and the decisions around the proxy application.
use vstd::prelude::*;

pub mod app_config;
pub mod base64_util;
pub mod clash_config;
pub mod codec;
pub mod command_util;
pub mod health_check_mapper;
pub mod health_check_service;
pub mod http_util;
pub mod laws;
pub mod proxy_controller;
pub mod proxy_service;
pub mod sing_box_config;
pub mod subscriptions_service;
pub mod text;
pub mod version_service;

verus! {

} // verus!
