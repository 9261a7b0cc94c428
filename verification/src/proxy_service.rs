//! The decisions around the proxy application: how it is started, which
//! of its nodes are health-checked, and the controller requests.
use vstd::prelude::*;
use vstd::utf8::encode_utf8;

use crate::codec::{percent_encode_bytes, percent_encode_text};
use crate::text::{decimal, eq_ignore_ascii_case, eq_ignore_case, text_eq, u128_to_decimal};

verus! {

/// Where the proxy's controller listens and the secret it wants.
#[derive(Debug, Clone)]
pub struct ProxyApiInfo {
    pub external_controller: String,
    pub secret: String,
}

/// A delay test that the controller answered with an unsuccessful status.
#[derive(Debug, Clone)]
pub struct DelayStatusError {
    pub status: u16,
    pub des: String,
}

impl DelayStatusError {
    /// An error for the status `status` with the description `des`.
    pub fn new(status: u16, des: &str) -> (r: Self)
        ensures
            r.status == status,
            r.des@ == des@,
    {
        DelayStatusError { status, des: des.to_owned() }
    }

    /// The text of the error: `DelayStatusError`, the status in decimal and
    /// the description, separated by spaces.
    pub fn message(&self) -> (r: String)
        ensures
            r@ == "DelayStatusError "@ + decimal(self.status as nat) + " "@ + self.des@,
    {
        let mut r = "DelayStatusError ".to_owned();
        r.append(u128_to_decimal(self.status as u128).as_str());
        r.append(" ");
        r.append(self.des.as_str());
        r
    }
}

/// The error for a delay test that the controller answered with `status`:
/// the status's canonical reason describes it, or `<unknown status code>`
/// when the status has none.
pub fn delay_status_error(status: u16, canonical_reason: Option<&str>) -> (r: DelayStatusError)
    ensures
        r.status == status,
        r.des@ == match canonical_reason {
            Some(reason) => reason@,
            None => "<unknown status code>"@,
        },
{
    match canonical_reason {
        Some(reason) => DelayStatusError::new(status, reason),
        None => DelayStatusError::new(status, "<unknown status code>"),
    }
}

// ---------------------------------------------------------------------------
// Starting the proxy
// ---------------------------------------------------------------------------

/// The shell commands that start the proxy core `core` (mihomo for a core
/// named `mihomo` in any ASCII case, sing-box otherwise).
pub open spec fn start_commands(core: Seq<char>, windows: bool) -> Seq<Seq<char>> {
    if eq_ignore_case(core, "mihomo"@) {
        if windows {
            seq![".\\mihomo.exe -d ."@]
        } else {
            seq!["./mihomo -d ."@]
        }
    } else {
        if windows {
            seq![".\\sing-box.exe run -c config.json"@]
        } else {
            seq!["./sing-box run -c config.json"@]
        }
    }
}

/// The commands that start the proxy core named `core`, on Windows or on a
/// Unix system.
pub fn proxy_start_commands(core: &str, windows: bool) -> (r: Vec<String>)
    ensures
        r.deep_view() == start_commands(core@, windows),
{
    let mihomo = eq_ignore_ascii_case(core, "mihomo");
    let command = if mihomo {
        if windows {
            ".\\mihomo.exe -d .".to_owned()
        } else {
            "./mihomo -d .".to_owned()
        }
    } else {
        if windows {
            ".\\sing-box.exe run -c config.json".to_owned()
        } else {
            "./sing-box run -c config.json".to_owned()
        }
    };
    let mut r: Vec<String> = Vec::new();
    r.push(command);
    assert(r.deep_view() =~= start_commands(core@, windows));
    r
}

// ---------------------------------------------------------------------------
// The nodes that are health-checked
// ---------------------------------------------------------------------------

/// `DIRECT` and `REJECT`, in any ASCII case, are not proxy nodes.
pub open spec fn is_builtin_outbound(name: Seq<char>) -> bool {
    eq_ignore_case(name, "DIRECT"@) || eq_ignore_case(name, "REJECT"@)
}

/// The names that are proxy nodes, in their order.
pub open spec fn proxy_nodes(names: Seq<Seq<char>>) -> Seq<Seq<char>>
    decreases names.len(),
{
    if names.len() == 0 {
        Seq::<Seq<char>>::empty()
    } else if is_builtin_outbound(names.last()) {
        proxy_nodes(names.drop_last())
    } else {
        proxy_nodes(names.drop_last()).push(names.last())
    }
}

/// The members of the controller's `GLOBAL` group that are proxy nodes,
/// in their order: `DIRECT` and `REJECT` (any ASCII case) are dropped.
pub fn filter_proxy_nodes(all: Vec<String>) -> (r: Vec<String>)
    ensures
        r.deep_view() == proxy_nodes(all.deep_view()),
{
    let mut r: Vec<String> = Vec::new();
    let mut i: usize = 0;
    while i < all.len()
        invariant
            i <= all@.len(),
            r.deep_view() == proxy_nodes(all.deep_view().take(i as int)),
        decreases all.len() - i,
    {
        let name = all[i].as_str();
        assert(all.deep_view().take(i + 1).drop_last() =~= all.deep_view().take(i as int));
        assert(all.deep_view()[i as int] == all@[i as int]@);
        if !(eq_ignore_ascii_case(name, "DIRECT") || eq_ignore_ascii_case(name, "REJECT")) {
            r.push(all[i].clone());
        }
        i = i + 1;
    }
    assert(all.deep_view().take(all@.len() as int) =~= all.deep_view());
    r
}

// ---------------------------------------------------------------------------
// The controller's node list
// ---------------------------------------------------------------------------

/// `p` is where `name` first stands among `keys`, or `None` when it is not
/// among them.
pub open spec fn is_first_position(keys: Seq<Seq<char>>, name: Seq<char>, p: Option<usize>) -> bool {
    match p {
        Some(j) => {
            &&& j < keys.len()
            &&& keys[j as int] == name
            &&& forall|k: int| 0 <= k < j ==> keys[k] != name
        },
        None => forall|k: int| 0 <= k < keys.len() ==> keys[k] != name,
    }
}

/// Where `name` first stands among `keys`.
pub fn first_position(keys: &Vec<String>, name: &str) -> (r: Option<usize>)
    ensures
        is_first_position(keys.deep_view(), name@, r),
{
    let mut k: usize = 0;
    while k < keys.len()
        invariant
            k <= keys@.len(),
            forall|m: int| 0 <= m < k ==> keys.deep_view()[m] != name@,
        decreases keys.len() - k,
    {
        assert(keys.deep_view()[k as int] == keys@[k as int]@);
        if text_eq(keys[k].as_str(), name) {
            return Some(k);
        }
        k = k + 1;
    }
    None
}

/// For each of the `proxy` group's member names, where its node stands
/// among the controller's node names `keys` (`None` for a member that has
/// no node), in the members' order.
pub fn node_positions(names: &Vec<String>, keys: &Vec<String>) -> (r: Vec<Option<usize>>)
    ensures
        r@.len() == names@.len(),
        forall|i: int|
            0 <= i < names@.len() ==> is_first_position(
                keys.deep_view(),
                names.deep_view()[i],
                #[trigger] r@[i],
            ),
{
    let mut r: Vec<Option<usize>> = Vec::new();
    let mut i: usize = 0;
    while i < names.len()
        invariant
            i <= names@.len(),
            r@.len() == i,
            forall|m: int|
                0 <= m < i ==> is_first_position(
                    keys.deep_view(),
                    names.deep_view()[m],
                    #[trigger] r@[m],
                ),
        decreases names.len() - i,
    {
        assert(names.deep_view()[i as int] == names@[i as int]@);
        let p = first_position(keys, names[i].as_str());
        r.push(p);
        i = i + 1;
    }
    r
}

// ---------------------------------------------------------------------------
// Controller requests
// ---------------------------------------------------------------------------

/// The percent-encoding of a text under the set of all bytes but ASCII
/// letters and digits.
pub open spec fn url_component(s: Seq<char>) -> Seq<char> {
    percent_encode_bytes(encode_utf8(s))
}

/// The controller path that tests the delay of one node.
pub open spec fn delay_path_spec(node_name: Seq<char>, timeout_ms: nat, test_url: Seq<char>) -> Seq<
    char,
> {
    "/proxies/"@ + url_component(node_name) + "/delay?timeout="@ + decimal(timeout_ms) + "&url="@
        + url_component(test_url)
}

/// The controller path that tests the delay of the whole `proxy` group.
pub open spec fn group_delay_path_spec(timeout_ms: nat, test_url: Seq<char>) -> Seq<char> {
    "/group/proxy/delay?timeout="@ + decimal(timeout_ms) + "&url="@ + url_component(test_url)
}

/// The controller path that tests the delay of the node `node_name`
/// against `test_url`, waiting at most `timeout_ms` milliseconds.
pub fn delay_path(node_name: &str, timeout_ms: u128, test_url: &str) -> (r: String)
    ensures
        r@ == delay_path_spec(node_name@, timeout_ms as nat, test_url@),
{
    let mut r = "/proxies/".to_owned();
    r.append(percent_encode_text(node_name).as_str());
    r.append("/delay?timeout=");
    r.append(u128_to_decimal(timeout_ms).as_str());
    r.append("&url=");
    r.append(percent_encode_text(test_url).as_str());
    proof {
        reveal_strlit("/proxies/");
        reveal_strlit("/delay?timeout=");
        reveal_strlit("&url=");
    }
    assert(r@ =~= delay_path_spec(node_name@, timeout_ms as nat, test_url@));
    r
}

/// The controller path that tests the delay of every node of the `proxy`
/// group against `test_url`, waiting at most `timeout_ms` milliseconds.
pub fn group_delay_path(timeout_ms: u128, test_url: &str) -> (r: String)
    ensures
        r@ == group_delay_path_spec(timeout_ms as nat, test_url@),
{
    let mut r = "/group/proxy/delay?timeout=".to_owned();
    r.append(u128_to_decimal(timeout_ms).as_str());
    r.append("&url=");
    r.append(percent_encode_text(test_url).as_str());
    proof {
        reveal_strlit("/group/proxy/delay?timeout=");
        reveal_strlit("&url=");
    }
    assert(r@ =~= group_delay_path_spec(timeout_ms as nat, test_url@));
    r
}

// ---------------------------------------------------------------------------
// Waiting for the controller
// ---------------------------------------------------------------------------

/// How many connection attempts are made before the controller is given up.
pub const API_PROBE_ATTEMPTS: u32 = 5;

/// What to do after a connection attempt to the controller.
#[derive(Debug, Clone, Copy, PartialEq, Eq)]
pub enum ProbeStep {
    /// The controller answered: it is started.
    Started,
    /// Wait a second and try again.
    Retry,
    /// All attempts failed: it is not started.
    GiveUp,
}

/// The step after attempt number `attempt` (counted from 0) succeeded or
/// failed: stop on success, retry while attempts are left, else give up.
pub open spec fn probe_step(attempt: nat, connected: bool) -> ProbeStep {
    if connected {
        ProbeStep::Started
    } else if attempt + 1 < API_PROBE_ATTEMPTS {
        ProbeStep::Retry
    } else {
        ProbeStep::GiveUp
    }
}

/// The step after attempt number `attempt` (counted from 0) succeeded or
/// failed: stop on success, retry while attempts are left, else give up.
pub fn api_probe_step(attempt: u32, connected: bool) -> (r: ProbeStep)
    requires
        attempt < API_PROBE_ATTEMPTS,
    ensures
        r == probe_step(attempt as nat, connected),
{
    if connected {
        ProbeStep::Started
    } else if attempt + 1 < API_PROBE_ATTEMPTS {
        ProbeStep::Retry
    } else {
        ProbeStep::GiveUp
    }
}

/// Whether the controller counts as started when the attempts from number
/// `attempt` on connect as `connected` says, stepping by `probe_step`.
pub open spec fn probe_run(connected: Seq<bool>, attempt: nat) -> bool
    decreases API_PROBE_ATTEMPTS - attempt,
{
    if attempt >= API_PROBE_ATTEMPTS || attempt >= connected.len() {
        false
    } else {
        match probe_step(attempt, connected[attempt as int]) {
            ProbeStep::Started => true,
            ProbeStep::GiveUp => false,
            ProbeStep::Retry => probe_run(connected, attempt + 1),
        }
    }
}

} // verus!
