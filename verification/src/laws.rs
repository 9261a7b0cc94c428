//! Properties that hold across the library's operations.
use vstd::prelude::*;

use crate::app_config::{config_error, secret_filled, Config};
use crate::clash_config::ClashProxyModel;
use crate::codec::{
    hex_upper, hex_value, is_ascii_alphanumeric_byte, percent_decode_bytes, percent_decoded_text,
    percent_encode_byte, percent_encode_bytes,
};
use crate::proxy_service::{
    delay_path_spec, group_delay_path_spec, is_builtin_outbound, probe_run, proxy_nodes, url_component, API_PROBE_ATTEMPTS,
};
use crate::subscriptions_service::{
    clash_node, clash_nodes, node_link, outbound_of, query_lookup, sing_box_node, sing_box_nodes,
};
use crate::text::{
    ascii_lower, ascii_lower_seq, decimal, eq_ignore_case, has_prefix, is_ascii_upper,
};
use vstd::utf8::{
    encode_utf8, encode_utf8_decode_utf8, encode_utf8_valid_utf8, is_ascii_chars,
    is_ascii_chars_encode_utf8,
};

verus! {

/// A configuration that `validate_config` accepts is usable: its test
/// address begins with `http`, a proxy is configured, and a built-in proxy
/// has a non-empty secret.
pub proof fn lemma_validated_config_is_usable(before: Config, after: Config)
    requires
        config_error(before) is None,
        secret_filled(before, after),
    ensures
        has_prefix(after.health_check.test_url@, "http"@),
        after.proxy.inner is Some || after.proxy.external is Some,
        after.proxy.inner matches Some(j) ==> j.secret@.len() > 0,
{
}

/// Converting a Clash subscription to sing-box gives one outbound per
/// proxy, in the same order, with the proxy's name as tag and its server,
/// port and password.
pub proof fn lemma_outbounds_follow_proxies(proxies: Seq<ClashProxyModel>)
    ensures
        ({
            let outbounds = proxies.map_values(|p: ClashProxyModel| outbound_of(p));
            &&& outbounds.len() == proxies.len()
            &&& forall|i: int|
                0 <= i < proxies.len() ==> {
                    &&& (#[trigger] outbounds[i]).tag == proxies[i].name
                    &&& outbounds[i].server == proxies[i].server
                    &&& outbounds[i].server_port == proxies[i].port
                    &&& outbounds[i].password == proxies[i].password
                }
        }),
{
}

/// The health-checked nodes are among the controller's names, in their
/// order, never `DIRECT` or `REJECT`, and filtering them again changes
/// nothing.
pub proof fn lemma_proxy_nodes_filter(names: Seq<Seq<char>>)
    ensures
        proxy_nodes(names).len() <= names.len(),
        forall|i: int|
            0 <= i < proxy_nodes(names).len() ==> !is_builtin_outbound(
                #[trigger] proxy_nodes(names)[i],
            ) && names.contains(proxy_nodes(names)[i]),
        proxy_nodes(proxy_nodes(names)) == proxy_nodes(names),
    decreases names.len(),
{
    if names.len() > 0 {
        let prev = names.drop_last();
        lemma_proxy_nodes_filter(prev);
        assert forall|i: int|
            0 <= i < proxy_nodes(names).len() implies !is_builtin_outbound(
                #[trigger] proxy_nodes(names)[i],
            ) && names.contains(proxy_nodes(names)[i]) by {
            if i < proxy_nodes(prev).len() {
                assert(proxy_nodes(names)[i] == proxy_nodes(prev)[i]);
                let k = choose|k: int| 0 <= k < prev.len() && prev[k] == proxy_nodes(prev)[i];
                assert(names[k] == prev[k]);
            } else {
                assert(names[names.len() - 1] == names.last());
            }
        }
        if !is_builtin_outbound(names.last()) {
            let kept = proxy_nodes(names);
            assert(kept.drop_last() =~= proxy_nodes(prev));
        }
    }
}

/// The number of non-empty lines.
pub open spec fn non_empty_lines(lines: Seq<Seq<char>>) -> nat
    decreases lines.len(),
{
    if lines.len() == 0 {
        0
    } else if lines.last().len() == 0 {
        non_empty_lines(lines.drop_last())
    } else {
        non_empty_lines(lines.drop_last()) + 1
    }
}

/// A universal subscription that is accepted gives exactly one Clash proxy
/// per non-empty line.
pub proof fn lemma_one_clash_proxy_per_line(lines: Seq<Seq<char>>)
    ensures
        clash_nodes(lines) matches Ok(proxies) ==> proxies.len() == non_empty_lines(lines),
    decreases lines.len(),
{
    if lines.len() > 0 {
        lemma_one_clash_proxy_per_line(lines.drop_last());
    }
}

/// A universal subscription that is accepted gives exactly one sing-box
/// outbound per non-empty line.
pub proof fn lemma_one_outbound_per_line(lines: Seq<Seq<char>>)
    ensures
        sing_box_nodes(lines) matches Ok(outbounds) ==> outbounds.len() == non_empty_lines(lines),
    decreases lines.len(),
{
    if lines.len() > 0 {
        lemma_one_outbound_per_line(lines.drop_last());
    }
}

/// `c` is an ASCII letter or digit.
pub open spec fn is_ascii_alphanumeric_char(c: char) -> bool {
    ('0' <= c && c <= '9') || ('A' <= c && c <= 'Z') || ('a' <= c && c <= 'z')
}

proof fn lemma_encoded_byte_safe(b: u8)
    ensures
        forall|j: int|
            0 <= j < percent_encode_byte(b).len() ==> is_ascii_alphanumeric_char(
                #[trigger] percent_encode_byte(b)[j],
            ) || percent_encode_byte(b)[j] == '%',
{
    let hi = (b / 16) as int;
    let lo = (b % 16) as int;
    assert(0 <= hi < 16 && 0 <= lo < 16);
    assert(is_ascii_alphanumeric_char(hex_upper(hi)));
    assert(is_ascii_alphanumeric_char(hex_upper(lo)));
}

/// A node name or test address put into a controller path consists only of
/// ASCII letters, digits and `%`: it cannot end the path segment or start
/// another query parameter.
pub proof fn lemma_url_component_is_safe(s: Seq<char>)
    ensures
        forall|i: int|
            0 <= i < url_component(s).len() ==> is_ascii_alphanumeric_char(
                #[trigger] url_component(s)[i],
            ) || url_component(s)[i] == '%',
{
    lemma_encoded_bytes_safe(encode_utf8(s));
}

proof fn lemma_encoded_bytes_safe(b: Seq<u8>)
    ensures
        forall|i: int|
            0 <= i < percent_encode_bytes(b).len() ==> is_ascii_alphanumeric_char(
                #[trigger] percent_encode_bytes(b)[i],
            ) || percent_encode_bytes(b)[i] == '%',
    decreases b.len(),
{
    if b.len() > 0 {
        lemma_encoded_byte_safe(b[0]);
        lemma_encoded_bytes_safe(b.drop_first());
        let head = percent_encode_byte(b[0]);
        let tail = percent_encode_bytes(b.drop_first());
        assert forall|i: int|
            0 <= i < percent_encode_bytes(b).len() implies is_ascii_alphanumeric_char(
                #[trigger] percent_encode_bytes(b)[i],
            ) || percent_encode_bytes(b)[i] == '%' by {
            if i < head.len() {
                assert(percent_encode_bytes(b)[i] == head[i]);
            } else {
                assert(percent_encode_bytes(b)[i] == tail[i - head.len()]);
            }
        }
    }
}

/// The bytes of a text of ASCII characters, one per character.
pub open spec fn ascii_bytes(t: Seq<char>) -> Seq<u8> {
    t.map_values(|c: char| c as u8)
}

proof fn lemma_hex_digit_round_trip(n: int)
    requires
        0 <= n < 16,
    ensures
        hex_value(hex_upper(n) as u8) == Some(n as u8),
{
}

proof fn lemma_ascii_bytes_concat(a: Seq<char>, b: Seq<char>)
    ensures
        ascii_bytes(a + b) == ascii_bytes(a) + ascii_bytes(b),
{
    assert(ascii_bytes(a + b) =~= ascii_bytes(a) + ascii_bytes(b));
}

/// Percent-decoding undoes percent-encoding, byte for byte.
proof fn lemma_percent_decode_encode(b: Seq<u8>)
    ensures
        percent_decode_bytes(ascii_bytes(percent_encode_bytes(b))) == b,
    decreases b.len(),
{
    if b.len() == 0 {
        assert(ascii_bytes(percent_encode_bytes(b)) =~= Seq::<u8>::empty());
    } else {
        let x = b[0];
        let head = percent_encode_byte(x);
        let tail = percent_encode_bytes(b.drop_first());
        lemma_percent_decode_encode(b.drop_first());
        lemma_ascii_bytes_concat(head, tail);
        let bytes = ascii_bytes(head) + ascii_bytes(tail);
        if is_ascii_alphanumeric_byte(x) {
            assert(ascii_bytes(head) =~= seq![x]);
            assert(bytes[0] == x);
            assert(bytes.drop_first() =~= ascii_bytes(tail));
        } else {
            let hi = (x / 16) as int;
            let lo = (x % 16) as int;
            lemma_hex_digit_round_trip(hi);
            lemma_hex_digit_round_trip(lo);
            assert(ascii_bytes(head) =~= seq![37u8, hex_upper(hi) as u8, hex_upper(lo) as u8]);
            assert(bytes[0] == 37u8);
            assert(bytes[1] == hex_upper(hi) as u8);
            assert(bytes[2] == hex_upper(lo) as u8);
            assert(bytes.subrange(3, bytes.len() as int) =~= ascii_bytes(tail));
            assert((hi * 16 + lo) as u8 == x);
        }
        assert(seq![x] + b.drop_first() =~= b);
    }
}

/// A node name or test address that is put into a controller path
/// percent-decodes, as the controller reads it, to exactly the same
/// text.
pub proof fn lemma_url_component_round_trip(s: Seq<char>)
    ensures
        percent_decoded_text(url_component(s)) == Some(s),
{
    let t = url_component(s);
    lemma_url_component_is_safe(s);
    assert(is_ascii_chars(t)) by {
        assert forall|i: int| 0 <= i < t.len() implies '\0' <= #[trigger] t[i] <= '\u{7f}' by {
            assert(is_ascii_alphanumeric_char(t[i]) || t[i] == '%');
        }
    }
    is_ascii_chars_encode_utf8(t);
    assert(encode_utf8(t) =~= ascii_bytes(t));
    lemma_percent_decode_encode(encode_utf8(s));
    encode_utf8_valid_utf8(s);
    encode_utf8_decode_utf8(s);
}

/// Waiting for the controller ends with "started" exactly when one of the
/// first five connection attempts succeeds.
pub proof fn lemma_probe_started_iff_an_attempt_connects(connected: Seq<bool>)
    requires
        connected.len() >= API_PROBE_ATTEMPTS,
    ensures
        probe_run(connected, 0) <==> exists|i: int|
            0 <= i < API_PROBE_ATTEMPTS && #[trigger] connected[i],
{
    lemma_probe_run_from(connected, 0);
}

proof fn lemma_probe_run_from(connected: Seq<bool>, attempt: nat)
    requires
        connected.len() >= API_PROBE_ATTEMPTS,
        attempt <= API_PROBE_ATTEMPTS,
    ensures
        probe_run(connected, attempt) <==> exists|i: int|
            attempt <= i < API_PROBE_ATTEMPTS && #[trigger] connected[i],
    decreases API_PROBE_ATTEMPTS - attempt,
{
    if attempt < API_PROBE_ATTEMPTS {
        lemma_probe_run_from(connected, attempt + 1);
        if !connected[attempt as int] {
            assert forall|i: int|
                attempt <= i < API_PROBE_ATTEMPTS && #[trigger] connected[i] implies attempt + 1
                <= i by {}
        }
    }
}


// ---------------------------------------------------------------------------
// Trojan TLS settings
// ---------------------------------------------------------------------------

proof fn lemma_trojan_is_not_ss()
    ensures
        "trojan"@ != "ss"@,
{
    reveal_strlit("trojan");
    reveal_strlit("ss");
    assert("trojan"@.len() != "ss"@.len());
}

/// A query parameter has the value of the last pair with its key; a key
/// that no pair has has no value.
pub proof fn lemma_query_lookup_last(pairs: Seq<(Seq<char>, Seq<char>)>, key: Seq<char>)
    ensures
        (forall|k: int| 0 <= k < pairs.len() ==> (#[trigger] pairs[k]).0 != key) ==> query_lookup(
            pairs,
            key,
        ) is None,
        forall|k: int|
            0 <= k < pairs.len() && (#[trigger] pairs[k]).0 == key && (forall|m: int|
                k < m < pairs.len() ==> pairs[m].0 != key) ==> query_lookup(pairs, key) == Some(
                pairs[k].1,
            ),
    decreases pairs.len(),
{
    if pairs.len() > 0 {
        let prev = pairs.drop_last();
        lemma_query_lookup_last(prev, key);
        assert forall|k: int|
            0 <= k < pairs.len() && (#[trigger] pairs[k]).0 == key && (forall|m: int|
                k < m < pairs.len() ==> pairs[m].0 != key) implies query_lookup(pairs, key) == Some(
            pairs[k].1,
        ) by {
            if k < pairs.len() - 1 {
                assert(pairs[pairs.len() - 1].0 != key);
                assert(prev[k] == pairs[k]);
                assert forall|m: int| k < m < prev.len() implies prev[m].0 != key by {
                    assert(prev[m] == pairs[m]);
                }
            }
        }
        if forall|k: int| 0 <= k < pairs.len() ==> (#[trigger] pairs[k]).0 != key {
            assert(pairs[pairs.len() - 1].0 != key);
            assert forall|k: int| 0 <= k < prev.len() implies (#[trigger] prev[k]).0 != key by {
                assert(prev[k] == pairs[k]);
            }
        }
    }
}

/// A Clash trojan proxy becomes a trojan outbound with TLS on, whose
/// server name is the proxy's SNI when it has one and its server only when
/// it has none, and which skips certificate checks exactly when the proxy
/// says so.
pub proof fn lemma_clash_trojan_outbound_tls(p: ClashProxyModel)
    requires
        p.proxy_type == "trojan"@,
    ensures
        outbound_of(p).outbound_type == "trojan"@,
        outbound_of(p).tls is Some,
        outbound_of(p).tls->0.enabled,
        p.sni matches Some(s) ==> outbound_of(p).tls->0.server_name == s,
        p.sni is None ==> outbound_of(p).tls->0.server_name == p.server,
        outbound_of(p).tls->0.insecure <==> p.skip_cert_verify == Some(true),
{
    lemma_trojan_is_not_ss();
}

/// A trojan share link becomes a trojan outbound with TLS on: its server
/// name is the link's `sni` parameter when there is one and the link's host
/// only when there is none, and certificate checks are skipped exactly when
/// the link has `tls=false` or `allowInsecure=1`.
pub proof fn lemma_trojan_link_outbound_tls(line: Seq<char>)
    requires
        node_link(line) is Ok,
        node_link(line)->Ok_0.scheme == "trojan"@,
    ensures
        ({
            let b = node_link(line)->Ok_0;
            &&& sing_box_node(line) is Ok
            &&& sing_box_node(line)->Ok_0.outbound_type == "trojan"@
            &&& sing_box_node(line)->Ok_0.tls is Some
            &&& sing_box_node(line)->Ok_0.tls->0.enabled
            &&& sing_box_node(line)->Ok_0.tls->0.server_name == match query_lookup(
                b.query_pairs,
                "sni"@,
            ) {
                Some(v) => v,
                None => b.server,
            }
            &&& (sing_box_node(line)->Ok_0.tls->0.insecure <==> (query_lookup(
                b.query_pairs,
                "tls"@,
            ) == Some("false"@) || query_lookup(b.query_pairs, "allowInsecure"@) == Some("1"@)))
        }),
{
    lemma_trojan_is_not_ss();
}

/// A trojan share link becomes a Clash trojan proxy whose SNI is the
/// link's `sni` parameter when there is one and the link's host only when
/// there is none, and which skips certificate checks (`Some(true)`) exactly
/// when the link has `tls=false` or `allowInsecure=1`, else `Some(false)`.
pub proof fn lemma_trojan_link_clash_proxy(line: Seq<char>)
    requires
        node_link(line) is Ok,
        node_link(line)->Ok_0.scheme == "trojan"@,
    ensures
        ({
            let b = node_link(line)->Ok_0;
            &&& clash_node(line) is Ok
            &&& clash_node(line)->Ok_0.proxy_type == "trojan"@
            &&& clash_node(line)->Ok_0.sni == Some(
                match query_lookup(b.query_pairs, "sni"@) {
                    Some(v) => v,
                    None => b.server,
                },
            )
            &&& clash_node(line)->Ok_0.skip_cert_verify == Some(
                query_lookup(b.query_pairs, "tls"@) == Some("false"@) || query_lookup(
                    b.query_pairs,
                    "allowInsecure"@,
                ) == Some("1"@),
            )
        }),
{
    lemma_trojan_is_not_ss();
}

// ---------------------------------------------------------------------------
// The health-checked nodes
// ---------------------------------------------------------------------------

/// Comparing with an upper-case ASCII word without case accepts exactly the
/// texts of its length whose every character is the word's letter in upper
/// or in lower case.
pub proof fn lemma_eq_ignore_case_upper_word(n: Seq<char>, word: Seq<char>)
    requires
        forall|i: int| 0 <= i < word.len() ==> is_ascii_upper(#[trigger] word[i]),
    ensures
        eq_ignore_case(n, word) <==> (n.len() == word.len() && forall|i: int|
            0 <= i < n.len() ==> (#[trigger] n[i] == word[i] || n[i] as u32 == word[i] as u32
                + 32)),
{
    let ln = ascii_lower_seq(n);
    let lw = ascii_lower_seq(word);
    if eq_ignore_case(n, word) {
        assert(ln.len() == n.len());
        assert(lw.len() == word.len());
        assert forall|i: int| 0 <= i < n.len() implies (#[trigger] n[i] == word[i] || n[i] as u32
            == word[i] as u32 + 32) by {
            assert(ln[i] == ascii_lower(n[i]));
            assert(lw[i] == ascii_lower(word[i]));
        }
    }
    if n.len() == word.len() && forall|i: int|
        0 <= i < n.len() ==> (#[trigger] n[i] == word[i] || n[i] as u32 == word[i] as u32 + 32) {
        assert forall|i: int| 0 <= i < ln.len() implies ln[i] == lw[i] by {
            assert(ln[i] == ascii_lower(n[i]));
            assert(lw[i] == ascii_lower(word[i]));
            assert(is_ascii_upper(word[i]));
        }
        assert(ln =~= lw);
    }
}

/// The names that are kept for health checks: all but `DIRECT` and
/// `REJECT` in any ASCII case.
pub open spec fn kept_for_health_check(name: Seq<char>) -> bool {
    !(eq_ignore_case(name, "DIRECT"@) || eq_ignore_case(name, "REJECT"@))
}

/// The health-checked nodes are exactly the controller's names that are
/// not `DIRECT` or `REJECT` in any ASCII case, every other name kept, in
/// their order.
pub proof fn lemma_proxy_nodes_keep_every_other_name(names: Seq<Seq<char>>)
    ensures
        proxy_nodes(names) == names.filter(|n: Seq<char>| kept_for_health_check(n)),
    decreases names.len(),
{
    reveal(Seq::filter);
    if names.len() > 0 {
        lemma_proxy_nodes_keep_every_other_name(names.drop_last());
    }
    assert(proxy_nodes(names) =~= names.filter(|n: Seq<char>| kept_for_health_check(n)));
}

// ---------------------------------------------------------------------------
// The delay-test path
// ---------------------------------------------------------------------------

/// `c` may stand in a percent-encoded path segment or query value: an ASCII
/// letter or digit, or `%`.
pub open spec fn is_encoded_char(c: char) -> bool {
    is_ascii_alphanumeric_char(c) || c == '%'
}

/// The delay-test path of a node is `/proxies/`, then a segment of ASCII
/// letters, digits and `%` that percent-decodes to the whole node name,
/// then `/delay?timeout=` with the timeout in decimal, then `&url=` and a
/// value of the same characters that percent-decodes to the whole test
/// address. As the segment holds no `/`, it ends where `/delay` begins.
pub proof fn lemma_delay_path_names_the_node(node_name: Seq<char>, timeout_ms: nat, test_url: Seq<
    char,
>)
    ensures
        exists|segment: Seq<char>, value: Seq<char>|
            #![trigger percent_decoded_text(segment), percent_decoded_text(value)]
            {
                &&& delay_path_spec(node_name, timeout_ms, test_url) == "/proxies/"@ + segment
                    + "/delay?timeout="@ + decimal(timeout_ms) + "&url="@ + value
                &&& percent_decoded_text(segment) == Some(node_name)
                &&& percent_decoded_text(value) == Some(test_url)
                &&& forall|i: int| 0 <= i < segment.len() ==> is_encoded_char(#[trigger] segment[i])
                &&& forall|i: int| 0 <= i < value.len() ==> is_encoded_char(#[trigger] value[i])
            },
{
    let segment = url_component(node_name);
    let value = url_component(test_url);
    lemma_url_component_round_trip(node_name);
    lemma_url_component_round_trip(test_url);
    lemma_url_component_is_safe(node_name);
    lemma_url_component_is_safe(test_url);
    assert(forall|i: int| 0 <= i < segment.len() ==> is_encoded_char(#[trigger] segment[i]));
    assert(forall|i: int| 0 <= i < value.len() ==> is_encoded_char(#[trigger] value[i]));
    assert(percent_decoded_text(segment) == Some(node_name));
    assert(percent_decoded_text(value) == Some(test_url));
}


/// The delay-test path of the `proxy` group is
/// `/group/proxy/delay?timeout=` with the timeout in decimal, then `&url=`
/// and a value of ASCII letters, digits and `%` that percent-decodes to the
/// whole test address.
pub proof fn lemma_group_delay_path_carries_the_address(timeout_ms: nat, test_url: Seq<char>)
    ensures
        exists|value: Seq<char>|
            #![trigger percent_decoded_text(value)]
            {
                &&& group_delay_path_spec(timeout_ms, test_url) == "/group/proxy/delay?timeout="@
                    + decimal(timeout_ms) + "&url="@ + value
                &&& percent_decoded_text(value) == Some(test_url)
                &&& forall|i: int| 0 <= i < value.len() ==> is_encoded_char(#[trigger] value[i])
            },
{
    let value = url_component(test_url);
    lemma_url_component_round_trip(test_url);
    lemma_url_component_is_safe(test_url);
    assert(forall|i: int| 0 <= i < value.len() ==> is_encoded_char(#[trigger] value[i]));
    assert(percent_decoded_text(value) == Some(test_url));
}

} // verus!
