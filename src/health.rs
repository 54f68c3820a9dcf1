use vstd::prelude::*;
use vstd::string::StringExecFns;
use vstd::utf8::valid_utf8;

use crate::process::{args_view, decimal_text, number_text, text, CommandSpec, ProbeOutput};
use crate::text::{contains_bytes, is_utf8, occurs_in};
use crate::BACKEND_PORT;

verus! {

/// Connect timeout of one health probe, in seconds.
pub const HEALTH_CHECK_CONNECT_TIMEOUT_SECS: u32 = 5;

/// Total time allowed for one health probe, in seconds.
pub const HEALTH_CHECK_MAX_TIME_SECS: u32 = 8;

/// The marker a healthy backend puts in the body of its health response.
pub open spec fn healthy_marker() -> Seq<u8> {
    seq![34u8, 115u8, 116u8, 97u8, 116u8, 117u8, 115u8, 34u8, 58u8, 34u8, 104u8, 101u8, 97u8,
         108u8, 116u8, 104u8, 121u8, 34u8]
}

fn healthy_marker_bytes() -> (r: Vec<u8>)
    ensures
        r@ == healthy_marker(),
{
    let r = vec![34u8, 115u8, 116u8, 97u8, 116u8, 117u8, 115u8, 34u8, 58u8, 34u8, 104u8, 101u8,
        97u8, 108u8, 116u8, 104u8, 121u8, 34u8];
    assert(r@ =~= healthy_marker());
    r
}

/// The address of the backend's health endpoint.
pub open spec fn health_url() -> Seq<char> {
    "http://127.0.0.1:"@ + decimal_text(BACKEND_PORT as nat) + "/api/health"@
}

/// The request that probes the backend's health, or `None` when nothing listens
/// on the backend port and no request is worth making.
pub fn health_probe(port_free: bool) -> (r: Option<CommandSpec>)
    ensures
        r.is_none() <==> port_free,
        r matches Some(c) ==> {
            &&& c.program@ == "curl"@
            &&& args_view(c.args) == seq![
                "-s"@, "-f"@,
                "--connect-timeout"@, decimal_text(HEALTH_CHECK_CONNECT_TIMEOUT_SECS as nat),
                "--max-time"@, decimal_text(HEALTH_CHECK_MAX_TIME_SECS as nat),
                health_url(),
            ]
        },
{
    if port_free {
        return None;
    }
    let mut url = text("http://127.0.0.1:");
    let port = number_text(BACKEND_PORT as u32);
    url.append(port.as_str());
    url.append("/api/health");
    let args = vec![
        text("-s"), text("-f"),
        text("--connect-timeout"), number_text(HEALTH_CHECK_CONNECT_TIMEOUT_SECS),
        text("--max-time"), number_text(HEALTH_CHECK_MAX_TIME_SECS),
        url,
    ];
    assert(args_view(args) =~= seq![
        "-s"@, "-f"@,
        "--connect-timeout"@, decimal_text(HEALTH_CHECK_CONNECT_TIMEOUT_SECS as nat),
        "--max-time"@, decimal_text(HEALTH_CHECK_MAX_TIME_SECS as nat),
        health_url(),
    ]);
    Some(CommandSpec { program: text("curl"), args })
}

/// The backend is healthy: something listens on its port, the probe succeeded,
/// and the response is text that carries the healthy marker.
pub open spec fn healthy(port_free: bool, outcome: Option<ProbeOutput>) -> bool {
    &&& !port_free
    &&& outcome matches Some(o)
    &&& o.success
    &&& valid_utf8(o.stdout@)
    &&& occurs_in(o.stdout@, healthy_marker())
}

/// Reads the outcome of the request from `health_probe(port_free)`; `None` when
/// no request was made or it could not be run.
pub fn is_backend_healthy(port_free: bool, outcome: &Option<ProbeOutput>) -> (r: bool)
    ensures
        r == healthy(port_free, *outcome),
{
    if port_free {
        return false;
    }
    match outcome {
        None => false,
        Some(o) => {
            if !o.success || !is_utf8(o.stdout.as_slice()) {
                return false;
            }
            let marker = healthy_marker_bytes();
            contains_bytes(o.stdout.as_slice(), marker.as_slice())
        },
    }
}

/// With nothing listening on the backend port, the backend is never reported
/// healthy, whatever a probe returned.
pub proof fn lemma_free_port_is_unhealthy(outcome: Option<ProbeOutput>)
    ensures
        !healthy(true, outcome),
{
}

/// Whether the port must be reaped before a spawn: it is taken while the backend
/// is known not to be healthy.
pub fn prepare_backend_environment(port_free: bool) -> (r: bool)
    ensures
        r == !port_free,
{
    !port_free
}

} // verus!
