//! The global configuration: the test-root directory, the federation's
//! shape, and every path and address derived from them.

use vstd::prelude::*;
use crate::envfile::EnvVar;

verus! {

/// The byte that separates path components.
pub open spec fn path_sep() -> Seq<u8> {
    seq![0x2fu8]
}

/// A path under `base`: `base/name`.
pub open spec fn path_join_spec(base: Seq<u8>, name: Seq<u8>) -> Seq<u8> {
    base + path_sep() + name
}

/// Joins one component onto a base path.
pub fn path_join(base: &Vec<u8>, name: &Vec<u8>) -> (p: Vec<u8>)
    ensures
        p@ == path_join_spec(base@, name@),
{
    let mut p = crate::poll::clone_bytes(base);
    p.push(0x2f);
    crate::envfile::push_bytes(&mut p, name);
    assert(p@ =~= path_join_spec(base@, name@));
    p
}

/// The decimal digits of `n`, most significant first, no leading zeros
/// (a single `0` for zero).
pub open spec fn decimal_spec(n: nat) -> Seq<u8>
    decreases n,
{
    if n < 10 {
        seq![(0x30 + n) as u8]
    } else {
        decimal_spec(n / 10).push((0x30 + n % 10) as u8)
    }
}

/// Renders a number in decimal.
pub fn u64_to_decimal(n: u64) -> (d: Vec<u8>)
    ensures
        d@ == decimal_spec(n as nat),
{
    let mut rev: Vec<u8> = Vec::new();
    let mut m: u64 = n;
    let first: u8 = (m % 10) as u8 + 0x30;
    rev.push(first);
    m = m / 10;
    assert(decimal_spec(n as nat) =~= if m == 0 {
        rev@.reverse()
    } else {
        decimal_spec(m as nat) + rev@.reverse()
    }) by {
        assert(rev@.reverse() =~= seq![first]);
    };
    while m > 0
        invariant
            rev@.len() >= 1,
            decimal_spec(n as nat) == if m == 0 {
                rev@.reverse()
            } else {
                decimal_spec(m as nat) + rev@.reverse()
            },
        decreases m,
    {
        let digit: u8 = (m % 10) as u8 + 0x30;
        let ghost old_rev = rev@;
        let ghost old_m = m;
        rev.push(digit);
        m = m / 10;
        proof {
            assert(rev@.reverse() =~= seq![digit] + old_rev.reverse());
            if m == 0 {
                assert(decimal_spec(old_m as nat) =~= seq![digit]);
                assert(decimal_spec(n as nat) =~= rev@.reverse());
            } else {
                assert(decimal_spec(old_m as nat) == decimal_spec(old_m as nat / 10).push(
                    (0x30 + old_m as nat % 10) as u8,
                ));
                assert(decimal_spec(old_m as nat) =~= decimal_spec(m as nat) + seq![digit]);
                assert(decimal_spec(n as nat) =~= decimal_spec(m as nat) + rev@.reverse());
            }
        }
    }
    let mut d: Vec<u8> = Vec::new();
    let mut i: usize = rev.len();
    while i > 0
        invariant
            i <= rev.len(),
            d@ == rev@.skip(i as int).reverse(),
        decreases i,
    {
        i = i - 1;
        d.push(rev[i]);
        assert(d@ =~= rev@.skip(i as int).reverse());
    }
    assert(rev@.skip(0).reverse() =~= rev@.reverse());
    d
}

/// The global configuration, constructed once before any process spawns and
/// immutable afterwards: the test root, the federation's size and how many of
/// its nodes stay intentionally offline, and the derived artifact paths.
pub struct GlobalConfig {
    pub test_dir: Vec<u8>,
    pub fed_size: usize,
    pub offline_nodes: usize,
    pub logs_dir: Vec<u8>,
    pub ready_file: Vec<u8>,
    pub env_file: Vec<u8>,
    pub cfg_dir: Vec<u8>,
    pub invite_code_file: Vec<u8>,
}

/// The derived paths a well-formed configuration must carry: the ready-file,
/// env-file, log directory and config directory all live under the test root,
/// and the invite code under the config directory.
pub open spec fn config_wf(c: GlobalConfig) -> bool {
    &&& c.offline_nodes <= c.fed_size
    &&& c.logs_dir@ == path_join_spec(c.test_dir@, seq![0x6cu8, 0x6fu8, 0x67u8, 0x73u8])
    &&& c.ready_file@ == path_join_spec(
        c.test_dir@,
        seq![0x72u8, 0x65u8, 0x61u8, 0x64u8, 0x79u8],
    )
    &&& c.env_file@ == path_join_spec(c.test_dir@, seq![0x65u8, 0x6eu8, 0x76u8])
    &&& c.cfg_dir@ == path_join_spec(c.test_dir@, seq![0x63u8, 0x66u8, 0x67u8])
    &&& c.invite_code_file@ == path_join_spec(
        c.cfg_dir@,
        seq![
            0x69u8, 0x6eu8, 0x76u8, 0x69u8, 0x74u8, 0x65u8, 0x2du8, 0x63u8, 0x6fu8, 0x64u8,
            0x65u8,
        ],
    )
}

impl GlobalConfig {
    /// Derives the whole layout from the test root and the federation's
    /// shape. A federation cannot have more offline nodes than nodes.
    pub fn new(test_dir: Vec<u8>, fed_size: usize, offline_nodes: usize) -> (c: GlobalConfig)
        requires
            offline_nodes <= fed_size,
        ensures
            config_wf(c),
            c.test_dir@ == test_dir@,
            c.fed_size == fed_size,
            c.offline_nodes == offline_nodes,
    {
        let mut logs_name: Vec<u8> = Vec::new();
        logs_name.push(0x6c);
        logs_name.push(0x6f);
        logs_name.push(0x67);
        logs_name.push(0x73);
        assert(logs_name@ =~= seq![0x6cu8, 0x6fu8, 0x67u8, 0x73u8]);
        let mut ready_name: Vec<u8> = Vec::new();
        ready_name.push(0x72);
        ready_name.push(0x65);
        ready_name.push(0x61);
        ready_name.push(0x64);
        ready_name.push(0x79);
        assert(ready_name@ =~= seq![0x72u8, 0x65u8, 0x61u8, 0x64u8, 0x79u8]);
        let mut env_name: Vec<u8> = Vec::new();
        env_name.push(0x65);
        env_name.push(0x6e);
        env_name.push(0x76);
        assert(env_name@ =~= seq![0x65u8, 0x6eu8, 0x76u8]);
        let mut cfg_name: Vec<u8> = Vec::new();
        cfg_name.push(0x63);
        cfg_name.push(0x66);
        cfg_name.push(0x67);
        assert(cfg_name@ =~= seq![0x63u8, 0x66u8, 0x67u8]);
        let mut invite_name: Vec<u8> = Vec::new();
        invite_name.push(0x69);
        invite_name.push(0x6e);
        invite_name.push(0x76);
        invite_name.push(0x69);
        invite_name.push(0x74);
        invite_name.push(0x65);
        invite_name.push(0x2d);
        invite_name.push(0x63);
        invite_name.push(0x6f);
        invite_name.push(0x64);
        invite_name.push(0x65);
        assert(invite_name@ =~= seq![
            0x69u8, 0x6eu8, 0x76u8, 0x69u8, 0x74u8, 0x65u8, 0x2du8, 0x63u8, 0x6fu8, 0x64u8,
            0x65u8,
        ]);
        let logs_dir = path_join(&test_dir, &logs_name);
        let ready_file = path_join(&test_dir, &ready_name);
        let env_file = path_join(&test_dir, &env_name);
        let cfg_dir = path_join(&test_dir, &cfg_name);
        let invite_code_file = path_join(&cfg_dir, &invite_name);
        GlobalConfig {
            test_dir,
            fed_size,
            offline_nodes,
            logs_dir,
            ready_file,
            env_file,
            cfg_dir,
            invite_code_file,
        }
    }
}

/// The ports of one federation server: peers sit two apart starting at
/// 18137, the API one above the peer port, metrics from 3510 up.
pub struct FedimintdPorts {
    pub peer_port: u64,
    pub api_port: u64,
    pub metrics_port: u64,
}

/// Derives the ports of federation server `peer`.
pub fn fedimintd_ports(peer: u64) -> (p: FedimintdPorts)
    requires
        18138 + 2 * peer <= u64::MAX,
        3510 + peer <= u64::MAX,
    ensures
        p.peer_port == 18137 + 2 * peer,
        p.api_port == p.peer_port + 1,
        p.metrics_port == 3510 + peer,
{
    let peer_port = 18137 + 2 * peer;
    FedimintdPorts { peer_port, api_port: peer_port + 1, metrics_port: 3510 + peer }
}

/// The bytes of `127.0.0.1:`.
pub open spec fn localhost_prefix() -> Seq<u8> {
    seq![0x31u8, 0x32u8, 0x37u8, 0x2eu8, 0x30u8, 0x2eu8, 0x30u8, 0x2eu8, 0x31u8, 0x3au8]
}

/// A local socket address: `127.0.0.1:` followed by the port in decimal.
pub open spec fn local_addr_spec(port: nat) -> Seq<u8> {
    localhost_prefix() + decimal_spec(port)
}

/// Renders the local socket address of `port`.
pub fn local_addr(port: u64) -> (a: Vec<u8>)
    ensures
        a@ == local_addr_spec(port as nat),
{
    let mut a: Vec<u8> = Vec::new();
    a.push(0x31);
    a.push(0x32);
    a.push(0x37);
    a.push(0x2e);
    a.push(0x30);
    a.push(0x2e);
    a.push(0x30);
    a.push(0x2e);
    a.push(0x31);
    a.push(0x3a);
    assert(a@ =~= localhost_prefix());
    let digits = u64_to_decimal(port);
    crate::envfile::push_bytes(&mut a, &digits);
    a
}

/// The bytes of `ws://`.
pub open spec fn ws_url_prefix() -> Seq<u8> {
    seq![0x77u8, 0x73u8, 0x3au8, 0x2fu8, 0x2fu8]
}

/// The bytes of `fedimint://`.
pub open spec fn fedimint_url_prefix() -> Seq<u8> {
    seq![
        0x66u8, 0x65u8, 0x64u8, 0x69u8, 0x6du8, 0x69u8, 0x6eu8, 0x74u8, 0x3au8, 0x2fu8, 0x2fu8,
    ]
}

/// The bytes of `fedimintd-` followed by the peer number: the name of one
/// federation server's data directory.
pub open spec fn fedimintd_dir_name(peer: nat) -> Seq<u8> {
    seq![0x66u8, 0x65u8, 0x64u8, 0x69u8, 0x6du8, 0x69u8, 0x6eu8, 0x74u8, 0x64u8, 0x2du8]
        + decimal_spec(peer)
}

/// Everything one federation server is started with: where it binds, how it
/// is reached, and where its data lives.
pub struct FedimintdVars {
    pub bind_p2p: Vec<u8>,
    pub p2p_url: Vec<u8>,
    pub bind_api: Vec<u8>,
    pub api_url: Vec<u8>,
    pub data_dir: Vec<u8>,
    pub bind_metrics: Vec<u8>,
}

/// Derives the variables of federation server `peer`: the peer and API
/// addresses on their derived ports, the URLs that name them, the metrics
/// address, and the server's data directory under `data_dir_base`.
pub fn fedimintd_vars(peer: u64, data_dir_base: &Vec<u8>) -> (v: FedimintdVars)
    requires
        18138 + 2 * peer <= u64::MAX,
        3510 + peer <= u64::MAX,
    ensures
        v.bind_p2p@ == local_addr_spec((18137 + 2 * peer) as nat),
        v.p2p_url@ == fedimint_url_prefix() + local_addr_spec((18137 + 2 * peer) as nat),
        v.bind_api@ == local_addr_spec((18138 + 2 * peer) as nat),
        v.api_url@ == ws_url_prefix() + local_addr_spec((18138 + 2 * peer) as nat),
        v.data_dir@ == path_join_spec(data_dir_base@, fedimintd_dir_name(peer as nat)),
        v.bind_metrics@ == local_addr_spec((3510 + peer) as nat),
{
    let ports = fedimintd_ports(peer);
    let bind_p2p = local_addr(ports.peer_port);
    let bind_api = local_addr(ports.api_port);
    let bind_metrics = local_addr(ports.metrics_port);
    let mut p2p_url: Vec<u8> = Vec::new();
    p2p_url.push(0x66);
    p2p_url.push(0x65);
    p2p_url.push(0x64);
    p2p_url.push(0x69);
    p2p_url.push(0x6d);
    p2p_url.push(0x69);
    p2p_url.push(0x6e);
    p2p_url.push(0x74);
    p2p_url.push(0x3a);
    p2p_url.push(0x2f);
    p2p_url.push(0x2f);
    assert(p2p_url@ =~= fedimint_url_prefix());
    crate::envfile::push_bytes(&mut p2p_url, &bind_p2p);
    let mut api_url: Vec<u8> = Vec::new();
    api_url.push(0x77);
    api_url.push(0x73);
    api_url.push(0x3a);
    api_url.push(0x2f);
    api_url.push(0x2f);
    assert(api_url@ =~= ws_url_prefix());
    crate::envfile::push_bytes(&mut api_url, &bind_api);
    let mut dir_name: Vec<u8> = Vec::new();
    dir_name.push(0x66);
    dir_name.push(0x65);
    dir_name.push(0x64);
    dir_name.push(0x69);
    dir_name.push(0x6d);
    dir_name.push(0x69);
    dir_name.push(0x6e);
    dir_name.push(0x74);
    dir_name.push(0x64);
    dir_name.push(0x2d);
    let digits = u64_to_decimal(peer);
    crate::envfile::push_bytes(&mut dir_name, &digits);
    assert(dir_name@ =~= fedimintd_dir_name(peer as nat));
    let data_dir = path_join(data_dir_base, &dir_name);
    FedimintdVars { bind_p2p, p2p_url, bind_api, api_url, data_dir, bind_metrics }
}

/// The environment variables that carry the configuration to a caller: each
/// artifact path and the federation's shape, under their well-known names.
pub open spec fn config_vars_spec(c: GlobalConfig) -> Seq<(Seq<u8>, Seq<u8>)> {
    seq![
        (fm_test_dir_key(), c.test_dir@),
        (fm_logs_dir_key(), c.logs_dir@),
        (fm_ready_file_key(), c.ready_file@),
        (fm_fed_size_key(), decimal_spec(c.fed_size as nat)),
        (fm_offline_nodes_key(), decimal_spec(c.offline_nodes as nat)),
    ]
}

/// The bytes of `FM_TEST_DIR`.
pub open spec fn fm_test_dir_key() -> Seq<u8> {
    seq![
        0x46u8, 0x4du8, 0x5fu8, 0x54u8, 0x45u8, 0x53u8, 0x54u8, 0x5fu8, 0x44u8, 0x49u8, 0x52u8,
    ]
}

/// The bytes of `FM_LOGS_DIR`.
pub open spec fn fm_logs_dir_key() -> Seq<u8> {
    seq![
        0x46u8, 0x4du8, 0x5fu8, 0x4cu8, 0x4fu8, 0x47u8, 0x53u8, 0x5fu8, 0x44u8, 0x49u8, 0x52u8,
    ]
}

/// The bytes of `FM_READY_FILE`.
pub open spec fn fm_ready_file_key() -> Seq<u8> {
    seq![
        0x46u8, 0x4du8, 0x5fu8, 0x52u8, 0x45u8, 0x41u8, 0x44u8, 0x59u8, 0x5fu8, 0x46u8, 0x49u8,
        0x4cu8, 0x45u8,
    ]
}

/// The bytes of `FM_FED_SIZE`.
pub open spec fn fm_fed_size_key() -> Seq<u8> {
    seq![
        0x46u8, 0x4du8, 0x5fu8, 0x46u8, 0x45u8, 0x44u8, 0x5fu8, 0x53u8, 0x49u8, 0x5au8, 0x45u8,
    ]
}

/// The bytes of `FM_OFFLINE_NODES`.
pub open spec fn fm_offline_nodes_key() -> Seq<u8> {
    seq![
        0x46u8, 0x4du8, 0x5fu8, 0x4fu8, 0x46u8, 0x46u8, 0x4cu8, 0x49u8, 0x4eu8, 0x45u8, 0x5fu8,
        0x4eu8, 0x4fu8, 0x44u8, 0x45u8, 0x53u8,
    ]
}

/// The configuration rendered as env-file variables, in a fixed order.
pub fn config_vars(c: &GlobalConfig) -> (vars: Vec<EnvVar>)
    ensures
        crate::envfile::env_views(vars@) == config_vars_spec(*c),
{
    let mut vars: Vec<EnvVar> = Vec::new();
    let mut k1: Vec<u8> = Vec::new();
    k1.push(0x46);
    k1.push(0x4d);
    k1.push(0x5f);
    k1.push(0x54);
    k1.push(0x45);
    k1.push(0x53);
    k1.push(0x54);
    k1.push(0x5f);
    k1.push(0x44);
    k1.push(0x49);
    k1.push(0x52);
    assert(k1@ =~= fm_test_dir_key());
    vars.push(EnvVar { key: k1, value: crate::poll::clone_bytes(&c.test_dir) });
    let mut k2: Vec<u8> = Vec::new();
    k2.push(0x46);
    k2.push(0x4d);
    k2.push(0x5f);
    k2.push(0x4c);
    k2.push(0x4f);
    k2.push(0x47);
    k2.push(0x53);
    k2.push(0x5f);
    k2.push(0x44);
    k2.push(0x49);
    k2.push(0x52);
    assert(k2@ =~= fm_logs_dir_key());
    vars.push(EnvVar { key: k2, value: crate::poll::clone_bytes(&c.logs_dir) });
    let mut k3: Vec<u8> = Vec::new();
    k3.push(0x46);
    k3.push(0x4d);
    k3.push(0x5f);
    k3.push(0x52);
    k3.push(0x45);
    k3.push(0x41);
    k3.push(0x44);
    k3.push(0x59);
    k3.push(0x5f);
    k3.push(0x46);
    k3.push(0x49);
    k3.push(0x4c);
    k3.push(0x45);
    assert(k3@ =~= fm_ready_file_key());
    vars.push(EnvVar { key: k3, value: crate::poll::clone_bytes(&c.ready_file) });
    let mut k4: Vec<u8> = Vec::new();
    k4.push(0x46);
    k4.push(0x4d);
    k4.push(0x5f);
    k4.push(0x46);
    k4.push(0x45);
    k4.push(0x44);
    k4.push(0x5f);
    k4.push(0x53);
    k4.push(0x49);
    k4.push(0x5a);
    k4.push(0x45);
    assert(k4@ =~= fm_fed_size_key());
    vars.push(EnvVar { key: k4, value: u64_to_decimal(c.fed_size as u64) });
    let mut k5: Vec<u8> = Vec::new();
    k5.push(0x46);
    k5.push(0x4d);
    k5.push(0x5f);
    k5.push(0x4f);
    k5.push(0x46);
    k5.push(0x46);
    k5.push(0x4c);
    k5.push(0x49);
    k5.push(0x4e);
    k5.push(0x45);
    k5.push(0x5f);
    k5.push(0x4e);
    k5.push(0x4f);
    k5.push(0x44);
    k5.push(0x45);
    k5.push(0x53);
    assert(k5@ =~= fm_offline_nodes_key());
    vars.push(EnvVar { key: k5, value: u64_to_decimal(c.offline_nodes as u64) });
    assert(crate::envfile::env_views(vars@) =~= config_vars_spec(*c));
    vars
}

} // verus!
