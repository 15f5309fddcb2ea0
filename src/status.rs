use vstd::prelude::*;

verus! {

/// NAT classification reported by the engine's STUN probe.
#[derive(Clone, Copy, Debug, PartialEq, Eq, Structural)]
pub struct StunInfo {
    pub udp_nat_type: i32,
    pub tcp_nat_type: i32,
    pub last_update_time: i64,
}

/// The engine's self-view at one refresh.
pub struct NodeInfo {
    pub virtual_ipv4: String,
    pub ips: Vec<String>,
    pub stun_info: StunInfo,
    pub listeners: Vec<String>,
    pub vpn_portal_cfg: Option<String>,
}

/// One entry of the engine's route table.
pub struct Route {
    pub peer_id: u32,
    pub ipv4_addr: String,
    pub next_hop_peer_id: u32,
    pub cost: i32,
    pub hostname: String,
}

/// One directly connected peer.
#[derive(Clone, Copy, Debug, PartialEq, Eq, Structural)]
pub struct PeerInfo {
    pub peer_id: u32,
    pub conn_count: u32,
}

pub fn copy_strings(v: &Vec<String>) -> (r: Vec<String>)
    ensures
        r@ == v@,
{
    let mut out: Vec<String> = Vec::new();
    let mut i: usize = 0;
    while i < v.len()
        invariant
            i <= v@.len(),
            out@ == v@.take(i as int),
        decreases v@.len() - i,
    {
        out.push(v[i].clone());
        i = i + 1;
        assert(out@ =~= v@.take(i as int));
    }
    assert(v@.take(v@.len() as int) =~= v@);
    out
}

pub fn copy_opt_string(v: &Option<String>) -> (r: Option<String>)
    ensures
        r == *v,
{
    match v {
        Some(s) => Some(s.clone()),
        None => None,
    }
}

impl NodeInfo {
    /// Nothing known yet: empty address, lists and no portal.
    pub open spec fn is_blank(&self) -> bool {
        &&& self.virtual_ipv4@.len() == 0
        &&& self.ips@.len() == 0
        &&& self.listeners@.len() == 0
        &&& self.vpn_portal_cfg is None
        &&& self.stun_info == StunInfo { udp_nat_type: 0, tcp_nat_type: 0, last_update_time: 0 }
    }

    pub fn blank() -> (r: NodeInfo)
        ensures
            r.is_blank(),
    {
        NodeInfo {
            virtual_ipv4: String::new(),
            ips: Vec::new(),
            stun_info: StunInfo { udp_nat_type: 0, tcp_nat_type: 0, last_update_time: 0 },
            listeners: Vec::new(),
            vpn_portal_cfg: None,
        }
    }

    pub fn duplicate(&self) -> (r: NodeInfo)
        ensures
            r.virtual_ipv4 == self.virtual_ipv4,
            r.ips@ == self.ips@,
            r.stun_info == self.stun_info,
            r.listeners@ == self.listeners@,
            r.vpn_portal_cfg == self.vpn_portal_cfg,
    {
        NodeInfo {
            virtual_ipv4: self.virtual_ipv4.clone(),
            ips: copy_strings(&self.ips),
            stun_info: self.stun_info,
            listeners: copy_strings(&self.listeners),
            vpn_portal_cfg: copy_opt_string(&self.vpn_portal_cfg),
        }
    }
}

impl Route {
    pub fn duplicate(&self) -> (r: Route)
        ensures
            r == *self,
    {
        Route {
            peer_id: self.peer_id,
            ipv4_addr: self.ipv4_addr.clone(),
            next_hop_peer_id: self.next_hop_peer_id,
            cost: self.cost,
            hostname: self.hostname.clone(),
        }
    }
}

pub fn copy_routes(v: &Vec<Route>) -> (r: Vec<Route>)
    ensures
        r@ == v@,
{
    let mut out: Vec<Route> = Vec::new();
    let mut i: usize = 0;
    while i < v.len()
        invariant
            i <= v@.len(),
            out@ == v@.take(i as int),
        decreases v@.len() - i,
    {
        out.push(v[i].duplicate());
        i = i + 1;
        assert(out@ =~= v@.take(i as int));
    }
    assert(v@.take(v@.len() as int) =~= v@);
    out
}

pub fn copy_peers(v: &Vec<PeerInfo>) -> (r: Vec<PeerInfo>)
    ensures
        r@ == v@,
{
    let mut out: Vec<PeerInfo> = Vec::new();
    let mut i: usize = 0;
    while i < v.len()
        invariant
            i <= v@.len(),
            out@ == v@.take(i as int),
        decreases v@.len() - i,
    {
        out.push(v[i]);
        i = i + 1;
        assert(out@ =~= v@.take(i as int));
    }
    assert(v@.take(v@.len() as int) =~= v@);
    out
}

} // verus!
