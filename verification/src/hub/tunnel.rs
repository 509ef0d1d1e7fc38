//! What engines say to each other over the tunnel.
use vstd::prelude::*;

verus! {

/// A message over the tunnel.
#[derive(Debug)]
pub enum TunnelMessage {
    /// An engine tells its instances.
    Register {
        engine_id: String,
        engine_endpoint: String,
        instances: Vec<TunnelInstanceInfo>,
    },
    /// The connection is still there.
    Heartbeat,
    /// An engine leaves.
    Leave,
    /// A call, or the answer to one.
    Rpc { payload: String },
}

/// An instance of an engine.
#[derive(Debug)]
pub struct TunnelInstanceInfo {
    pub id: String,
    pub name: String,
    pub avatar: String,
    pub color: String,
    pub privileged: bool,
    pub last_active: i64,
}

impl Clone for TunnelInstanceInfo {
    fn clone(&self) -> (r: Self)
        ensures
            r == *self,
    {
        TunnelInstanceInfo {
            id: self.id.clone(),
            name: self.name.clone(),
            avatar: self.avatar.clone(),
            color: self.color.clone(),
            privileged: self.privileged,
            last_active: self.last_active,
        }
    }
}

/// Copies a list of instances.
pub fn copy_instances(v: &Vec<TunnelInstanceInfo>) -> (r: Vec<TunnelInstanceInfo>)
    ensures
        r@ == v@,
{
    let mut out: Vec<TunnelInstanceInfo> = Vec::new();
    let mut i: usize = 0;
    while i < v.len()
        invariant
            i <= v@.len(),
            out@ == v@.take(i as int),
        decreases v@.len() - i,
    {
        out.push(v[i].clone());
        i = i + 1;
        assert(v@.take(i as int) =~= v@.take(i - 1).push(v@[i - 1]));
    }
    assert(out@ =~= v@);
    out
}

/// Something that happens on a connection.
#[derive(Debug)]
pub enum TunnelEvent {
    /// A text came that could be read.
    Message(TunnelMessage),
    /// A text came that could not be read, or something else than a text.
    Noise,
    /// The other side closed the connection, or it broke.
    Closed,
    /// A call, or the answer to one, is to be sent.
    Outgoing { payload: String },
    /// What was to be sent could not be.
    SendFailed,
}

} // verus!
