//! The writes the bot makes to redis, and a model of what redis holds.
use vstd::prelude::*;

verus! {

/// One write to redis.
#[derive(Debug, PartialEq, Eq)]
pub enum RedisWrite {
    /// `SET key value`.
    SetValue { key: String, value: String },
    /// `SADD key member`.
    AddMember { key: String, member: String },
    /// `PUBLISH channel message`.
    Publish { channel: String, message: String },
}

/// A write, with its strings taken as character sequences.
pub enum StoreOp {
    SetValue(Seq<char>, Seq<char>),
    AddMember(Seq<char>, Seq<char>),
    Publish(Seq<char>, Seq<char>),
}

impl View for RedisWrite {
    type V = StoreOp;

    open spec fn view(&self) -> StoreOp {
        match self {
            RedisWrite::SetValue { key, value } => StoreOp::SetValue(key@, value@),
            RedisWrite::AddMember { key, member } => StoreOp::AddMember(key@, member@),
            RedisWrite::Publish { channel, message } => StoreOp::Publish(channel@, message@),
        }
    }
}

/// The views of a list of writes.
pub open spec fn ops_of(ws: Seq<RedisWrite>) -> Seq<StoreOp> {
    ws.map_values(|w: RedisWrite| w@)
}

/// What redis holds: string values and sets of strings, by key.
pub struct Store {
    pub strings: Map<Seq<char>, Seq<char>>,
    pub sets: Map<Seq<char>, Set<Seq<char>>>,
}

/// The members of the set under `key` (empty when there is none).
pub open spec fn members(s: Store, key: Seq<char>) -> Set<Seq<char>> {
    if s.sets.dom().contains(key) {
        s.sets[key]
    } else {
        Set::empty()
    }
}

/// The store after one write. Publishing leaves it as it was.
pub open spec fn apply_op(s: Store, op: StoreOp) -> Store {
    match op {
        StoreOp::SetValue(k, v) => Store { strings: s.strings.insert(k, v), ..s },
        StoreOp::AddMember(k, m) => Store { sets: s.sets.insert(k, members(s, k).insert(m)), ..s },
        StoreOp::Publish(_, _) => s,
    }
}

/// The store after a sequence of writes, in order.
pub open spec fn apply_ops(s: Store, ops: Seq<StoreOp>) -> Store
    decreases ops.len(),
{
    if ops.len() == 0 {
        s
    } else {
        apply_op(apply_ops(s, ops.drop_last()), ops.last())
    }
}

} // verus!
