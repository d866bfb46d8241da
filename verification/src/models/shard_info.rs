//! What is known of one shard while the cluster runs.

use crate::clock::{current_millis, millis_of};
use crate::str_map::StrMap;
use crate::text::{decimal, push_decimal};
use vstd::prelude::*;
use vstd::string::StringExecFns;

verus! {

/// The strategy by which the shard's table is spread.
#[derive(Debug, Clone, Copy, PartialEq, Eq, Structural)]
pub enum ShardType {
    HashBased,
    RangeBased,
    RoundRobin,
    Custom,
}

/// The state of a shard.
#[derive(Debug, Clone, Copy, PartialEq, Eq, Structural)]
pub enum ShardStatus {
    /// Serving requests.
    Active,
    /// On its way to another worker.
    Migrating,
    /// Out of service.
    Inactive,
    /// Lost; in need of recovery.
    Failed,
}

impl ShardType {
    /// The strategy in capitals.
    pub open spec fn word(&self) -> Seq<char> {
        match *self {
            ShardType::HashBased => "HASH_BASED"@,
            ShardType::RangeBased => "RANGE_BASED"@,
            ShardType::RoundRobin => "ROUND_ROBIN"@,
            ShardType::Custom => "CUSTOM"@,
        }
    }

    /// The strategy in capitals.
    pub fn to_string(&self) -> (s: String)
        ensures
            s@ == self.word(),
    {
        match self {
            ShardType::HashBased => String::from_str("HASH_BASED"),
            ShardType::RangeBased => String::from_str("RANGE_BASED"),
            ShardType::RoundRobin => String::from_str("ROUND_ROBIN"),
            ShardType::Custom => String::from_str("CUSTOM"),
        }
    }
}

impl ShardStatus {
    /// The state in capitals.
    pub open spec fn word(&self) -> Seq<char> {
        match *self {
            ShardStatus::Active => "ACTIVE"@,
            ShardStatus::Migrating => "MIGRATING"@,
            ShardStatus::Inactive => "INACTIVE"@,
            ShardStatus::Failed => "FAILED"@,
        }
    }

    /// The state in capitals.
    pub fn to_string(&self) -> (s: String)
        ensures
            s@ == self.word(),
    {
        match self {
            ShardStatus::Active => String::from_str("ACTIVE"),
            ShardStatus::Migrating => String::from_str("MIGRATING"),
            ShardStatus::Inactive => String::from_str("INACTIVE"),
            ShardStatus::Failed => String::from_str("FAILED"),
        }
    }
}

/// One shard: where it lives, what it holds and how it fares. Times are in
/// milliseconds since the start of 1970.
#[derive(Debug)]
pub struct ShardInfo {
    pub shard_id: String,
    /// The worker that owns the shard.
    pub worker_id: String,
    pub table_name: String,
    pub shard_type: ShardType,
    /// The column values that make a row a member of the shard.
    pub shard_key: StrMap<String>,
    pub row_count: u64,
    pub size_bytes: u64,
    pub created_at: u64,
    /// The time of the last change.
    pub last_updated: u64,
    pub status: ShardStatus,
}

/// The time from `since` to `now`; 0 where the clock has stepped back.
pub open spec fn elapsed(since: u64, now: u64) -> u64 {
    if now >= since {
        (now - since) as u64
    } else {
        0
    }
}

impl ShardInfo {
    /// Whether `self` and `other` agree in everything but the fields that
    /// the mutators touch: the key, the two counters, the status and the
    /// time of the last change.
    pub open spec fn same_identity(&self, other: &ShardInfo) -> bool {
        &&& self.shard_id == other.shard_id
        &&& self.worker_id == other.worker_id
        &&& self.table_name == other.table_name
        &&& self.shard_type == other.shard_type
        &&& self.created_at == other.created_at
    }

    /// A shard created at the time `now`: active, empty, without key.
    pub fn new_at(shard_id: String, worker_id: String, table_name: String, shard_type: ShardType, now: u64) -> (s:
        Self)
        ensures
            s.shard_id == shard_id,
            s.worker_id == worker_id,
            s.table_name == table_name,
            s.shard_type == shard_type,
            s.shard_key@ == Map::<Seq<char>, String>::empty(),
            s.row_count == 0,
            s.size_bytes == 0,
            s.created_at == now,
            s.last_updated == now,
            s.status == ShardStatus::Active,
    {
        ShardInfo {
            shard_id,
            worker_id,
            table_name,
            shard_type,
            shard_key: StrMap::new(),
            row_count: 0,
            size_bytes: 0,
            created_at: now,
            last_updated: now,
            status: ShardStatus::Active,
        }
    }

    /// A shard created now.
    pub fn new(shard_id: String, worker_id: String, table_name: String, shard_type: ShardType) -> (s: Self)
        ensures
            s.shard_id == shard_id,
            s.worker_id == worker_id,
            s.table_name == table_name,
            s.shard_type == shard_type,
            s.shard_key@ == Map::<Seq<char>, String>::empty(),
            s.row_count == 0,
            s.size_bytes == 0,
            s.created_at == s.last_updated,
            exists|reading: i64| s.created_at == #[trigger] millis_of(reading),
            s.status == ShardStatus::Active,
    {
        Self::new_at(shard_id, worker_id, table_name, shard_type, current_millis())
    }

    /// Sets the number of rows, at the time `now`.
    pub fn update_row_count_at(&mut self, count: u64, now: u64)
        ensures
            final(self).row_count == count,
            final(self).last_updated == now,
            final(self).same_identity(old(self)),
            final(self).shard_key == old(self).shard_key,
            final(self).size_bytes == old(self).size_bytes,
            final(self).status == old(self).status,
    {
        self.row_count = count;
        self.last_updated = now;
    }

    /// Sets the number of rows, and the time of the last change to now.
    pub fn update_row_count(&mut self, count: u64)
        ensures
            final(self).row_count == count,
            final(self).same_identity(old(self)),
            final(self).shard_key == old(self).shard_key,
            final(self).size_bytes == old(self).size_bytes,
            final(self).status == old(self).status,
            exists|reading: i64| final(self).last_updated == #[trigger] millis_of(reading),
    {
        self.update_row_count_at(count, current_millis());
    }

    /// Sets the size in bytes, at the time `now`.
    pub fn update_size_bytes_at(&mut self, size: u64, now: u64)
        ensures
            final(self).size_bytes == size,
            final(self).last_updated == now,
            final(self).same_identity(old(self)),
            final(self).shard_key == old(self).shard_key,
            final(self).row_count == old(self).row_count,
            final(self).status == old(self).status,
    {
        self.size_bytes = size;
        self.last_updated = now;
    }

    /// Sets the size in bytes, and the time of the last change to now.
    pub fn update_size_bytes(&mut self, size: u64)
        ensures
            final(self).size_bytes == size,
            final(self).same_identity(old(self)),
            final(self).shard_key == old(self).shard_key,
            final(self).row_count == old(self).row_count,
            final(self).status == old(self).status,
            exists|reading: i64| final(self).last_updated == #[trigger] millis_of(reading),
    {
        self.update_size_bytes_at(size, current_millis());
    }

    /// Sets the status, at the time `now`.
    pub fn set_status_at(&mut self, status: ShardStatus, now: u64)
        ensures
            final(self).status == status,
            final(self).last_updated == now,
            final(self).same_identity(old(self)),
            final(self).shard_key == old(self).shard_key,
            final(self).row_count == old(self).row_count,
            final(self).size_bytes == old(self).size_bytes,
    {
        self.status = status;
        self.last_updated = now;
    }

    /// Sets the status, and the time of the last change to now.
    pub fn set_status(&mut self, status: ShardStatus)
        ensures
            final(self).status == status,
            final(self).same_identity(old(self)),
            final(self).shard_key == old(self).shard_key,
            final(self).row_count == old(self).row_count,
            final(self).size_bytes == old(self).size_bytes,
            exists|reading: i64| final(self).last_updated == #[trigger] millis_of(reading),
    {
        self.set_status_at(status, current_millis());
    }

    /// Stores `value` under `key` in the shard's key, in place of any
    /// earlier value, at the time `now`.
    pub fn add_shard_key_at(&mut self, key: String, value: String, now: u64)
        ensures
            final(self).shard_key@ == old(self).shard_key@.insert(key@, value),
            final(self).last_updated == now,
            final(self).same_identity(old(self)),
            final(self).row_count == old(self).row_count,
            final(self).size_bytes == old(self).size_bytes,
            final(self).status == old(self).status,
    {
        self.shard_key.insert(key, value);
        self.last_updated = now;
    }

    /// Stores `value` under `key` in the shard's key, and sets the time of
    /// the last change to now.
    pub fn add_shard_key(&mut self, key: String, value: String)
        ensures
            final(self).shard_key@ == old(self).shard_key@.insert(key@, value),
            final(self).same_identity(old(self)),
            final(self).row_count == old(self).row_count,
            final(self).size_bytes == old(self).size_bytes,
            final(self).status == old(self).status,
            exists|reading: i64| final(self).last_updated == #[trigger] millis_of(reading),
    {
        self.add_shard_key_at(key, value, current_millis());
    }

    /// Whether the shard serves requests.
    pub fn is_active(&self) -> (r: bool)
        ensures
            r == (self.status == ShardStatus::Active),
    {
        matches!(self.status, ShardStatus::Active)
    }

    /// Whether the shard is on its way to another worker.
    pub fn is_migrating(&self) -> (r: bool)
        ensures
            r == (self.status == ShardStatus::Migrating),
    {
        matches!(self.status, ShardStatus::Migrating)
    }

    /// Whether the shard is lost.
    pub fn has_failed(&self) -> (r: bool)
        ensures
            r == (self.status == ShardStatus::Failed),
    {
        matches!(self.status, ShardStatus::Failed)
    }

    /// The milliseconds from the shard's creation to the time `now`.
    pub fn age_ms_at(&self, now: u64) -> (r: u64)
        ensures
            r == elapsed(self.created_at, now),
    {
        if now >= self.created_at {
            now - self.created_at
        } else {
            0
        }
    }

    /// The milliseconds since the shard's creation.
    pub fn age_ms(&self) -> (r: u64)
        ensures
            exists|now: u64| r == #[trigger] elapsed(self.created_at, now),
    {
        self.age_ms_at(current_millis())
    }

    /// The milliseconds from the shard's last change to the time `now`.
    pub fn time_since_update_ms_at(&self, now: u64) -> (r: u64)
        ensures
            r == elapsed(self.last_updated, now),
    {
        if now >= self.last_updated {
            now - self.last_updated
        } else {
            0
        }
    }

    /// The milliseconds since the shard's last change.
    pub fn time_since_update_ms(&self) -> (r: u64)
        ensures
            exists|now: u64| r == #[trigger] elapsed(self.last_updated, now),
    {
        self.time_since_update_ms_at(current_millis())
    }

    /// The shard in words, as `to_string` writes it.
    pub open spec fn description(&self) -> Seq<char> {
        "ShardInfo{id="@ + self.shard_id@ + ", worker="@ + self.worker_id@ + ", table="@ + self.table_name@
            + ", type="@ + self.shard_type.word() + ", rows="@ + decimal(self.row_count as nat)
            + ", status="@ + self.status.word() + "}"@
    }

    /// The shard in words.
    pub fn to_string(&self) -> (s: String)
        ensures
            s@ == self.description(),
    {
        let mut s = String::from_str("ShardInfo{id=");
        s.append(self.shard_id.as_str());
        s.append(", worker=");
        s.append(self.worker_id.as_str());
        s.append(", table=");
        s.append(self.table_name.as_str());
        s.append(", type=");
        s.append(self.shard_type.to_string().as_str());
        s.append(", rows=");
        push_decimal(&mut s, self.row_count);
        s.append(", status=");
        s.append(self.status.to_string().as_str());
        s.append("}");
        proof {
            assert(s@ =~= self.description());
        }
        s
    }
}

} // verus!
