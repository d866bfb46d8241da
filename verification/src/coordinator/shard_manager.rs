//! Which worker holds which shard of which table.

use crate::str_map::StrMap;
use crate::text::{same_text, texts_of};
use vstd::prelude::*;
use vstd::string::StringExecFns;

verus! {

/// One shard as the coordinator lists it.
#[derive(Debug, PartialEq, Eq)]
pub struct ShardInfo {
    pub shard_id: String,
    pub worker_id: String,
    pub table_name: String,
    /// The first and the last key of the shard, where it has a range.
    pub key_range: Option<(String, String)>,
    pub row_count: u64,
}

/// The strategy by which the manager spreads tables.
#[derive(Debug, Clone, Copy, PartialEq, Eq, Structural)]
pub enum ShardType {
    Hash,
    Range,
    RoundRobin,
}

/// The shards of every table, by table name.
#[derive(Debug)]
pub struct ShardManager {
    shards: StrMap<Vec<ShardInfo>>,
    shard_type: ShardType,
}

impl Clone for ShardInfo {
    fn clone(&self) -> (s: Self)
        ensures
            s == *self,
    {
        let key_range = match &self.key_range {
            Some(range) => Some((range.0.clone(), range.1.clone())),
            None => None,
        };
        ShardInfo {
            shard_id: self.shard_id.clone(),
            worker_id: self.worker_id.clone(),
            table_name: self.table_name.clone(),
            key_range,
            row_count: self.row_count,
        }
    }
}

/// Whether `s` is the shard of these values, with a range from `low` to `high`.
pub open spec fn is_shard(
    s: ShardInfo,
    shard_id: Seq<char>,
    worker_id: Seq<char>,
    table_name: Seq<char>,
    low: Seq<char>,
    high: Seq<char>,
    row_count: u64,
) -> bool {
    &&& s.shard_id@ == shard_id
    &&& s.worker_id@ == worker_id
    &&& s.table_name@ == table_name
    &&& s.key_range matches Some(range) && range.0@ == low && range.1@ == high
    &&& s.row_count == row_count
}

/// The workers of `shards`, each once, in the order in which they first occur.
pub open spec fn distinct_workers(shards: Seq<ShardInfo>) -> Seq<Seq<char>>
    decreases shards.len(),
{
    if shards.len() == 0 {
        Seq::empty()
    } else {
        let earlier = distinct_workers(shards.drop_last());
        if earlier.contains(shards.last().worker_id@) {
            earlier
        } else {
            earlier.push(shards.last().worker_id@)
        }
    }
}

/// The sum of the row counts of `shards`.
pub open spec fn rows_of(shards: Seq<ShardInfo>) -> nat
    decreases shards.len(),
{
    if shards.len() == 0 {
        0
    } else {
        rows_of(shards.drop_last()) + shards.last().row_count as nat
    }
}

/// The rows of a list never number less than those of its first few.
pub proof fn lemma_rows_of_grows(shards: Seq<ShardInfo>, n: int)
    requires
        0 <= n <= shards.len(),
    ensures
        rows_of(shards.take(n)) <= rows_of(shards),
    decreases shards.len() - n,
{
    if n < shards.len() {
        lemma_rows_of_grows(shards, n + 1);
        assert(shards.take(n + 1).drop_last() =~= shards.take(n));
    } else {
        assert(shards.take(n) =~= shards);
    }
}

/// The rows of two lists put together are the rows of each, added.
pub proof fn lemma_rows_of_add(a: Seq<ShardInfo>, b: Seq<ShardInfo>)
    ensures
        rows_of(a + b) == rows_of(a) + rows_of(b),
    decreases b.len(),
{
    if b.len() == 0 {
        assert(a + b =~= a);
    } else {
        lemma_rows_of_add(a, b.drop_last());
        assert((a + b).drop_last() =~= a + b.drop_last());
    }
}

impl ShardInfo {
    /// A shard of the given values, with a key range.
    pub fn with_range(shard_id: &str, worker_id: &str, table_name: &str, low: &str, high: &str, row_count: u64) -> (s:
        Self)
        ensures
            is_shard(s, shard_id@, worker_id@, table_name@, low@, high@, row_count),
    {
        ShardInfo {
            shard_id: String::from_str(shard_id),
            worker_id: String::from_str(worker_id),
            table_name: String::from_str(table_name),
            key_range: Some((String::from_str(low), String::from_str(high))),
            row_count,
        }
    }
}

/// A copy of a list of shards.
pub fn copy_of_shards(list: &Vec<ShardInfo>) -> (copy: Vec<ShardInfo>)
    ensures
        copy@ == list@,
{
    let mut copy: Vec<ShardInfo> = Vec::new();
    let mut i: usize = 0;
    while i < list.len()
        invariant
            0 <= i <= list.len(),
            copy@ == list@.take(i as int),
        decreases list.len() - i,
    {
        copy.push(list[i].clone());
        i += 1;
    }
    copy
}

/// Whether `name` is one of `names`.
pub fn holds_text(names: &Vec<String>, name: &str) -> (r: bool)
    ensures
        r == texts_of(names@).contains(name@),
{
    let mut i: usize = 0;
    while i < names.len()
        invariant
            0 <= i <= names.len(),
            forall|j: int| 0 <= j < i ==> texts_of(names@)[j] != name@,
        decreases names.len() - i,
    {
        assert(texts_of(names@)[i as int] == names@[i as int]@);
        if same_text(names[i].as_str(), name) {
            return true;
        }
        i += 1;
    }
    false
}

/// The workers of `shards`, each once, in the order in which they first occur.
pub fn workers_of(shards: &Vec<ShardInfo>) -> (workers: Vec<String>)
    ensures
        texts_of(workers@) == distinct_workers(shards@),
{
    let mut workers: Vec<String> = Vec::new();
    let mut i: usize = 0;
    while i < shards.len()
        invariant
            0 <= i <= shards.len(),
            texts_of(workers@) == distinct_workers(shards@.take(i as int)),
        decreases shards.len() - i,
    {
        proof {
            assert(shards@.take(i + 1).drop_last() =~= shards@.take(i as int));
        }
        if !holds_text(&workers, shards[i].worker_id.as_str()) {
            let ghost before = texts_of(workers@);
            workers.push(shards[i].worker_id.clone());
            proof {
                assert(texts_of(workers@) =~= before.push(shards@[i as int].worker_id@));
            }
        }
        i += 1;
    }
    proof {
        assert(shards@.take(i as int) =~= shards@);
    }
    workers
}

impl ShardManager {
    /// The shards of each table, by table name.
    pub closed spec fn view(&self) -> Map<Seq<char>, Vec<ShardInfo>> {
        self.shards@
    }

    /// The table names, in the order in which they first arrived.
    pub closed spec fn table_seq(&self) -> Seq<Seq<char>> {
        self.shards.key_seq()
    }

    /// The shard lists of the tables, in the order of `table_seq`.
    pub closed spec fn lists(&self) -> Seq<Seq<ShardInfo>> {
        Seq::new(self.shards.value_seq().len(), |i: int| self.shards.value_seq()[i]@)
    }

    /// All shards: table after table, each table's shards in their order.
    pub open spec fn all_shards(&self) -> Seq<ShardInfo> {
        self.lists().flatten()
    }

    /// The strategy.
    pub closed spec fn strategy(&self) -> ShardType {
        self.shard_type
    }

    /// Whether the manager holds the sample shards and no others: two of
    /// `users` and three of `orders`, spread by hash.
    pub open spec fn holds_samples(&self) -> bool {
        let m = *self;
        &&& m.strategy() == ShardType::Hash
        &&& m.table_seq() == seq!["users"@, "orders"@]
        &&& m@.dom() =~= set!["users"@, "orders"@]
        &&& m@["users"@]@.len() == 2
        &&& is_shard(m@["users"@]@[0], "users_shard_1"@, "worker1"@, "users"@, "A"@, "M"@, 1000)
        &&& is_shard(m@["users"@]@[1], "users_shard_2"@, "worker2"@, "users"@, "N"@, "Z"@, 1200)
        &&& m@["orders"@]@.len() == 3
        &&& is_shard(m@["orders"@]@[0], "orders_shard_1"@, "worker1"@, "orders"@, "1"@, "5000"@, 5000)
        &&& is_shard(m@["orders"@]@[1], "orders_shard_2"@, "worker2"@, "orders"@, "5001"@, "10000"@, 5000)
        &&& is_shard(m@["orders"@]@[2], "orders_shard_3"@, "worker3"@, "orders"@, "10001"@, "15000"@, 5000)
    }

    /// A manager with the sample shards: two of `users` and three of
    /// `orders`, spread by hash.
    pub fn new() -> (m: Self)
        ensures
            m.holds_samples(),
    {
        proof {
            reveal_strlit("users");
            reveal_strlit("orders");
            assert("users"@.len() == 5);
            assert("orders"@.len() == 6);
        }
        let mut users: Vec<ShardInfo> = Vec::new();
        users.push(ShardInfo::with_range("users_shard_1", "worker1", "users", "A", "M", 1000));
        users.push(ShardInfo::with_range("users_shard_2", "worker2", "users", "N", "Z", 1200));
        let mut orders: Vec<ShardInfo> = Vec::new();
        orders.push(ShardInfo::with_range("orders_shard_1", "worker1", "orders", "1", "5000", 5000));
        orders.push(ShardInfo::with_range("orders_shard_2", "worker2", "orders", "5001", "10000", 5000));
        orders.push(ShardInfo::with_range("orders_shard_3", "worker3", "orders", "10001", "15000", 5000));
        let mut shards: StrMap<Vec<ShardInfo>> = StrMap::new();
        shards.insert(String::from_str("users"), users);
        shards.insert(String::from_str("orders"), orders);
        let m = ShardManager { shards, shard_type: ShardType::Hash };
        proof {
            assert(m@.dom() =~= set!["users"@, "orders"@]);
            assert(m.table_seq() =~= seq!["users"@, "orders"@]);
        }
        m
    }

    /// The shards of the table `table_name`; none for a table that the
    /// manager does not know.
    pub fn get_shards_for_table(&self, table_name: &str) -> (list: Vec<ShardInfo>)
        ensures
            self@.contains_key(table_name@) ==> list@ == self@[table_name@]@,
            !self@.contains_key(table_name@) ==> list@.len() == 0,
    {
        match self.shards.get(table_name) {
            Some(list) => copy_of_shards(list),
            None => Vec::new(),
        }
    }

    /// The shards that the worker `worker_id` holds, table after table.
    pub fn get_worker_shards(&self, worker_id: &str) -> (held: Vec<ShardInfo>)
        ensures
            held@ == self.all_shards().filter(|s: ShardInfo| s.worker_id@ == worker_id@),
    {
        let ghost holds = |s: ShardInfo| s.worker_id@ == worker_id@;
        let ghost lists = self.lists();
        let n = self.shards.len();
        let mut held: Vec<ShardInfo> = Vec::new();
        let mut i: usize = 0;
        proof {
            assert(lists.take(0) =~= Seq::<Seq<ShardInfo>>::empty());
            assert(lists.take(0).flatten() =~= Seq::<ShardInfo>::empty());
        }
        while i < n
            invariant
                0 <= i <= n,
                n == self.shards.key_seq().len(),
                self.shards.well_formed(),
                lists == self.lists(),
                lists.len() == n,
                holds == (|s: ShardInfo| s.worker_id@ == worker_id@),
                held@ == lists.take(i as int).flatten().filter(holds),
            decreases n - i,
        {
            let list = self.shards.value_at(i);
            assert(list@ == lists[i as int]);
            let ghost done = lists.take(i as int).flatten();
            let mut j: usize = 0;
            proof {
                assert(list@.take(0) =~= Seq::<ShardInfo>::empty());
                assert(done + list@.take(0) =~= done);
            }
            while j < list.len()
                invariant
                    0 <= j <= list@.len(),
                    holds == (|s: ShardInfo| s.worker_id@ == worker_id@),
                    held@ == (done + list@.take(j as int)).filter(holds),
                decreases list@.len() - j,
            {
                proof {
                    let sofar = done + list@.take(j as int);
                    assert(done + list@.take(j + 1) =~= sofar.push(list@[j as int]));
                    sofar.lemma_filter_push(list@[j as int], holds);
                }
                if same_text(list[j].worker_id.as_str(), worker_id) {
                    held.push(list[j].clone());
                }
                j += 1;
            }
            proof {
                assert(list@.take(j as int) =~= list@);
                assert(lists.take(i + 1) =~= lists.take(i as int).push(lists[i as int]));
                lists.take(i as int).lemma_flatten_push(lists[i as int]);
            }
            i += 1;
        }
        proof {
            assert(lists.take(n as int) =~= lists);
        }
        held
    }

    /// Adds `shard` behind the shards of the table `table_name`, which
    /// becomes known if it was not.
    pub fn add_shard(&mut self, table_name: String, shard: ShardInfo)
        ensures
            final(self)@.dom() == old(self)@.dom().insert(table_name@),
            final(self)@[table_name@]@ == (if old(self)@.contains_key(table_name@) {
                old(self)@[table_name@]@
            } else {
                Seq::empty()
            }).push(shard),
            forall|k: Seq<char>| k != table_name@ && old(self)@.contains_key(k) ==> #[trigger] final(self)@[k] == old(self)@[k],
            final(self).strategy() == old(self).strategy(),
    {
        match self.shards.position(table_name.as_str()) {
            Some(i) => {
                let ghost before = self.shards@;
                let ghost key = self.shards.key_seq()[i as int];
                proof {
                    crate::str_map::lemma_paired_at(self.shards.key_seq(), self.shards.value_seq(), i as int);
                }
                let mut list = self.shards.replace_at(i, Vec::new());
                list.push(shard);
                self.shards.replace_at(i, list);
                proof {
                    assert(self.shards@.dom() =~= before.dom().insert(table_name@));
                }
            },
            None => {
                let mut list: Vec<ShardInfo> = Vec::new();
                list.push(shard);
                self.shards.insert(table_name, list);
            },
        }
    }

    /// For each table, the workers that hold its shards, each once, in the
    /// order in which they first occur.
    pub fn get_shard_distribution(&self) -> (distribution: StrMap<Vec<String>>)
        ensures
            distribution@.dom() == self@.dom(),
            distribution.key_seq() == self.table_seq(),
            forall|k: Seq<char>|
                self@.contains_key(k) ==> texts_of((#[trigger] distribution@[k])@) == distinct_workers(self@[k]@),
    {
        let n = self.shards.len();
        let ghost keys = self.shards.key_seq();
        let mut distribution: StrMap<Vec<String>> = StrMap::new();
        let mut i: usize = 0;
        while i < n
            invariant
                0 <= i <= n,
                n == keys.len(),
                keys == self.shards.key_seq(),
                self.shards.well_formed(),
                distribution.key_seq() == keys.take(i as int),
                forall|k: Seq<char>| distribution@.contains_key(k) <==> keys.take(i as int).contains(k),
                forall|j: int|
                    0 <= j < i ==> texts_of((#[trigger] distribution@[keys[j]])@) == distinct_workers(
                        self.shards@[keys[j]]@,
                    ),
            decreases n - i,
        {
            let key = self.shards.key_at(i);
            let list = self.shards.value_at(i);
            let workers = workers_of(list);
            let ghost earlier = distribution@;
            proof {
                let prev = keys.take(i as int);
                assert(!prev.contains(keys[i as int])) by {
                    if prev.contains(keys[i as int]) {
                        let j = choose|j: int| 0 <= j < prev.len() && prev[j] == keys[i as int];
                        assert(keys[j] == keys[i as int]);
                    }
                }
            }
            distribution.insert(key.clone(), workers);
            proof {
                let prev = keys.take(i as int);
                let next = keys.take(i + 1);
                assert(distribution.key_seq() =~= next);
                assert forall|k: Seq<char>| distribution@.contains_key(k) <==> next.contains(k) by {
                    if next.contains(k) {
                        let j = choose|j: int| 0 <= j < next.len() && next[j] == k;
                        if j < i {
                            assert(prev[j] == k);
                        }
                    }
                    if distribution@.contains_key(k) {
                        if k == keys[i as int] {
                            assert(next[i as int] == k);
                        } else {
                            assert(earlier.contains_key(k));
                            let j = choose|j: int| 0 <= j < prev.len() && prev[j] == k;
                            assert(next[j] == k);
                        }
                    }
                }
                assert forall|j: int| 0 <= j < i + 1 implies texts_of((#[trigger] distribution@[keys[j]])@)
                    == distinct_workers(self.shards@[keys[j]]@) by {
                    if j < i {
                        assert(keys[j] != keys[i as int]);
                    }
                }
            }
            i += 1;
        }
        proof {
            assert(keys.take(n as int) =~= keys);
            assert(distribution@.dom() =~= self.shards@.dom());
            assert forall|k: Seq<char>| self@.contains_key(k) implies texts_of((#[trigger] distribution@[k])@)
                == distinct_workers(self@[k]@) by {
                let j = choose|j: int| 0 <= j < keys.len() && keys[j] == k;
                assert(texts_of(distribution@[keys[j]]@) == distinct_workers(self.shards@[keys[j]]@));
            }
        }
        distribution
    }

    /// The sum of the row counts of all shards.
    pub fn get_total_rows(&self) -> (total: u64)
        requires
            rows_of(self.all_shards()) <= u64::MAX,
        ensures
            total == rows_of(self.all_shards()),
    {
        let ghost lists = self.lists();
        let n = self.shards.len();
        let mut total: u64 = 0;
        let mut i: usize = 0;
        proof {
            assert(lists.take(0) =~= Seq::<Seq<ShardInfo>>::empty());
            assert(lists.take(0).flatten() =~= Seq::<ShardInfo>::empty());
        }
        while i < n
            invariant
                0 <= i <= n,
                n == self.shards.key_seq().len(),
                self.shards.well_formed(),
                lists == self.lists(),
                lists.len() == n,
                rows_of(lists.flatten()) <= u64::MAX,
                total == rows_of(lists.take(i as int).flatten()),
            decreases n - i,
        {
            let list = self.shards.value_at(i);
            assert(list@ == lists[i as int]);
            let ghost done = lists.take(i as int).flatten();
            proof {
                assert(lists.take(i + 1) =~= lists.take(i as int).push(lists[i as int]));
                lists.take(i as int).lemma_flatten_push(lists[i as int]);
                lemma_rows_of_add(done, list@);
                lemma_flatten_prefix_rows(lists, i + 1);
            }
            let mut j: usize = 0;
            let mut part: u64 = 0;
            while j < list.len()
                invariant
                    0 <= j <= list@.len(),
                    part == rows_of(list@.take(j as int)),
                    total + rows_of(list@) <= u64::MAX,
                decreases list@.len() - j,
            {
                proof {
                    assert(list@.take(j + 1).drop_last() =~= list@.take(j as int));
                    lemma_rows_of_grows(list@, j + 1);
                }
                part = part + list[j].row_count;
                j += 1;
            }
            proof {
                assert(list@.take(j as int) =~= list@);
            }
            total = total + part;
            i += 1;
        }
        proof {
            assert(lists.take(n as int) =~= lists);
        }
        total
    }
}

/// The shards of the first tables never have more rows than all shards.
pub proof fn lemma_flatten_prefix_rows(lists: Seq<Seq<ShardInfo>>, n: int)
    requires
        0 <= n <= lists.len(),
    ensures
        rows_of(lists.take(n).flatten()) <= rows_of(lists.flatten()),
    decreases lists.len() - n,
{
    if n < lists.len() {
        lemma_flatten_prefix_rows(lists, n + 1);
        assert(lists.take(n + 1) =~= lists.take(n).push(lists[n]));
        lists.take(n).lemma_flatten_push(lists[n]);
        lemma_rows_of_add(lists.take(n).flatten(), lists[n]);
    } else {
        assert(lists.take(n) =~= lists);
    }
}

} // verus!
