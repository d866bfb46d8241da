//! How the rows of a table are spread over its shards.

use crate::str_map::{texts, StrMap};
use crate::text::{decimal, i64_of, parse_i64, push_decimal, texts_of};
use vstd::prelude::*;
use vstd::string::StringExecFns;
use vstd::utf8::encode_utf8;

verus! {

/// The strategy by which a row finds its shard.
#[derive(Debug, Clone, Copy, PartialEq, Eq, Structural)]
pub enum ShardType {
    /// By a checksum over the values of all shard columns.
    HashBased,
    /// By the integer in the first shard column.
    RangeBased,
    /// By a checksum over the first shard column that the row holds.
    RoundRobin,
    /// By a rule that the caller supplies; not available.
    Custom,
}

impl ShardType {
    /// The strategy in capitals.
    pub open spec fn word(&self) -> Seq<char> {
        match *self {
            ShardType::HashBased => "HASH_BASED"@,
            ShardType::RangeBased => "RANGE_BASED"@,
            ShardType::RoundRobin => "ROUND_ROBIN"@,
            ShardType::Custom => "CUSTOM"@,
        }
    }

    /// The strategy in capitals.
    pub fn to_string(&self) -> (s: String)
        ensures
            s@ == self.word(),
    {
        match self {
            ShardType::HashBased => String::from_str("HASH_BASED"),
            ShardType::RangeBased => String::from_str("RANGE_BASED"),
            ShardType::RoundRobin => String::from_str("ROUND_ROBIN"),
            ShardType::Custom => String::from_str("CUSTOM"),
        }
    }
}

/// The debugging form of a list of texts, as the standard formatter writes it.
pub uninterp spec fn debug_form_of(list: Seq<Seq<char>>) -> Seq<char>;

/// The debugging form of `list`: `format!` with `{:?}`, which writes the
/// items in square brackets, each in double quotes with its special
/// characters escaped. The result is named, not spelled out: it depends on
/// the texts alone.
#[verifier::external_body]
fn debug_form(list: &Vec<String>) -> (s: String)
    ensures
        s@ == debug_form_of(texts_of(list@)),
{
    format!("{:?}", list)
}

/// Why a row found no shard.
#[derive(Debug, PartialEq, Eq)]
pub enum ShardError {
    /// The row holds no value for this shard column.
    MissingColumn { column: String },
    /// The distribution's strategy cannot place rows.
    UnsupportedStrategy,
}

/// The sharding of one table.
#[derive(Debug)]
pub struct ShardDistribution {
    /// The table.
    pub table_name: String,
    /// The strategy.
    pub shard_type: ShardType,
    /// The columns whose values decide the shard, in order.
    pub shard_columns: Vec<String>,
    /// The number of shards.
    pub num_shards: u32,
    /// Further settings, by name.
    pub distribution_params: StrMap<String>,
    /// Whether each shard is kept more than once.
    pub is_replicated: bool,
    /// How many times each shard is kept.
    pub replication_factor: u32,
}

/// The running checksum is kept modulo this number.
pub open spec fn hash_modulus() -> nat {
    0x1_0000_0000
}

/// The sum of the bytes of `bytes`.
pub open spec fn byte_sum(bytes: Seq<u8>) -> nat
    decreases bytes.len(),
{
    if bytes.len() == 0 {
        0
    } else {
        byte_sum(bytes.drop_last()) + bytes.last() as nat
    }
}

/// What one value adds to the checksum: the number of bytes of its UTF-8
/// form plus the sum of those bytes.
pub open spec fn value_weight(text: Seq<char>) -> nat {
    encode_utf8(text).len() + byte_sum(encode_utf8(text))
}

/// The sum of the weights of the values that `row` holds for `columns`.
pub open spec fn columns_weight(columns: Seq<Seq<char>>, row: Map<Seq<char>, Seq<char>>) -> nat
    decreases columns.len(),
{
    if columns.len() == 0 {
        0
    } else {
        columns_weight(columns.drop_last(), row) + value_weight(row[columns.last()])
    }
}

/// The name of shard number `index` of `table`.
pub open spec fn shard_name(table: Seq<char>, index: nat) -> Seq<char> {
    table + "_shard_"@ + decimal(index)
}

/// Whether `columns[i]` is the first column for which `row` holds no value.
pub open spec fn is_first_absent(columns: Seq<Seq<char>>, row: Map<Seq<char>, Seq<char>>, i: int) -> bool {
    &&& 0 <= i < columns.len()
    &&& !row.contains_key(columns[i])
    &&& forall|j: int| 0 <= j < i ==> row.contains_key(#[trigger] columns[j])
}

/// Whether `columns[i]` is the first column for which `row` holds a value.
pub open spec fn is_first_present(columns: Seq<Seq<char>>, row: Map<Seq<char>, Seq<char>>, i: int) -> bool {
    &&& 0 <= i < columns.len()
    &&& row.contains_key(columns[i])
    &&& forall|j: int| 0 <= j < i ==> !row.contains_key(#[trigger] columns[j])
}

/// Whether `row` holds a value for every one of `columns`.
pub open spec fn all_present(columns: Seq<Seq<char>>, row: Map<Seq<char>, Seq<char>>) -> bool {
    forall|j: int| 0 <= j < columns.len() ==> row.contains_key(#[trigger] columns[j])
}

/// Where a row goes, or why it goes nowhere.
pub enum Placement {
    /// The shard of this number.
    Index(nat),
    /// The row lacks the shard column at this position.
    Missing(int),
    /// The strategy places no rows.
    Unsupported,
}

/// Placement by the checksum over all of `columns`.
pub open spec fn hash_placement(columns: Seq<Seq<char>>, row: Map<Seq<char>, Seq<char>>, num_shards: nat) -> Placement {
    if all_present(columns, row) {
        Placement::Index((columns_weight(columns, row) % hash_modulus()) % num_shards)
    } else {
        Placement::Missing(choose|i: int| is_first_absent(columns, row, i))
    }
}

/// The distance of `v` from zero.
pub open spec fn magnitude(v: int) -> nat {
    if v < 0 {
        (-v) as nat
    } else {
        v as nat
    }
}

/// Placement by the integer in the first column, where the distribution has
/// ranges and the row holds an integer there; by the checksum otherwise.
pub open spec fn range_placement(
    columns: Seq<Seq<char>>,
    row: Map<Seq<char>, Seq<char>>,
    num_shards: nat,
    has_ranges: bool,
) -> Placement {
    if has_ranges && columns.len() > 0 && row.contains_key(columns[0]) && i64_of(row[columns[0]]) is Some {
        Placement::Index(magnitude(i64_of(row[columns[0]])->0 as int) % num_shards)
    } else {
        hash_placement(columns, row, num_shards)
    }
}

/// Placement by the checksum over the first of `columns` that `row` holds.
/// A row that holds none of them lacks the first; without shard columns
/// every row goes to shard 0.
pub open spec fn round_robin_placement(
    columns: Seq<Seq<char>>,
    row: Map<Seq<char>, Seq<char>>,
    num_shards: nat,
) -> Placement {
    if exists|i: int| is_first_present(columns, row, i) {
        let i = choose|i: int| is_first_present(columns, row, i);
        Placement::Index((value_weight(row[columns[i]]) % hash_modulus()) % num_shards)
    } else if columns.len() > 0 {
        Placement::Missing(0)
    } else {
        Placement::Index(0)
    }
}

/// At most one column is the first absent one.
pub proof fn lemma_first_absent_unique(columns: Seq<Seq<char>>, row: Map<Seq<char>, Seq<char>>, i: int, j: int)
    requires
        is_first_absent(columns, row, i),
        is_first_absent(columns, row, j),
    ensures
        i == j,
{
    if i < j {
        assert(row.contains_key(columns[i]));
    } else if j < i {
        assert(row.contains_key(columns[j]));
    }
}

/// At most one column is the first present one.
pub proof fn lemma_first_present_unique(columns: Seq<Seq<char>>, row: Map<Seq<char>, Seq<char>>, i: int, j: int)
    requires
        is_first_present(columns, row, i),
        is_first_present(columns, row, j),
    ensures
        i == j,
{
    if i < j {
        assert(!row.contains_key(columns[i]));
    } else if j < i {
        assert(!row.contains_key(columns[j]));
    }
}

/// The checksum weight of `value`, modulo `hash_modulus()`.
pub fn weight_of(value: &str) -> (w: u64)
    ensures
        w == value_weight(value@) % hash_modulus(),
{
    let bytes = value.as_bytes();
    let n = bytes.len();
    let mut acc: u64 = (n as u64) % 0x1_0000_0000;
    let mut j: usize = 0;
    while j < n
        invariant
            0 <= j <= n,
            n == bytes@.len(),
            bytes@ == encode_utf8(value@),
            acc == (n + byte_sum(bytes@.take(j as int))) % 0x1_0000_0000,
        decreases n - j,
    {
        proof {
            assert(bytes@.take(j + 1).drop_last() =~= bytes@.take(j as int));
        }
        acc = (acc + bytes[j] as u64) % 0x1_0000_0000;
        j += 1;
    }
    proof {
        assert(bytes@.take(n as int) =~= bytes@);
    }
    acc
}

/// A distribution as plain values.
pub struct ShardDistributionView {
    pub table_name: Seq<char>,
    pub shard_type: ShardType,
    pub shard_columns: Seq<Seq<char>>,
    pub num_shards: u32,
    pub distribution_params: Map<Seq<char>, Seq<char>>,
    pub is_replicated: bool,
    pub replication_factor: u32,
}

impl View for ShardDistribution {
    type V = ShardDistributionView;

    open spec fn view(&self) -> ShardDistributionView {
        ShardDistributionView {
            table_name: self.table_name@,
            shard_type: self.shard_type,
            shard_columns: self.columns(),
            num_shards: self.num_shards,
            distribution_params: texts(self.distribution_params@),
            is_replicated: self.is_replicated,
            replication_factor: self.replication_factor,
        }
    }
}

/// Whether two results tell the same: the same shard, or the same failure.
pub open spec fn same_outcome(a: Result<String, ShardError>, b: Result<String, ShardError>) -> bool {
    match (a, b) {
        (Ok(x), Ok(y)) => x@ == y@,
        (Err(ShardError::MissingColumn { column: x }), Err(ShardError::MissingColumn { column: y })) => x@
            == y@,
        (Err(ShardError::UnsupportedStrategy), Err(ShardError::UnsupportedStrategy)) => true,
        _ => false,
    }
}

impl ShardDistribution {
    /// A distribution of `table_name` over `num_shards` shards, without
    /// settings and without replication.
    pub fn new(table_name: String, shard_type: ShardType, shard_columns: Vec<String>, num_shards: u32) -> (d:
        Self)
        ensures
            d.table_name == table_name,
            d.shard_type == shard_type,
            d.shard_columns == shard_columns,
            d.num_shards == num_shards,
            d.distribution_params@ == Map::<Seq<char>, String>::empty(),
            !d.is_replicated,
            d.replication_factor == 1,
    {
        ShardDistribution {
            table_name,
            shard_type,
            shard_columns,
            num_shards,
            distribution_params: StrMap::new(),
            is_replicated: false,
            replication_factor: 1,
        }
    }

    /// A distribution by checksum.
    pub fn hash_based(table_name: String, shard_columns: Vec<String>, num_shards: u32) -> (d: Self)
        ensures
            d.table_name == table_name,
            d.shard_type == ShardType::HashBased,
            d.shard_columns == shard_columns,
            d.num_shards == num_shards,
            d.distribution_params@ == Map::<Seq<char>, String>::empty(),
            !d.is_replicated,
            d.replication_factor == 1,
    {
        Self::new(table_name, ShardType::HashBased, shard_columns, num_shards)
    }

    /// A distribution by ranges.
    pub fn range_based(table_name: String, shard_columns: Vec<String>, num_shards: u32) -> (d: Self)
        ensures
            d.table_name == table_name,
            d.shard_type == ShardType::RangeBased,
            d.shard_columns == shard_columns,
            d.num_shards == num_shards,
            d.distribution_params@ == Map::<Seq<char>, String>::empty(),
            !d.is_replicated,
            d.replication_factor == 1,
    {
        Self::new(table_name, ShardType::RangeBased, shard_columns, num_shards)
    }

    /// A round-robin distribution.
    pub fn round_robin(table_name: String, shard_columns: Vec<String>, num_shards: u32) -> (d: Self)
        ensures
            d.table_name == table_name,
            d.shard_type == ShardType::RoundRobin,
            d.shard_columns == shard_columns,
            d.num_shards == num_shards,
            d.distribution_params@ == Map::<Seq<char>, String>::empty(),
            !d.is_replicated,
            d.replication_factor == 1,
    {
        Self::new(table_name, ShardType::RoundRobin, shard_columns, num_shards)
    }

    /// Sets how many times each shard is kept. The distribution counts as
    /// replicated from two copies on.
    pub fn with_replication(&mut self, replication_factor: u32)
        ensures
            final(self).replication_factor == replication_factor,
            final(self).is_replicated == (replication_factor > 1),
            final(self).table_name == old(self).table_name,
            final(self).shard_type == old(self).shard_type,
            final(self).shard_columns == old(self).shard_columns,
            final(self).num_shards == old(self).num_shards,
            final(self).distribution_params == old(self).distribution_params,
    {
        self.is_replicated = replication_factor > 1;
        self.replication_factor = replication_factor;
    }

    /// Stores the setting `value` under `key`, in place of any earlier one.
    pub fn add_parameter(&mut self, key: String, value: String)
        ensures
            final(self).distribution_params@ == old(self).distribution_params@.insert(key@, value),
            final(self).table_name == old(self).table_name,
            final(self).shard_type == old(self).shard_type,
            final(self).shard_columns == old(self).shard_columns,
            final(self).num_shards == old(self).num_shards,
            final(self).is_replicated == old(self).is_replicated,
            final(self).replication_factor == old(self).replication_factor,
    {
        self.distribution_params.insert(key, value);
    }

    /// The setting stored under `key`, if there is one.
    pub fn get_parameter(&self, key: &str) -> (r: Option<&String>)
        ensures
            match r {
                Some(v) => self.distribution_params@.contains_key(key@) && *v
                    == self.distribution_params@[key@],
                None => !self.distribution_params@.contains_key(key@),
            },
    {
        self.distribution_params.get(key)
    }

    /// What a usable distribution satisfies: a named table, at least one
    /// shard column, at least one shard and at least one copy of each.
    pub open spec fn valid(&self) -> bool {
        &&& self.table_name@.len() > 0
        &&& self.shard_columns@.len() > 0
        &&& self.num_shards > 0
        &&& self.replication_factor > 0
    }

    /// Whether the distribution is usable.
    pub fn is_valid(&self) -> (r: bool)
        ensures
            r == self.valid(),
    {
        !self.table_name.as_str().is_empty() && self.shard_columns.len() > 0 && self.num_shards > 0
            && self.replication_factor > 0
    }

    /// The number of shards, copies included.
    pub fn total_shards(&self) -> (n: u32)
        requires
            self.num_shards * self.replication_factor <= u32::MAX,
        ensures
            n == self.num_shards * self.replication_factor,
    {
        self.num_shards * self.replication_factor
    }

    /// The distribution in words, given the debugging form of its columns.
    pub open spec fn description(&self, columns: Seq<char>) -> Seq<char> {
        "ShardDistribution{table="@ + self.table_name@ + ", type="@ + self.shard_type.word() + ", columns="@
            + columns + ", shards="@ + decimal(self.num_shards as nat) + ", replicated="@ + (
        if self.is_replicated {
            "true"@
        } else {
            "false"@
        }) + "}"@
    }

    /// The distribution in words, `columns` being the debugging form of
    /// its columns.
    pub fn describe(&self, columns: &str) -> (s: String)
        ensures
            s@ == self.description(columns@),
    {
        let mut s = String::from_str("ShardDistribution{table=");
        s.append(self.table_name.as_str());
        s.append(", type=");
        s.append(self.shard_type.to_string().as_str());
        s.append(", columns=");
        s.append(columns);
        s.append(", shards=");
        push_decimal(&mut s, self.num_shards as u64);
        s.append(", replicated=");
        if self.is_replicated {
            s.append("true");
        } else {
            s.append("false");
        }
        s.append("}");
        proof {
            assert(s@ =~= self.description(columns@));
        }
        s
    }

    /// The distribution in words.
    pub fn to_string(&self) -> (s: String)
        ensures
            s@ == self.description(debug_form_of(self.columns())),
    {
        let columns = debug_form(&self.shard_columns);
        self.describe(columns.as_str())
    }

    /// The texts of the shard columns.
    pub open spec fn columns(&self) -> Seq<Seq<char>> {
        texts_of(self.shard_columns@)
    }

    /// Whether the distribution has a setting named `ranges`.
    pub open spec fn has_ranges(&self) -> bool {
        self.distribution_params@.contains_key("ranges"@)
    }

    /// Where a row with the values `row` goes under this distribution.
    pub open spec fn placement(&self, row: Map<Seq<char>, Seq<char>>) -> Placement {
        match self.shard_type {
            ShardType::HashBased => hash_placement(self.columns(), row, self.num_shards as nat),
            ShardType::RangeBased => range_placement(
                self.columns(),
                row,
                self.num_shards as nat,
                self.has_ranges(),
            ),
            ShardType::RoundRobin => round_robin_placement(self.columns(), row, self.num_shards as nat),
            ShardType::Custom => Placement::Unsupported,
        }
    }

    /// Whether `r` reports the placement `p`: the shard's name for a shard,
    /// the name of the column for a column that the row lacks.
    pub open spec fn reports(&self, r: Result<String, ShardError>, p: Placement) -> bool {
        match p {
            Placement::Index(i) => r matches Ok(id) && id@ == shard_name(self.table_name@, i),
            Placement::Missing(i) => r matches Err(ShardError::MissingColumn { column }) && column@
                == self.columns()[i],
            Placement::Unsupported => r matches Err(ShardError::UnsupportedStrategy),
        }
    }

    /// The name of shard number `index` of this distribution's table.
    pub fn shard_id(&self, index: u32) -> (id: String)
        ensures
            id@ == shard_name(self.table_name@, index as nat),
    {
        let mut id = self.table_name.clone();
        id.append("_shard_");
        push_decimal(&mut id, index as u64);
        id
    }

    /// Places a row by the checksum over the values of all shard columns.
    pub fn determine_hash_based_shard(&self, row_data: &StrMap<String>) -> (r: Result<String, ShardError>)
        requires
            self.num_shards > 0,
        ensures
            self.reports(r, hash_placement(self.columns(), texts(row_data@), self.num_shards as nat)),
    {
        let ghost columns = self.columns();
        let ghost row = texts(row_data@);
        let mut acc: u64 = 0;
        let mut i: usize = 0;
        while i < self.shard_columns.len()
            invariant
                0 <= i <= self.shard_columns.len(),
                columns == self.columns(),
                row == texts(row_data@),
                forall|j: int| 0 <= j < i ==> row.contains_key(#[trigger] columns[j]),
                acc == columns_weight(columns.take(i as int), row) % hash_modulus(),
            decreases self.shard_columns.len() - i,
        {
            let column = &self.shard_columns[i];
            assert(columns[i as int] == column@);
            match row_data.get(column.as_str()) {
                Some(value) => {
                    let w = weight_of(value.as_str());
                    proof {
                        assert(columns.take(i + 1).drop_last() =~= columns.take(i as int));
                        assert(row[columns[i as int]] == value@);
                    }
                    acc = (acc + w) % 0x1_0000_0000;
                },
                None => {
                    proof {
                        assert(is_first_absent(columns, row, i as int));
                        let k = choose|k: int| is_first_absent(columns, row, k);
                        lemma_first_absent_unique(columns, row, i as int, k);
                    }
                    return Err(ShardError::MissingColumn { column: column.clone() });
                },
            }
            i += 1;
        }
        proof {
            assert(columns.take(i as int) =~= columns);
        }
        let index = (acc % (self.num_shards as u64)) as u32;
        Ok(self.shard_id(index))
    }

    /// Places a row by the integer that it holds in the first shard column,
    /// where the distribution has a setting named `ranges`; by the checksum
    /// in every other case.
    pub fn determine_range_based_shard(&self, row_data: &StrMap<String>) -> (r: Result<String, ShardError>)
        requires
            self.num_shards > 0,
        ensures
            self.reports(
                r,
                range_placement(self.columns(), texts(row_data@), self.num_shards as nat, self.has_ranges()),
            ),
    {
        if self.distribution_params.contains_key("ranges") && self.shard_columns.len() > 0 {
            let column = &self.shard_columns[0];
            assert(self.columns()[0] == column@);
            if let Some(value) = row_data.get(column.as_str()) {
                assert(texts(row_data@)[self.columns()[0]] == value@);
                if let Some(number) = parse_i64(value.as_str()) {
                    let distance: u64 = if number >= 0 {
                        number as u64
                    } else if number == i64::MIN {
                        9223372036854775808
                    } else {
                        (-number) as u64
                    };
                    let index = (distance % (self.num_shards as u64)) as u32;
                    return Ok(self.shard_id(index));
                }
            }
        }
        self.determine_hash_based_shard(row_data)
    }

    /// Places a row by the checksum over the first shard column for which it
    /// holds a value.
    pub fn determine_round_robin_shard(&self, row_data: &StrMap<String>) -> (r: Result<String, ShardError>)
        requires
            self.num_shards > 0,
        ensures
            self.reports(r, round_robin_placement(self.columns(), texts(row_data@), self.num_shards as nat)),
    {
        let ghost columns = self.columns();
        let ghost row = texts(row_data@);
        let mut i: usize = 0;
        while i < self.shard_columns.len()
            invariant
                0 <= i <= self.shard_columns.len(),
                columns == self.columns(),
                row == texts(row_data@),
                self.num_shards > 0,
                forall|j: int| 0 <= j < i ==> !row.contains_key(#[trigger] columns[j]),
            decreases self.shard_columns.len() - i,
        {
            let column = &self.shard_columns[i];
            assert(columns[i as int] == column@);
            if let Some(value) = row_data.get(column.as_str()) {
                let w = weight_of(value.as_str());
                proof {
                    assert(row[columns[i as int]] == value@);
                    assert(is_first_present(columns, row, i as int));
                    let k = choose|k: int| is_first_present(columns, row, k);
                    lemma_first_present_unique(columns, row, i as int, k);
                }
                let index = (w % (self.num_shards as u64)) as u32;
                return Ok(self.shard_id(index));
            }
            i += 1;
        }
        proof {
            assert forall|k: int| !is_first_present(columns, row, k) by {
                if 0 <= k < columns.len() {
                    assert(!row.contains_key(columns[k]));
                }
            }
        }
        if self.shard_columns.len() > 0 {
            assert(columns[0] == self.shard_columns@[0]@);
            Err(ShardError::MissingColumn { column: self.shard_columns[0].clone() })
        } else {
            Ok(self.shard_id(0))
        }
    }

    /// The shard that owns a row with the values `row_data`, by the
    /// distribution's strategy.
    pub fn determine_shard_id(&self, row_data: &StrMap<String>) -> (r: Result<String, ShardError>)
        requires
            self.shard_type is Custom || self.num_shards > 0,
        ensures
            self.reports(r, self.placement(texts(row_data@))),
    {
        match self.shard_type {
            ShardType::HashBased => self.determine_hash_based_shard(row_data),
            ShardType::RangeBased => self.determine_range_based_shard(row_data),
            ShardType::RoundRobin => self.determine_round_robin_shard(row_data),
            ShardType::Custom => Err(ShardError::UnsupportedStrategy),
        }
    }
}

/// The placement of a row depends on nothing but the distribution's values
/// and the row's values: two calls on equal inputs report the same shard, or
/// the same failure.
pub proof fn lemma_determine_shard_deterministic(
    a: ShardDistribution,
    b: ShardDistribution,
    row_a: Map<Seq<char>, String>,
    row_b: Map<Seq<char>, String>,
    r_a: Result<String, ShardError>,
    r_b: Result<String, ShardError>,
)
    requires
        a@ == b@,
        texts(row_a) == texts(row_b),
        a.reports(r_a, a.placement(texts(row_a))),
        b.reports(r_b, b.placement(texts(row_b))),
    ensures
        a.placement(texts(row_a)) == b.placement(texts(row_b)),
        same_outcome(r_a, r_b),
{
    assert(a.columns() == b.columns());
    assert(a.has_ranges() == b.has_ranges()) by {
        assert(texts(a.distribution_params@).contains_key("ranges"@) == texts(
            b.distribution_params@,
        ).contains_key("ranges"@));
    }
}

/// Whatever the strategy, a shard that a row is placed in has a number
/// below the number of shards.
pub proof fn lemma_shard_index_in_range(d: ShardDistribution, row: Map<Seq<char>, Seq<char>>)
    requires
        d.num_shards > 0,
    ensures
        d.placement(row) matches Placement::Index(i) ==> i < d.num_shards,
{
}

} // verus!
