//! One value by which a row is assigned to a shard.

use crate::text::{i64_of, parse_i64, same_text};
use std::collections::hash_map::DefaultHasher;
use std::hash::{Hash, Hasher};
use vstd::prelude::*;
use vstd::std_specs::hash::DefaultHasherAdditionalSpecFns;
use vstd::string::StringExecFns;

verus! {

/// The declared type of a shard key's value.
#[derive(Debug, Clone, Copy, PartialEq, Eq, Structural)]
pub enum DataType {
    String,
    Integer,
    Long,
    Double,
    Boolean,
    Date,
}

impl DataType {
    /// The type in capitals.
    pub open spec fn word(&self) -> Seq<char> {
        match *self {
            DataType::String => "STRING"@,
            DataType::Integer => "INTEGER"@,
            DataType::Long => "LONG"@,
            DataType::Double => "DOUBLE"@,
            DataType::Boolean => "BOOLEAN"@,
            DataType::Date => "DATE"@,
        }
    }

    /// The type in capitals.
    pub fn to_string(&self) -> (s: String)
        ensures
            s@ == self.word(),
    {
        match self {
            DataType::String => String::from_str("STRING"),
            DataType::Integer => String::from_str("INTEGER"),
            DataType::Long => String::from_str("LONG"),
            DataType::Double => String::from_str("DOUBLE"),
            DataType::Boolean => String::from_str("BOOLEAN"),
            DataType::Date => String::from_str("DATE"),
        }
    }
}

/// A shard key: a column, its value as text, and how to read the value.
#[derive(Debug, PartialEq, Eq)]
pub struct ShardKey {
    pub column_name: String,
    pub value: String,
    pub data_type: DataType,
    pub is_primary_key: bool,
}

/// A shard key's value, read by its declared type. A floating-point value
/// is carried as the bits of a 64-bit float.
#[derive(Debug, PartialEq, Eq)]
pub enum ParsedValue {
    String(String),
    Integer(i32),
    Long(i64),
    Double(u64),
    Boolean(bool),
}

/// Feeds `text` to `hasher` the way a string is hashed: `Hash::hash` of
/// `str`. What the hasher has been fed afterwards is named, not spelled
/// out: it depends on nothing but what it had been fed before and the text.
#[verifier::external_body]
fn feed_text(hasher: &mut DefaultHasher, text: &str)
    ensures
        final(hasher)@ == fed_text_of(old(hasher)@, text@),
{
    text.hash(hasher)
}

/// The shard that a hash falls in among `num_shards` shards.
pub fn consistent_index(hash: u32, num_shards: u32) -> (index: u32)
    requires
        num_shards > 0,
    ensures
        index == hash % num_shards,
{
    hash % num_shards
}

/// The low 32 bits of a hash.
pub fn low_half(hash: u64) -> (low: u32)
    ensures
        low == hash % 0x1_0000_0000,
{
    (hash % 0x1_0000_0000) as u32
}

/// What `parse_value` says of a value that is not of the declared type.
pub open spec fn unreadable_message(value: Seq<char>, kind: Seq<char>) -> Seq<char> {
    "Cannot parse '"@ + value + "' as "@ + kind
}

/// The truth value that `s` writes: `true` or `false`, nothing else.
pub open spec fn bool_of(s: Seq<char>) -> Option<bool> {
    if s == "true"@ {
        Some(true)
    } else if s == "false"@ {
        Some(false)
    } else {
        None
    }
}

/// The 32-bit signed integer that `s` writes, if it writes one.
pub open spec fn i32_of(s: Seq<char>) -> Option<i32> {
    match i64_of(s) {
        Some(v) => if i32::MIN <= v <= i32::MAX {
            Some(v as i32)
        } else {
            None
        },
        None => None,
    }
}

impl ShardKey {
    /// A shard key that is no primary key.
    pub fn new(column_name: String, value: String, data_type: DataType) -> (k: Self)
        ensures
            k.column_name == column_name,
            k.value == value,
            k.data_type == data_type,
            !k.is_primary_key,
    {
        ShardKey { column_name, value, data_type, is_primary_key: false }
    }

    /// A shard key that says whether it is a primary key.
    pub fn with_primary_key(
        column_name: String,
        value: String,
        data_type: DataType,
        is_primary_key: bool,
    ) -> (k: Self)
        ensures
            k.column_name == column_name,
            k.value == value,
            k.data_type == data_type,
            k.is_primary_key == is_primary_key,
    {
        ShardKey { column_name, value, data_type, is_primary_key }
    }

    /// A hash of the value: 0 for the empty value, else the low 32 bits of
    /// what the standard hasher makes of it.
    pub fn calculate_hash(&self) -> (hash: u32)
        ensures
            hash == text_hash(self.value@),
    {
        if self.value.as_str().is_empty() {
            return 0;
        }
        let mut hasher = DefaultHasher::new();
        feed_text(&mut hasher, self.value.as_str());
        low_half(hasher.finish())
    }

    /// The shard of the value among `num_shards` shards: 0 for the empty
    /// value, else the hash modulo `num_shards`.
    pub fn calculate_consistent_hash(&self, num_shards: u32) -> (index: u32)
        requires
            self.value@.len() > 0 ==> num_shards > 0,
        ensures
            self.value@.len() == 0 ==> index == 0,
            self.value@.len() > 0 ==> index == text_hash(self.value@) % num_shards,
    {
        if self.value.as_str().is_empty() {
            return 0;
        }
        consistent_index(self.calculate_hash(), num_shards)
    }

    /// What a usable key satisfies: a named column and a value.
    pub open spec fn valid(&self) -> bool {
        self.column_name@.len() > 0 && self.value@.len() > 0
    }

    /// Whether the key is usable.
    pub fn is_valid(&self) -> (r: bool)
        ensures
            r == self.valid(),
    {
        !self.column_name.as_str().is_empty() && !self.value.as_str().is_empty()
    }

    /// The message for a value that is not of the kind `kind`.
    fn unreadable(&self, kind: &str) -> (r: Result<ParsedValue, String>)
        ensures
            r matches Err(message) && message@ == unreadable_message(self.value@, kind@),
    {
        let mut message = String::from_str("Cannot parse '");
        message.append(self.value.as_str());
        message.append("' as ");
        message.append(kind);
        proof {
            assert(message@ =~= unreadable_message(self.value@, kind@));
        }
        Err(message)
    }

    /// Whether `r` is the value read by the declared type. `number` is the
    /// bits of the 64-bit float that the value writes, `None` where it
    /// writes none. A text and a date are taken as they are.
    pub open spec fn reads_as(&self, number: Option<u64>, r: Result<ParsedValue, String>) -> bool {
        match self.data_type {
            DataType::String | DataType::Date => r matches Ok(ParsedValue::String(text)) && text@
                == self.value@,
            DataType::Integer => match i32_of(self.value@) {
                Some(v) => r == Ok::<ParsedValue, String>(ParsedValue::Integer(v)),
                None => r matches Err(message) && message@ == unreadable_message(self.value@, "integer"@),
            },
            DataType::Long => match i64_of(self.value@) {
                Some(v) => r == Ok::<ParsedValue, String>(ParsedValue::Long(v)),
                None => r matches Err(message) && message@ == unreadable_message(self.value@, "long"@),
            },
            DataType::Double => match number {
                Some(bits) => r == Ok::<ParsedValue, String>(ParsedValue::Double(bits)),
                None => r matches Err(message) && message@ == unreadable_message(self.value@, "double"@),
            },
            DataType::Boolean => match bool_of(self.value@) {
                Some(b) => r == Ok::<ParsedValue, String>(ParsedValue::Boolean(b)),
                None => r matches Err(message) && message@ == unreadable_message(self.value@, "boolean"@),
            },
        }
    }

    /// Reads the value by its declared type. `number` is the bits of the
    /// 64-bit float that the value writes, `None` where it writes none; it
    /// is looked at for the type `Double` only.
    pub fn parse_value(&self, number: Option<u64>) -> (r: Result<ParsedValue, String>)
        ensures
            self.reads_as(number, r),
    {
        match self.data_type {
            DataType::String => Ok(ParsedValue::String(self.value.clone())),
            DataType::Date => Ok(ParsedValue::String(self.value.clone())),
            DataType::Integer => match parse_i64(self.value.as_str()) {
                Some(v) => if v >= -2147483648 && v <= 2147483647 {
                    Ok(ParsedValue::Integer(v as i32))
                } else {
                    self.unreadable("integer")
                },
                None => self.unreadable("integer"),
            },
            DataType::Long => match parse_i64(self.value.as_str()) {
                Some(v) => Ok(ParsedValue::Long(v)),
                None => self.unreadable("long"),
            },
            DataType::Double => match number {
                Some(bits) => Ok(ParsedValue::Double(bits)),
                None => self.unreadable("double"),
            },
            DataType::Boolean => if same_text(self.value.as_str(), "true") {
                Ok(ParsedValue::Boolean(true))
            } else if same_text(self.value.as_str(), "false") {
                Ok(ParsedValue::Boolean(false))
            } else {
                self.unreadable("boolean")
            },
        }
    }

    /// The key in words, as `to_string` writes it.
    pub open spec fn description(&self) -> Seq<char> {
        "ShardKey{column="@ + self.column_name@ + ", value="@ + self.value@ + ", type="@
            + self.data_type.word() + ", primary="@ + (if self.is_primary_key {
            "true"@
        } else {
            "false"@
        }) + "}"@
    }

    /// The key in words.
    pub fn to_string(&self) -> (s: String)
        ensures
            s@ == self.description(),
    {
        let mut s = String::from_str("ShardKey{column=");
        s.append(self.column_name.as_str());
        s.append(", value=");
        s.append(self.value.as_str());
        s.append(", type=");
        s.append(self.data_type.to_string().as_str());
        s.append(", primary=");
        if self.is_primary_key {
            s.append("true");
        } else {
            s.append("false");
        }
        s.append("}");
        s
    }
}

/// What a standard hasher has been fed once a text is hashed into it,
/// `before` being what it had been fed before: the writes that `Hash::hash`
/// of `str` makes, behind those.
pub uninterp spec fn fed_text_of(before: Seq<Seq<u8>>, text: Seq<char>) -> Seq<Seq<u8>>;

/// The hash of a value: 0 for the empty value, else the low 32 bits of
/// what a fresh standard hasher gives once the value is hashed into it.
pub open spec fn text_hash(text: Seq<char>) -> u32 {
    if text.len() == 0 {
        0
    } else {
        (DefaultHasher::spec_finish(fed_text_of(Seq::empty(), text)) % 0x1_0000_0000) as u32
    }
}

} // verus!
