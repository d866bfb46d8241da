//! The tables that a worker holds.

use crate::str_map::StrMap;
use crate::text::{owned_texts, slices_of, texts_of};
use vstd::prelude::*;
use vstd::string::StringExecFns;

verus! {

/// One table: its name, its column names and its rows.
#[derive(Debug, PartialEq, Eq)]
pub struct Table {
    pub name: String,
    pub columns: Vec<String>,
    pub rows: Vec<Vec<String>>,
}

/// The tables of one worker, by name.
#[derive(Debug)]
pub struct DataStore {
    tables: StrMap<Table>,
}

/// The number of rows of all of `tables` together.
pub open spec fn rows_in(tables: Seq<Table>) -> nat
    decreases tables.len(),
{
    if tables.len() == 0 {
        0
    } else {
        rows_in(tables.drop_last()) + tables.last().rows@.len()
    }
}

/// The rows of `tables` never number less than those of its first few.
pub proof fn lemma_rows_in_grows(tables: Seq<Table>, n: int)
    requires
        0 <= n <= tables.len(),
    ensures
        rows_in(tables.take(n)) <= rows_in(tables),
    decreases tables.len() - n,
{
    if n < tables.len() {
        lemma_rows_in_grows(tables, n + 1);
        assert(tables.take(n + 1).drop_last() =~= tables.take(n));
    } else {
        assert(tables.take(n) =~= tables);
    }
}

/// The texts of the rows of a table.
pub open spec fn cells(rows: Seq<Vec<String>>) -> Seq<Seq<Seq<char>>> {
    Seq::new(rows.len(), |i: int| texts_of(rows[i]@))
}

/// Whether `t` is the table of this name, these columns and these rows.
pub open spec fn is_table(t: Table, name: Seq<char>, columns: Seq<Seq<char>>, rows: Seq<Seq<Seq<char>>>) -> bool {
    &&& t.name@ == name
    &&& texts_of(t.columns@) == columns
    &&& cells(t.rows@) == rows
}

/// The sample table of users.
pub open spec fn sample_users(t: Table) -> bool {
    is_table(
        t,
        "users"@,
        seq!["id"@, "name"@, "age"@, "email"@],
        seq![
            seq!["1"@, "John Doe"@, "30"@, "john@example.com"@],
            seq!["2"@, "Jane Smith"@, "25"@, "jane@example.com"@],
            seq!["3"@, "Bob Johnson"@, "35"@, "bob@example.com"@],
        ],
    )
}

/// The sample table of orders.
pub open spec fn sample_orders(t: Table) -> bool {
    is_table(
        t,
        "orders"@,
        seq!["id"@, "user_id"@, "product"@, "amount"@, "date"@],
        seq![
            seq!["1"@, "1"@, "Laptop"@, "999.99"@, "2024-01-15"@],
            seq!["2"@, "2"@, "Mouse"@, "29.99"@, "2024-01-16"@],
            seq!["3"@, "1"@, "Keyboard"@, "79.99"@, "2024-01-17"@],
        ],
    )
}

/// The sample table of products.
pub open spec fn sample_products(t: Table) -> bool {
    is_table(
        t,
        "products"@,
        seq!["id"@, "name"@, "price"@, "category"@],
        seq![
            seq!["1"@, "Laptop"@, "999.99"@, "Electronics"@],
            seq!["2"@, "Mouse"@, "29.99"@, "Accessories"@],
            seq!["3"@, "Keyboard"@, "79.99"@, "Accessories"@],
        ],
    )
}

/// Putting another table in the place of one changes the number of rows
/// by the difference of the two.
pub proof fn lemma_rows_in_update(tables: Seq<Table>, i: int, table: Table)
    requires
        0 <= i < tables.len(),
    ensures
        rows_in(tables.update(i, table)) == rows_in(tables) - tables[i].rows@.len() + table.rows@.len(),
    decreases tables.len(),
{
    let changed = tables.update(i, table);
    if i == tables.len() - 1 {
        assert(changed.drop_last() =~= tables.drop_last());
    } else {
        lemma_rows_in_update(tables.drop_last(), i, table);
        assert(changed.drop_last() =~= tables.drop_last().update(i, table));
    }
}

impl Table {
    /// A table of three rows.
    fn of_three(name: &str, columns: &[&str], first: &[&str], second: &[&str], third: &[&str]) -> (t: Self)
        ensures
            is_table(
                t,
                name@,
                slices_of(columns@),
                seq![slices_of(first@), slices_of(second@), slices_of(third@)],
            ),
    {
        let mut rows: Vec<Vec<String>> = Vec::new();
        rows.push(owned_texts(first));
        rows.push(owned_texts(second));
        rows.push(owned_texts(third));
        proof {
            assert(cells(rows@) =~= seq![slices_of(first@), slices_of(second@), slices_of(third@)]);
        }
        Table { name: String::from_str(name), columns: owned_texts(columns), rows }
    }
}

impl DataStore {
    /// The tables by name.
    pub closed spec fn view(&self) -> Map<Seq<char>, Table> {
        self.tables@
    }

    /// The tables in the order in which their names first arrived.
    pub closed spec fn table_seq(&self) -> Seq<Table> {
        self.tables.value_seq()
    }

    /// The names of the tables, in the order in which they first arrived.
    pub closed spec fn name_seq(&self) -> Seq<Seq<char>> {
        self.tables.key_seq()
    }

    /// Whether the store holds the three sample tables and no others.
    pub open spec fn holds_samples(&self) -> bool {
        let store = *self;
        &&& store@.dom() =~= set!["users"@, "orders"@, "products"@]
        &&& sample_users(store@["users"@])
        &&& sample_orders(store@["orders"@])
        &&& sample_products(store@["products"@])
        &&& store.name_seq() == seq!["users"@, "orders"@, "products"@]
        &&& rows_in(store.table_seq()) == 9
    }

    /// A store with the three sample tables `users`, `orders` and
    /// `products`, of three rows each.
    pub fn new() -> (store: Self)
        ensures
            store.holds_samples(),
    {
        proof {
            reveal_strlit("users");
            reveal_strlit("orders");
            reveal_strlit("products");
        }
        let mut tables: StrMap<Table> = StrMap::new();
        let users = Table::of_three(
            "users",
            &["id", "name", "age", "email"],
            &["1", "John Doe", "30", "john@example.com"],
            &["2", "Jane Smith", "25", "jane@example.com"],
            &["3", "Bob Johnson", "35", "bob@example.com"],
        );
        let orders = Table::of_three(
            "orders",
            &["id", "user_id", "product", "amount", "date"],
            &["1", "1", "Laptop", "999.99", "2024-01-15"],
            &["2", "2", "Mouse", "29.99", "2024-01-16"],
            &["3", "1", "Keyboard", "79.99", "2024-01-17"],
        );
        let products = Table::of_three(
            "products",
            &["id", "name", "price", "category"],
            &["1", "Laptop", "999.99", "Electronics"],
            &["2", "Mouse", "29.99", "Accessories"],
            &["3", "Keyboard", "79.99", "Accessories"],
        );
        proof {
            assert(texts_of(users.columns@) =~= seq!["id"@, "name"@, "age"@, "email"@]);
            assert(cells(users.rows@)[0] =~= seq!["1"@, "John Doe"@, "30"@, "john@example.com"@]);
            assert(cells(users.rows@)[1] =~= seq!["2"@, "Jane Smith"@, "25"@, "jane@example.com"@]);
            assert(cells(users.rows@)[2] =~= seq!["3"@, "Bob Johnson"@, "35"@, "bob@example.com"@]);
            assert(sample_users(users));
            assert(texts_of(orders.columns@) =~= seq!["id"@, "user_id"@, "product"@, "amount"@, "date"@]);
            assert(cells(orders.rows@)[0] =~= seq!["1"@, "1"@, "Laptop"@, "999.99"@, "2024-01-15"@]);
            assert(cells(orders.rows@)[1] =~= seq!["2"@, "2"@, "Mouse"@, "29.99"@, "2024-01-16"@]);
            assert(cells(orders.rows@)[2] =~= seq!["3"@, "1"@, "Keyboard"@, "79.99"@, "2024-01-17"@]);
            assert(sample_orders(orders));
            assert(texts_of(products.columns@) =~= seq!["id"@, "name"@, "price"@, "category"@]);
            assert(cells(products.rows@)[0] =~= seq!["1"@, "Laptop"@, "999.99"@, "Electronics"@]);
            assert(cells(products.rows@)[1] =~= seq!["2"@, "Mouse"@, "29.99"@, "Accessories"@]);
            assert(cells(products.rows@)[2] =~= seq!["3"@, "Keyboard"@, "79.99"@, "Accessories"@]);
            assert(sample_products(products));
            assert(cells(users.rows@).len() == 3);
            assert(cells(orders.rows@).len() == 3);
            assert(cells(products.rows@).len() == 3);
        }
        proof {
            assert("users"@.len() == 5);
            assert("orders"@.len() == 6);
            assert("products"@.len() == 8);
        }
        tables.insert(String::from_str("users"), users);
        assert(tables.value_seq() == Seq::<Table>::empty().push(users));
        tables.insert(String::from_str("orders"), orders);
        assert(tables.value_seq() == Seq::<Table>::empty().push(users).push(orders));
        tables.insert(String::from_str("products"), products);
        proof {
            let all = tables.value_seq();
            assert(all == Seq::<Table>::empty().push(users).push(orders).push(products));
            assert(all.len() == 3);
            assert(all.drop_last() =~= Seq::<Table>::empty().push(users).push(orders));
            assert(all.drop_last().drop_last() =~= Seq::<Table>::empty().push(users));
            assert(all.drop_last().drop_last().drop_last() =~= Seq::<Table>::empty());
            assert(rows_in(all.drop_last().drop_last().drop_last()) == 0);
            assert(rows_in(all.drop_last().drop_last()) == 3);
            assert(rows_in(all.drop_last()) == 6);
        }
        let store = DataStore { tables };
        proof {
            assert(store@.dom() =~= set!["users"@, "orders"@, "products"@]);
            assert(store.name_seq() =~= seq!["users"@, "orders"@, "products"@]);
        }
        store
    }

    /// The table named `table_name`, if the store holds one.
    pub fn get_table(&self, table_name: &str) -> (r: Option<&Table>)
        ensures
            match r {
                Some(t) => self@.contains_key(table_name@) && *t == self@[table_name@],
                None => !self@.contains_key(table_name@),
            },
    {
        self.tables.get(table_name)
    }

    /// All tables, in the order in which their names first arrived.
    pub fn get_all_tables(&self) -> (all: Vec<&Table>)
        ensures
            all@.len() == self.table_seq().len(),
            forall|i: int| 0 <= i < all@.len() ==> *(#[trigger] all@[i]) == self.table_seq()[i],
    {
        let n = self.tables.len();
        let mut all: Vec<&Table> = Vec::new();
        let mut i: usize = 0;
        while i < n
            invariant
                0 <= i <= n,
                n == self.tables.key_seq().len(),
                self.tables.well_formed(),
                all@.len() == i,
                forall|j: int| 0 <= j < i ==> *(#[trigger] all@[j]) == self.tables.value_seq()[j],
            decreases n - i,
        {
            all.push(self.tables.value_at(i));
            i += 1;
        }
        all
    }

    /// The number of tables.
    pub fn get_table_count(&self) -> (n: usize)
        ensures
            n == self@.len(),
            n == self.table_seq().len(),
            self@.dom().finite(),
    {
        self.tables.len()
    }

    /// The number of rows of all tables together.
    pub fn get_total_rows(&self) -> (total: usize)
        requires
            rows_in(self.table_seq()) <= usize::MAX,
        ensures
            total == rows_in(self.table_seq()),
    {
        let n = self.tables.len();
        let ghost all = self.tables.value_seq();
        let mut total: usize = 0;
        let mut i: usize = 0;
        while i < n
            invariant
                0 <= i <= n,
                n == self.tables.key_seq().len(),
                self.tables.well_formed(),
                all == self.tables.value_seq(),
                rows_in(all) <= usize::MAX,
                total == rows_in(all.take(i as int)),
            decreases n - i,
        {
            proof {
                lemma_rows_in_grows(all, i + 1);
                assert(all.take(i + 1).drop_last() =~= all.take(i as int));
            }
            total = total + self.tables.value_at(i).rows.len();
            i += 1;
        }
        proof {
            assert(all.take(n as int) =~= all);
        }
        total
    }

    /// Stores `table` under its name, in place of any table of that name.
    pub fn add_table(&mut self, table: Table)
        ensures
            final(self)@ == old(self)@.insert(table.name@, table),
            old(self)@.contains_key(table.name@) ==> {
                &&& final(self).name_seq() == old(self).name_seq()
                &&& final(self).table_seq() == old(self).table_seq().update(
                    old(self).name_seq().index_of(table.name@),
                    table,
                )
                &&& rows_in(final(self).table_seq()) == rows_in(old(self).table_seq()) - old(
                    self,
                )@[table.name@].rows@.len() + table.rows@.len()
            },
            !old(self)@.contains_key(table.name@) ==> {
                &&& final(self).name_seq() == old(self).name_seq().push(table.name@)
                &&& final(self).table_seq() == old(self).table_seq().push(table)
                &&& rows_in(final(self).table_seq()) == rows_in(old(self).table_seq()) + table.rows@.len()
            },
    {
        let name = table.name.clone();
        let ghost names = self.tables.key_seq();
        let ghost tables = self.tables.value_seq();
        self.tables.insert(name, table);
        proof {
            if names.contains(table.name@) {
                let i = names.index_of(table.name@);
                crate::str_map::lemma_paired_at(names, tables, i);
                lemma_rows_in_update(tables, i, table);
            } else {
                assert(tables.push(table).drop_last() =~= tables);
            }
        }
    }

    /// The names of the tables, in the order in which they first arrived.
    pub fn get_table_names(&self) -> (names: Vec<String>)
        ensures
            texts_of(names@) == self.name_seq(),
    {
        let n = self.tables.len();
        let mut names: Vec<String> = Vec::new();
        let mut i: usize = 0;
        while i < n
            invariant
                0 <= i <= n,
                n == self.tables.key_seq().len(),
                names@.len() == i,
                forall|j: int| 0 <= j < i ==> (#[trigger] names@[j])@ == self.tables.key_seq()[j],
            decreases n - i,
        {
            names.push(self.tables.key_at(i).clone());
            i += 1;
        }
        proof {
            assert(texts_of(names@) =~= self.tables.key_seq());
        }
        names
    }
}

} // verus!
