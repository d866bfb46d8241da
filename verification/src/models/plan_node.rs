//! The tree of steps by which a query is carried out.

use crate::ident::{random_tag, short_tag, tag_of, TAG_LENGTH};
use crate::models::condition::Condition;
use crate::str_map::{copy_of_strings, StrMap};
use crate::text::copy_of_texts;
use vstd::prelude::*;
use vstd::string::StringExecFns;

verus! {

/// What a step does.
#[derive(Debug, Clone, Copy, PartialEq, Eq, Structural)]
pub enum NodeType {
    /// Reads a table.
    Scan,
    /// Keeps the rows that meet conditions.
    Filter,
    /// Keeps some columns.
    Project,
    /// Joins two tables.
    Join,
    /// Groups and aggregates.
    Aggregate,
}

/// One step of a plan, with the steps that feed it.
#[derive(Debug)]
pub struct PlanNode {
    pub node_id: String,
    pub node_type: NodeType,
    /// The table, for a scan or a join.
    pub table_name: Option<String>,
    /// The columns, for a scan or a projection.
    pub columns: Option<Vec<String>>,
    /// The conditions, for a filter.
    pub conditions: Option<Vec<Condition>>,
    /// The steps that feed this one.
    pub children: Vec<PlanNode>,
    /// How many rows the step is expected to give.
    pub estimated_rows: u32,
    /// The worker that carries the step out, once one is chosen.
    pub worker_id: Option<String>,
    pub metadata: StrMap<String>,
}

/// The items of a list that may be absent, or `None`.
pub open spec fn listed<T>(list: Option<Vec<T>>) -> Option<Seq<T>> {
    match list {
        Some(v) => Some(v@),
        None => None,
    }
}

/// A copy of a text that may be absent.
pub fn copy_of_name(name: &Option<String>) -> (copy: Option<String>)
    ensures
        copy == *name,
{
    match name {
        Some(text) => Some(text.clone()),
        None => None,
    }
}

/// A copy of a list of conditions.
pub fn copy_of_conditions(list: &Vec<Condition>) -> (copy: Vec<Condition>)
    ensures
        copy@ == list@,
{
    let mut copy: Vec<Condition> = Vec::new();
    let mut i: usize = 0;
    while i < list.len()
        invariant
            0 <= i <= list.len(),
            copy@ == list@.take(i as int),
        decreases list.len() - i,
    {
        copy.push(list[i].clone());
        i += 1;
    }
    copy
}

impl PlanNode {
    /// Whether the node is fresh: no children, no estimate, no worker, no notes.
    pub open spec fn is_fresh(&self) -> bool {
        &&& self.children@.len() == 0
        &&& self.estimated_rows == 0
        &&& self.worker_id is None
        &&& self.metadata@ == Map::<Seq<char>, String>::empty()
    }

    /// The expected rows of the first `n` children and all below them.
    pub open spec fn cost_of_first(&self, n: nat) -> nat
        decreases self, n,
    {
        if n == 0 || n > self.children@.len() {
            0
        } else {
            self.cost_of_first((n - 1) as nat) + self.children@[n - 1].cost()
        }
    }

    /// The expected rows of this step and of all steps below it.
    pub open spec fn cost(&self) -> nat
        decreases self, self.children@.len() + 1,
    {
        self.estimated_rows as nat + self.cost_of_first(self.children@.len())
    }

    /// The cost of the first children grows with their number and never
    /// exceeds the cost of the node.
    pub proof fn lemma_cost_of_first_grows(&self, m: nat, n: nat)
        requires
            m <= n <= self.children@.len(),
        ensures
            self.cost_of_first(m) <= self.cost_of_first(n) <= self.cost(),
        decreases n - m,
    {
        if m < n {
            self.lemma_cost_of_first_grows(m, (n - 1) as nat);
        }
        self.lemma_cost_of_first_bounded(n);
    }

    /// The cost of the first children never exceeds the cost of the node.
    pub proof fn lemma_cost_of_first_bounded(&self, n: nat)
        requires
            n <= self.children@.len(),
        ensures
            self.cost_of_first(n) <= self.cost(),
        decreases self.children@.len() - n,
    {
        if n < self.children@.len() {
            self.lemma_cost_of_first_bounded(n + 1);
        }
    }

    /// A fresh node of the given name and kind, without table, columns and
    /// conditions.
    pub fn new(node_id: String, node_type: NodeType) -> (node: Self)
        ensures
            node.node_id == node_id,
            node.node_type == node_type,
            node.table_name is None,
            node.columns is None,
            node.conditions is None,
            node.is_fresh(),
    {
        PlanNode {
            node_id,
            node_type,
            table_name: None,
            columns: None,
            conditions: None,
            children: Vec::new(),
            estimated_rows: 0,
            worker_id: None,
            metadata: StrMap::new(),
        }
    }

    /// A fresh scan of `table_name`, named `scan_` and the table.
    pub fn scan(table_name: String, columns: Option<Vec<String>>) -> (node: Self)
        ensures
            node.node_id@ == "scan_"@ + table_name@,
            node.node_type == NodeType::Scan,
            node.table_name == Some(table_name),
            node.columns == columns,
            node.conditions is None,
            node.is_fresh(),
    {
        let mut node_id = String::from_str("scan_");
        node_id.append(table_name.as_str());
        PlanNode {
            node_id,
            node_type: NodeType::Scan,
            table_name: Some(table_name),
            columns,
            conditions: None,
            children: Vec::new(),
            estimated_rows: 0,
            worker_id: None,
            metadata: StrMap::new(),
        }
    }

    /// A fresh filter by `conditions`, named `filter_` and the tag of `tag`.
    pub fn filter_tagged(conditions: Vec<Condition>, tag: &str) -> (node: Self)
        ensures
            node.node_id@ == "filter_"@ + tag_of(tag@),
            node.node_type == NodeType::Filter,
            node.table_name is None,
            node.columns is None,
            node.conditions == Some(conditions),
            node.is_fresh(),
    {
        let mut node_id = String::from_str("filter_");
        node_id.append(short_tag(tag).as_str());
        PlanNode {
            node_id,
            node_type: NodeType::Filter,
            table_name: None,
            columns: None,
            conditions: Some(conditions),
            children: Vec::new(),
            estimated_rows: 0,
            worker_id: None,
            metadata: StrMap::new(),
        }
    }

    /// A fresh filter by `conditions`, named `filter_` and a random tag.
    pub fn filter(conditions: Vec<Condition>) -> (node: Self)
        ensures
            "filter_"@.is_prefix_of(node.node_id@),
            node.node_id@.len() == "filter_"@.len() + TAG_LENGTH,
            node.node_type == NodeType::Filter,
            node.table_name is None,
            node.columns is None,
            node.conditions == Some(conditions),
            node.is_fresh(),
    {
        let tag = random_tag();
        Self::filter_tagged(conditions, tag.as_str())
    }

    /// A fresh projection on `columns`, named `project_` and the tag of `tag`.
    pub fn project_tagged(columns: Vec<String>, tag: &str) -> (node: Self)
        ensures
            node.node_id@ == "project_"@ + tag_of(tag@),
            node.node_type == NodeType::Project,
            node.table_name is None,
            node.columns == Some(columns),
            node.conditions is None,
            node.is_fresh(),
    {
        let mut node_id = String::from_str("project_");
        node_id.append(short_tag(tag).as_str());
        PlanNode {
            node_id,
            node_type: NodeType::Project,
            table_name: None,
            columns: Some(columns),
            conditions: None,
            children: Vec::new(),
            estimated_rows: 0,
            worker_id: None,
            metadata: StrMap::new(),
        }
    }

    /// A fresh projection on `columns`, named `project_` and a random tag.
    pub fn project(columns: Vec<String>) -> (node: Self)
        ensures
            "project_"@.is_prefix_of(node.node_id@),
            node.node_id@.len() == "project_"@.len() + TAG_LENGTH,
            node.node_type == NodeType::Project,
            node.table_name is None,
            node.columns == Some(columns),
            node.conditions is None,
            node.is_fresh(),
    {
        let tag = random_tag();
        Self::project_tagged(columns, tag.as_str())
    }

    /// A fresh join of two tables, named `join_` and the tag of `tag`. Its
    /// table is the two names with `_` between them.
    pub fn join_tagged(left_table: String, right_table: String, tag: &str) -> (node: Self)
        ensures
            node.node_id@ == "join_"@ + tag_of(tag@),
            node.node_type == NodeType::Join,
            node.table_name matches Some(name) && name@ == left_table@ + "_"@ + right_table@,
            node.columns is None,
            node.conditions is None,
            node.is_fresh(),
    {
        let mut node_id = String::from_str("join_");
        node_id.append(short_tag(tag).as_str());
        let mut name = left_table;
        name.append("_");
        name.append(right_table.as_str());
        PlanNode {
            node_id,
            node_type: NodeType::Join,
            table_name: Some(name),
            columns: None,
            conditions: None,
            children: Vec::new(),
            estimated_rows: 0,
            worker_id: None,
            metadata: StrMap::new(),
        }
    }

    /// A fresh join of two tables, named `join_` and a random tag.
    pub fn join(left_table: String, right_table: String) -> (node: Self)
        ensures
            "join_"@.is_prefix_of(node.node_id@),
            node.node_id@.len() == "join_"@.len() + TAG_LENGTH,
            node.node_type == NodeType::Join,
            node.table_name matches Some(name) && name@ == left_table@ + "_"@ + right_table@,
            node.columns is None,
            node.conditions is None,
            node.is_fresh(),
    {
        let tag = random_tag();
        Self::join_tagged(left_table, right_table, tag.as_str())
    }

    /// Whether `self` and `other` agree in everything but the children.
    pub open spec fn same_step(&self, other: &PlanNode) -> bool {
        &&& self.node_id == other.node_id
        &&& self.node_type == other.node_type
        &&& self.table_name == other.table_name
        &&& self.columns == other.columns
        &&& self.conditions == other.conditions
        &&& self.estimated_rows == other.estimated_rows
        &&& self.worker_id == other.worker_id
        &&& self.metadata == other.metadata
    }

    /// Adds a step that feeds this one, behind those that are there.
    pub fn add_child(&mut self, child: PlanNode)
        ensures
            final(self).children@ == old(self).children@.push(child),
            final(self).same_step(old(self)),
    {
        self.children.push(child);
    }

    /// Records the worker that carries the step out.
    pub fn set_worker_id(&mut self, worker_id: String)
        ensures
            final(self).worker_id == Some(worker_id),
            final(self).node_id == old(self).node_id,
            final(self).node_type == old(self).node_type,
            final(self).table_name == old(self).table_name,
            final(self).columns == old(self).columns,
            final(self).conditions == old(self).conditions,
            final(self).children == old(self).children,
            final(self).estimated_rows == old(self).estimated_rows,
            final(self).metadata == old(self).metadata,
    {
        self.worker_id = Some(worker_id);
    }

    /// Sets how many rows the step is expected to give.
    pub fn set_estimated_rows(&mut self, rows: u32)
        ensures
            final(self).estimated_rows == rows,
            final(self).node_id == old(self).node_id,
            final(self).node_type == old(self).node_type,
            final(self).table_name == old(self).table_name,
            final(self).columns == old(self).columns,
            final(self).conditions == old(self).conditions,
            final(self).children == old(self).children,
            final(self).worker_id == old(self).worker_id,
            final(self).metadata == old(self).metadata,
    {
        self.estimated_rows = rows;
    }

    /// Whether no step feeds this one.
    pub fn is_leaf(&self) -> (r: bool)
        ensures
            r == (self.children@.len() == 0),
    {
        self.children.len() == 0
    }

    /// The expected rows of this step and of all steps below it.
    pub fn estimated_cost(&self) -> (total: u32)
        requires
            self.cost() <= u32::MAX,
        ensures
            total == self.cost(),
        decreases self,
    {
        let mut total: u32 = self.estimated_rows;
        let mut i: usize = 0;
        while i < self.children.len()
            invariant
                0 <= i <= self.children@.len(),
                total == self.estimated_rows + self.cost_of_first(i as nat),
                self.cost() <= u32::MAX,
            decreases self.children@.len() - i,
        {
            proof {
                self.lemma_cost_of_first_grows((i + 1) as nat, self.children@.len());
            }
            let below = self.children[i].estimated_cost();
            total = total + below;
            i += 1;
        }
        total
    }

    /// Whether `copy` is this node under the name `node_id`, with
    /// `children` in place of its children.
    pub open spec fn copied_as(&self, copy: &PlanNode, node_id: Seq<char>, children: Seq<PlanNode>) -> bool {
        &&& copy.node_id@ == node_id
        &&& copy.children@ == children
        &&& copy.node_type == self.node_type
        &&& copy.table_name == self.table_name
        &&& listed(copy.columns) == listed(self.columns)
        &&& listed(copy.conditions) == listed(self.conditions)
        &&& copy.estimated_rows == self.estimated_rows
        &&& copy.worker_id == self.worker_id
        &&& copy.metadata@ == self.metadata@
    }

    /// Whether `copy` is this tree with every node renamed: each name is
    /// the old one, then `_`, then eight more characters.
    pub open spec fn renamed_as(&self, copy: &PlanNode) -> bool
        decreases self,
    {
        &&& self.copied_as(copy, copy.node_id@, copy.children@)
        &&& (self.node_id@ + "_"@).is_prefix_of(copy.node_id@)
        &&& copy.node_id@.len() == self.node_id@.len() + 1 + TAG_LENGTH
        &&& copy.children@.len() == self.children@.len()
        &&& forall|i: int|
            0 <= i < self.children@.len() ==> (#[trigger] self.children@[i]).renamed_as(&copy.children@[i])
    }

    /// A copy of this node with `children` in place of its children, named
    /// with the old name, `_` and the tag of `tag`.
    pub fn renamed_with(&self, tag: &str, children: Vec<PlanNode>) -> (copy: Self)
        ensures
            self.copied_as(&copy, self.node_id@ + "_"@ + tag_of(tag@), children@),
    {
        let mut node_id = self.node_id.clone();
        node_id.append("_");
        node_id.append(short_tag(tag).as_str());
        let columns = match &self.columns {
            Some(list) => Some(copy_of_texts(list)),
            None => None,
        };
        let conditions = match &self.conditions {
            Some(list) => Some(copy_of_conditions(list)),
            None => None,
        };
        PlanNode {
            node_id,
            node_type: self.node_type,
            table_name: copy_of_name(&self.table_name),
            columns,
            conditions,
            children,
            estimated_rows: self.estimated_rows,
            worker_id: copy_of_name(&self.worker_id),
            metadata: copy_of_strings(&self.metadata),
        }
    }

    /// A copy of the tree in which every node has a new name: the old one,
    /// `_`, and a random tag.
    pub fn clone_with_new_id(&self) -> (copy: Self)
        ensures
            self.renamed_as(&copy),
        decreases self,
    {
        let mut children: Vec<PlanNode> = Vec::new();
        let mut i: usize = 0;
        while i < self.children.len()
            invariant
                0 <= i <= self.children@.len(),
                children@.len() == i,
                forall|j: int| 0 <= j < i ==> (#[trigger] self.children@[j]).renamed_as(&children@[j]),
            decreases self.children@.len() - i,
        {
            let child = self.children[i].clone_with_new_id();
            children.push(child);
            i += 1;
        }
        let tag = random_tag();
        let copy = self.renamed_with(tag.as_str(), children);
        proof {
            assert(tag_of(tag@) == tag@);
            assert((self.node_id@ + "_"@).is_prefix_of(copy.node_id@)) by {
                assert(copy.node_id@.subrange(0, (self.node_id@ + "_"@).len() as int) =~= self.node_id@ + "_"@);
            }
            reveal_strlit("_");
        }
        copy
    }
}

} // verus!
