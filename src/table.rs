use vstd::prelude::*;

verus! {

/// The tables that the screens draw.
pub enum TableId {
    TickerDetail,
    TickerList,
    RecentlySearched,
}

/// A column of a table.
#[derive(Debug, Clone, Copy, PartialEq, Eq, Structural)]
pub enum ColumnId {
    NoColumn,
    Symbol,
    SecurityType,
}

impl Default for ColumnId {
    fn default() -> (r: ColumnId)
        ensures
            r == ColumnId::NoColumn,
    {
        ColumnId::NoColumn
    }
}

/// A table's header: its columns in order.
pub struct TableHeader<'a> {
    pub id: TableId,
    pub items: Vec<TableHeaderItem<'a>>,
}

impl TableHeader<'_> {
    /// The position of the first column with the given id.
    pub fn get_index(&self, id: ColumnId) -> (r: Option<usize>)
        ensures
            r matches Some(i) ==> i < self.items@.len() && self.items@[i as int].id == id
                && forall|j: int| 0 <= j < i ==> self.items@[j].id != id,
            r is None ==> forall|j: int| 0 <= j < self.items@.len() ==> self.items@[j].id != id,
    {
        let mut i: usize = 0;
        while i < self.items.len()
            invariant
                i <= self.items@.len(),
                forall|j: int| 0 <= j < i ==> self.items@[j].id != id,
            decreases self.items@.len() - i,
        {
            if self.items[i].id == id {
                return Some(i);
            }
            i = i + 1;
        }
        None
    }
}

/// A column heading: which column, its title and its width in cells.
#[derive(Default)]
pub struct TableHeaderItem<'a> {
    pub id: ColumnId,
    pub text: &'a str,
    pub width: u16,
}

/// A row: its id and its cells.
pub struct TableItem {
    pub id: String,
    pub data: Vec<String>,
}

} // verus!
