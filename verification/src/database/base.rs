use vstd::prelude::*;

verus! {

/// One page of a paginated query result, together with the total
/// number of matching documents.
#[derive(Debug)]
pub struct Collection<T> {
    pub items: Vec<T>,
    pub total: i64,
}

/// Page size used when a query does not name one.
pub fn default_page_size() -> (r: i64)
    ensures
        r == 20,
{
    20
}

/// Page number used when a query does not name one.
pub fn default_page() -> (r: i64)
    ensures
        r == 1,
{
    1
}

/// How a paginated query walks its collection: how many documents to
/// skip and how many to take.
pub trait IPaginator {
    fn skip(&self) -> u64;

    fn limit(&self) -> i64;
}

/// Which integer width an aggregation row carries its count in.
pub enum NumberItemValueType {
    I64,
    I32,
}

/// One named count out of an aggregation: the group name doubles as
/// the identifier.
#[derive(Debug)]
pub struct NumberItem {
    pub id: Option<String>,
    pub name: String,
    pub value: i64,
}

impl NumberItem {
    /// An item from its parts.
    pub fn new(name: String, value: i64, id: Option<String>) -> (r: Self)
        ensures
            r.name@ == name@,
            r.value == value,
            r.id == id,
    {
        NumberItem { name, value, id }
    }

    /// One item per aggregation row `(name, count)`, the name serving
    /// as both name and identifier.
    pub fn vec_from_rows(rows: &Vec<(String, i64)>) -> (r: Vec<NumberItem>)
        ensures
            r@.len() == rows@.len(),
            forall|i: int|
                0 <= i < r@.len() ==> (#[trigger] r@[i]).name@ == rows@[i].0@ && r@[i].value
                    == rows@[i].1 && (r@[i].id matches Some(s) && s@ == rows@[i].0@),
    {
        let mut r: Vec<NumberItem> = Vec::new();
        let mut i: usize = 0;
        while i < rows.len()
            invariant
                0 <= i <= rows@.len(),
                r@.len() == i,
                forall|k: int|
                    0 <= k < i ==> (#[trigger] r@[k]).name@ == rows@[k].0@ && r@[k].value
                        == rows@[k].1 && (r@[k].id matches Some(s) && s@ == rows@[k].0@),
            decreases rows@.len() - i,
        {
            let name: String = rows[i].0.clone();
            let id: String = rows[i].0.clone();
            r.push(NumberItem::new(name, rows[i].1, Some(id)));
            i = i + 1;
        }
        r
    }
}

} // verus!
