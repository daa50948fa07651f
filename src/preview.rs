//! The first rows of a table file, as shown to the user.
use vstd::prelude::*;

verus! {

/// A table's header and its first rows.
pub struct CsvPreview {
    pub headers: Vec<String>,
    pub rows: Vec<Vec<String>>,
}

/// The rows among the first `n` records that could be read; `None` stands
/// for a record that could not.
pub open spec fn readable_rows(records: Seq<Option<Vec<String>>>, n: nat) -> Seq<Vec<String>>
    decreases n,
{
    if n == 0 || records.len() == 0 {
        Seq::empty()
    } else if n > records.len() {
        readable_rows(records, records.len())
    } else {
        let before = readable_rows(records, (n - 1) as nat);
        match records[n - 1] {
            Some(row) => before.push(row),
            None => before,
        }
    }
}

/// The rows of a preview: of the first `max_rows` records, those that could
/// be read.
pub fn preview_rows(records: Vec<Option<Vec<String>>>, max_rows: usize) -> (r: Vec<Vec<String>>)
    ensures
        r@ == readable_rows(records@, max_rows as nat),
{
    let n = if max_rows < records.len() {
        max_rows
    } else {
        records.len()
    };
    let mut out: Vec<Vec<String>> = Vec::new();
    let mut i: usize = 0;
    let mut rest = records;
    let ghost all = rest@;
    while i < n
        invariant
            n <= all.len(),
            i <= n,
            rest@ == all.subrange(i as int, all.len() as int),
            out@ == readable_rows(all, i as nat),
        decreases n - i,
    {
        let first = rest.remove(0);
        assert(first == all[i as int]);
        match first {
            Some(row) => {
                out.push(row);
            },
            None => {},
        }
        assert(rest@ =~= all.subrange(i + 1, all.len() as int));
        i = i + 1;
    }
    proof {
        if max_rows > all.len() && all.len() > 0 {
            assert(readable_rows(all, max_rows as nat) == readable_rows(all, all.len()));
        }
    }
    out
}

} // verus!
