//! State of the result table widget: layout kind, headers, row count and
//! the set of selected rows. The drawing itself belongs to the host UI;
//! what is verified here is the state the widget keeps between frames and
//! the text it derives for a row.

use vstd::prelude::*;

use vstd::string::StringExecFns;

verus! {

/// How the table lays its rows out.
#[derive(Clone, Copy, PartialEq, Eq, Structural, Debug)]
pub enum TableType {
    Manual,
    Homogeneous,
    Heterogenous,
}

/// No row index occurs twice in a selection.
pub open spec fn unique_rows(s: Seq<usize>) -> bool {
    forall|a: int, b: int| #![trigger s[a], s[b]] 0 <= a < b < s.len() ==> s[a] != s[b]
}

/// The state of one result table.
pub struct Table {
    pub table_type: TableType,
    pub headers: Vec<String>,
    pub striped: bool,
    pub resizable: bool,
    pub clickable: bool,
    pub num_rows: usize,
    pub scroll_to_row_slider: usize,
    pub scroll_to_row: Option<usize>,
    pub selection: Vec<usize>,
    pub checked: bool,
}

impl Table {
    /// A selection never lists a row twice.
    pub open spec fn wf(self) -> bool {
        unique_rows(self.selection@)
    }

    /// A fresh table: manual layout, striped, resizable and clickable,
    /// with no rows, no headers and nothing selected.
    pub fn new() -> (t: Table)
        ensures
            t.wf(),
            t.table_type == TableType::Manual,
            t.headers@.len() == 0,
            t.striped,
            t.resizable,
            t.clickable,
            t.num_rows == 0,
            t.scroll_to_row_slider == 0,
            t.scroll_to_row is None,
            t.selection@.len() == 0,
            !t.checked,
    {
        Table {
            table_type: TableType::Manual,
            headers: Vec::new(),
            striped: true,
            resizable: true,
            clickable: true,
            num_rows: 0,
            scroll_to_row_slider: 0,
            scroll_to_row: Option::None,
            selection: Vec::new(),
            checked: false,
        }
    }

    /// Appends a column header; an empty name is ignored.
    pub fn add_header(&mut self, name: String)
        requires
            old(self).wf(),
        ensures
            final(self).wf(),
            name@.len() > 0 ==> final(self).headers@ == old(self).headers@.push(name),
            name@.len() == 0 ==> final(self).headers@ == old(self).headers@,
            final(self).selection@ == old(self).selection@,
    {
        if !name.as_str().is_empty() {
            self.headers.push(name);
        }
    }

    /// Flips whether a clicked row is selected: a selected row leaves the
    /// selection, an unselected one joins it. Without a click nothing
    /// changes.
    pub fn toggle_row_selection(&mut self, row_index: usize, clicked: bool)
        requires
            old(self).wf(),
        ensures
            final(self).wf(),
            final(self).headers@ == old(self).headers@,
            !clicked ==> final(self).selection@ == old(self).selection@,
            clicked ==> (forall|r: usize|
                #![trigger final(self).selection@.contains(r)]
                #![trigger old(self).selection@.contains(r)]
                final(self).selection@.contains(r) <==> (if r == row_index {
                    !old(self).selection@.contains(r)
                } else {
                    old(self).selection@.contains(r)
                })),
    {
        if !clicked {
            return ;
        }
        let n: usize = self.selection.len();
        let mut kept: Vec<usize> = Vec::new();
        let mut found: bool = false;
        let mut i: usize = 0;
        while i < n
            invariant
                0 <= i <= n,
                n == self.selection@.len(),
                unique_rows(self.selection@),
                self.selection@ == old(self).selection@,
                unique_rows(kept@),
                forall|k: int|
                    0 <= k < kept@.len() ==> exists|j: int|
                        0 <= j < i && self.selection@[j] == #[trigger] kept@[k],
                forall|r: usize| #[trigger] kept@.contains(r) ==> r != row_index,
                forall|r: usize|
                    #![trigger kept@.contains(r)]
                    kept@.contains(r) <==> (self.selection@.subrange(0, i as int).contains(r) && r
                        != row_index),
                found <==> self.selection@.subrange(0, i as int).contains(row_index),
            decreases n - i,
        {
            let r = self.selection[i];
            let ghost kept_pre = kept@;
            if r != row_index {
                kept.push(r);
                proof {
                    assert forall|a: int, b: int|
                        #![trigger kept@[a], kept@[b]]
                        0 <= a < b < kept@.len() implies kept@[a] != kept@[b] by {
                        if b == kept@.len() - 1 {
                            assert(kept@[a] == kept_pre[a]);
                            let j = choose|j: int|
                                0 <= j < i && self.selection@[j] == kept_pre[a];
                            assert(self.selection@[j] != self.selection@[i as int]);
                        }
                    }
                }
            } else {
                found = true;
            }
            proof {
                broadcast use vstd::seq_lib::lemma_seq_contains_after_push;

                assert(self.selection@.subrange(0, (i + 1) as int) =~= self.selection@.subrange(
                    0,
                    i as int,
                ).push(self.selection@[i as int]));
            }
            i += 1;
        }
        proof {
            assert(self.selection@.subrange(0, n as int) =~= self.selection@);
        }
        if !found {
            let ghost kept_pre = kept@;
            kept.push(row_index);
            proof {
                broadcast use vstd::seq_lib::lemma_seq_contains_after_push;

                assert forall|a: int, b: int|
                    #![trigger kept@[a], kept@[b]]
                    0 <= a < b < kept@.len() implies kept@[a] != kept@[b] by {
                    if b == kept@.len() - 1 {
                        assert(kept@[a] == kept_pre[a]);
                        assert(kept_pre.contains(kept_pre[a]));
                    }
                }
            }
        }
        self.selection = kept;
    }
}

/// The character for one decimal digit.
pub open spec fn spec_digit_char(d: int) -> char {
    if d == 0 {
        '0'
    } else if d == 1 {
        '1'
    } else if d == 2 {
        '2'
    } else if d == 3 {
        '3'
    } else if d == 4 {
        '4'
    } else if d == 5 {
        '5'
    } else if d == 6 {
        '6'
    } else if d == 7 {
        '7'
    } else if d == 8 {
        '8'
    } else {
        '9'
    }
}

/// The decimal rendering of a number, most significant digit first.
pub open spec fn spec_decimal(n: nat) -> Seq<char>
    decreases n,
{
    if n < 10 {
        seq![spec_digit_char(n as int)]
    } else {
        spec_decimal(n / 10).push(spec_digit_char((n % 10) as int))
    }
}

/// One decimal digit as text.
fn digit_str(d: u64) -> (r: &'static str)
    requires
        d < 10,
    ensures
        r@ == seq![spec_digit_char(d as int)],
{
    proof {
        reveal_strlit("0");
        reveal_strlit("1");
        reveal_strlit("2");
        reveal_strlit("3");
        reveal_strlit("4");
        reveal_strlit("5");
        reveal_strlit("6");
        reveal_strlit("7");
        reveal_strlit("8");
        reveal_strlit("9");
    }
    let r: &'static str = if d == 0 {
        "0"
    } else if d == 1 {
        "1"
    } else if d == 2 {
        "2"
    } else if d == 3 {
        "3"
    } else if d == 4 {
        "4"
    } else if d == 5 {
        "5"
    } else if d == 6 {
        "6"
    } else if d == 7 {
        "7"
    } else if d == 8 {
        "8"
    } else {
        "9"
    };
    proof {
        assert(r@ =~= seq![spec_digit_char(d as int)]);
    }
    r
}

/// Renders a number in decimal.
pub fn decimal_string(n: u64) -> (s: String)
    ensures
        s@ == spec_decimal(n as nat),
    decreases n,
{
    if n < 10 {
        String::from_str(digit_str(n))
    } else {
        let mut s = decimal_string(n / 10);
        s.append(digit_str(n % 10));
        proof {
            assert(s@ =~= spec_decimal((n / 10) as nat).push(spec_digit_char((n % 10) as int)));
        }
        s
    }
}

/// The filler text of one table row, carrying its row number.
pub fn long_text(row_index: u64) -> (s: String)
    ensures
        s@ == "Row "@ + spec_decimal(row_index as nat)
            + " has some long text that you may want to clip, or it will take up too much horizontal space!"@,
{
    let mut s = String::from_str("Row ");
    let num = decimal_string(row_index);
    s.append(num.as_str());
    s.append(" has some long text that you may want to clip, or it will take up too much horizontal space!");
    proof {
        assert(s@ =~= "Row "@ + spec_decimal(row_index as nat)
            + " has some long text that you may want to clip, or it will take up too much horizontal space!"@);
    }
    s
}

/// Whether a row is drawn with the thick height: every sixth row is.
pub fn thick_row(row_index: u64) -> (r: bool)
    ensures
        r == (row_index % 6 == 0),
{
    row_index % 6 == 0
}

} // verus!
