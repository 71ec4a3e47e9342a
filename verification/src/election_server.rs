//! Reading the AEC media feed server's directory listings.
use crate::text::{chars_of, push_char};
use vstd::prelude::*;

verus! {

/// The media feed archive server.
pub const AEC_SERVER: &'static str = "mediafeedarchive.aec.gov.au:21";

/// What follows the last space of a text: the whole text when it has no
/// space.
pub open spec fn after_last_space(s: Seq<char>) -> Seq<char>
    decreases s.len(),
{
    if s.len() == 0 {
        s
    } else if s.last() == ' ' {
        Seq::empty()
    } else {
        after_last_space(s.drop_last()).push(s.last())
    }
}

/// A listing row's entry name is the row's last field: it ends the row,
/// holds no space, and is the whole row when the row has no space.
pub proof fn law_listing_name_is_last_field(row: Seq<char>)
    ensures
        after_last_space(row).len() <= row.len(),
        after_last_space(row) == row.skip(row.len() - after_last_space(row).len()),
        !after_last_space(row).contains(' '),
        !row.contains(' ') ==> after_last_space(row) == row,
        row.len() > after_last_space(row).len() ==> row[row.len() - after_last_space(row).len() - 1] == ' ',
    decreases row.len(),
{
    if row.len() > 0 {
        let init = row.drop_last();
        law_listing_name_is_last_field(init);
        assert(init =~= row.take(row.len() - 1));
        if row.last() != ' ' {
            let a = after_last_space(init);
            assert(a.push(row.last()) =~= row.skip(row.len() - a.len() - 1));
            if !row.contains(' ') {
                assert forall|k: int| 0 <= k < init.len() implies init[k] != ' ' by {
                    assert(row[k] == init[k]);
                }
            }
            if row.len() > a.len() + 1 {
                assert(row[row.len() - a.len() - 2] == init[init.len() - a.len() - 1]);
            }
        } else {
            assert(row.skip(row.len() as int) =~= Seq::<char>::empty());
        }
    } else {
        assert(row.skip(0) =~= row);
    }
}

/// The entry name of a listing row, its last space-separated field.
pub fn listing_name(row: &str) -> (r: String)
    ensures
        r@ == after_last_space(row@),
{
    let cs = chars_of(row);
    let mut out = String::new();
    let n = cs.len();
    let mut i: usize = 0;
    while i < n
        invariant
            n == cs@.len(),
            cs@ == row@,
            i <= n,
            out@ == after_last_space(cs@.take(i as int)),
        decreases n - i,
    {
        proof {
            assert(cs@.take(i + 1).drop_last() =~= cs@.take(i as int));
        }
        if cs[i] == ' ' {
            out = String::new();
            assert(out@ =~= Seq::<char>::empty());
        } else {
            push_char(&mut out, cs[i]);
        }
        i = i + 1;
    }
    assert(cs@.take(n as int) =~= cs@);
    out
}

/// The entry names of a directory listing, one per row, in order.
pub fn listing_names(rows: &Vec<String>) -> (r: Vec<String>)
    ensures
        r@.len() == rows@.len(),
        forall|i: int| 0 <= i < rows@.len() ==> (#[trigger] r@[i])@ == after_last_space(rows@[i]@),
{
    let mut out: Vec<String> = Vec::new();
    let n = rows.len();
    let mut i: usize = 0;
    while i < n
        invariant
            n == rows@.len(),
            i <= n,
            out@.len() == i,
            forall|j: int| 0 <= j < i ==> (#[trigger] out@[j])@ == after_last_space(rows@[j]@),
        decreases n - i,
    {
        out.push(listing_name(rows[i].as_str()));
        i = i + 1;
    }
    out
}

} // verus!
