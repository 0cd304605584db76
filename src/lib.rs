use vstd::prelude::*;

pub mod expansion;
pub mod session;
pub mod template;

pub use expansion::{classify, Error, Expansion, ExpansionRequest};
pub use session::{Session, SessionView, Sources, Stash};
pub use template::{project_for, MacroType, Project, ProjectFiles};

verus! {

/// The carriage-return byte that some editors put before each newline.
pub const WINDOWS_NEWLINE: u8 = 13;

/// `s` with every carriage-return byte removed, the other bytes kept in order.
pub open spec fn strip_cr(s: Seq<u8>) -> Seq<u8>
    decreases s.len(),
{
    if s.len() == 0 {
        Seq::empty()
    } else if s.last() == WINDOWS_NEWLINE {
        strip_cr(s.drop_last())
    } else {
        strip_cr(s.drop_last()).push(s.last())
    }
}

/// Removes every carriage-return byte, so that the text has plain newlines.
pub fn remove_extra_newline(slice: &[u8]) -> (r: Vec<u8>)
    ensures
        r@ == strip_cr(slice@),
{
    let mut r: Vec<u8> = Vec::new();
    let mut i: usize = 0;
    while i < slice.len()
        invariant
            i <= slice@.len(),
            r@ == strip_cr(slice@.subrange(0, i as int)),
        decreases slice@.len() - i,
    {
        assert(slice@.subrange(0, i + 1).drop_last() =~= slice@.subrange(0, i as int));
        if slice[i] != WINDOWS_NEWLINE {
            r.push(slice[i]);
        }
        i = i + 1;
    }
    assert(slice@.subrange(0, slice@.len() as int) =~= slice@);
    r
}

} // verus!
