use vstd::prelude::*;

verus! {

/// `t` reads `HH:MM:SS`: two digits, a colon, two digits, a colon, two digits.
pub open spec fn is_clock_time(t: Seq<char>) -> bool {
    &&& t.len() == 8
    &&& t[2] == ':'
    &&& t[5] == ':'
    &&& forall|i: int|
        0 <= i < 8 && i != 2 && i != 5 ==> '0' <= #[trigger] t[i] && t[i] <= '9'
}

/// Relies on chrono's `Local::now` and its `%H:%M:%S` format: the local time of
/// day, each part zero-padded to two digits.
#[verifier::external_body]
pub(crate) fn local_clock_time() -> (r: String)
    ensures
        is_clock_time(r@),
{
    chrono::Local::now().format("%H:%M:%S").to_string()
}

} // verus!
