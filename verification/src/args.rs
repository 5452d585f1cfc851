//! Command line arguments.

use vstd::prelude::*;

verus! {

/// Is `i` the first `--window` that is followed by another argument?
pub open spec fn is_window_flag(args: Seq<String>, i: int) -> bool {
    &&& 0 <= i < args.len() - 1
    &&& args[i]@ == "--window"@
    &&& forall|j: int| 0 <= j < i ==> (#[trigger] args[j])@ != "--window"@
}

/// The window title that follows `--window`, if there is one: the overlay
/// always belongs to a target window.
pub fn target_from_args(args: &Vec<String>) -> (r: Option<String>)
    ensures
        r is Some <==> exists|i: int| is_window_flag(args@, i),
        forall|i: int|
            #![trigger is_window_flag(args@, i)]
            is_window_flag(args@, i) ==> r is Some && r.unwrap()@ == args@[i + 1]@,
{
    let flag = "--window".to_owned();
    let n: usize = args.len();
    let mut i: usize = 0;
    while i < n && n - i >= 2
        invariant
            n == args@.len(),
            i <= n,
            flag@ == "--window"@,
            forall|j: int| 0 <= j < i ==> (#[trigger] args@[j])@ != "--window"@,
        decreases n - i,
    {
        if args[i] == flag {
            assert(is_window_flag(args@, i as int));
            let title = args[i + 1].clone();
            proof {
                assert forall|k: int| is_window_flag(args@, k) implies k == i by {
                    if k < i {
                        assert(args@[k]@ != "--window"@);
                    } else if i < k {
                        assert(args@[i as int]@ != "--window"@);
                    }
                }
            }
            return Some(title);
        }
        i = i + 1;
    }
    None
}

/// The flag that counts is the first `--window` among the arguments: there is
/// one exactly if that is followed by a title.
pub proof fn law_first_flag_counts(args: Seq<String>, i: int)
    requires
        0 <= i < args.len(),
        args[i]@ == "--window"@,
        forall|j: int| 0 <= j < i ==> (#[trigger] args[j])@ != "--window"@,
    ensures
        is_window_flag(args, i) <==> i + 1 < args.len(),
        forall|k: int| is_window_flag(args, k) ==> k == i,
{
    assert forall|k: int| is_window_flag(args, k) implies k == i by {
        if k < i {
            assert(args[k]@ != "--window"@);
        } else if i < k {
            assert(args[i]@ != "--window"@);
        }
    }
}

/// Without the flag there is no title.
pub proof fn law_no_flag_no_title(args: Seq<String>, i: int)
    requires
        forall|j: int| 0 <= j < args.len() ==> (#[trigger] args[j])@ != "--window"@,
    ensures
        !is_window_flag(args, i),
{
}

} // verus!
