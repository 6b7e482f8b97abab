use vstd::prelude::*;

verus! {

/// Split the process arguments into the target command and its
/// arguments. The first argument is the running program's own name;
/// the second, when present, names the command to run after the quiz,
/// and the rest are handed to it unchanged. With no extra arguments
/// there is nothing to run.
pub fn split_target_command(args: &Vec<String>) -> (r: Option<(String, Vec<String>)>)
    ensures
        (r is None <==> args@.len() <= 1),
        r matches Some(pair) ==> {
            &&& pair.0@ == args@[1]@
            &&& pair.1@.len() == args@.len() - 2
            &&& forall|i: int| 0 <= i < pair.1@.len() ==> pair.1@[i]@ == args@[i + 2]@
        },
{
    if args.len() <= 1 {
        None
    } else {
        let prog = args[1].clone();
        let mut rest: Vec<String> = Vec::new();
        let mut i: usize = 2;
        while i < args.len()
            invariant
                2 <= i <= args@.len(),
                args@.len() >= 2,
                rest@.len() == i - 2,
                forall|k: int| 0 <= k < rest@.len() ==> rest@[k]@ == args@[k + 2]@,
            decreases args@.len() - i,
        {
            rest.push(args[i].clone());
            i = i + 1;
        }
        Some((prog, rest))
    }
}

} // verus!
