//! Stateless command-surface logic: the launch-path arguments handed to
//! the UI at startup, and the outcome of an external-editor launch.

use vstd::prelude::*;

verus! {

/// Returns the process-start arguments after the program name, in their
/// original order; the empty vector when none were supplied.
pub fn get_launch_paths(args: &Vec<String>) -> (r: Vec<String>)
    ensures
        args@.len() <= 1 ==> r@ =~= Seq::<String>::empty(),
        args@.len() > 1 ==> r@ =~= args@.skip(1),
{
    let mut r: Vec<String> = Vec::new();
    if args.len() > 1 {
        let mut i: usize = 1;
        while i < args.len()
            invariant
                1 <= i <= args@.len(),
                r@ =~= args@.subrange(1, i as int),
            decreases args@.len() - i,
        {
            r.push(args[i].clone());
            i = i + 1;
        }
        proof {
            assert(args@.subrange(1, args@.len() as int) =~= args@.skip(1));
        }
    }
    r
}

/// The single path pushed to the UI once at startup as the initial file
/// to open: the first launch path, if any was supplied.
pub fn initial_path(paths: &Vec<String>) -> (r: Option<&String>)
    ensures
        paths@.len() == 0 ==> r is None,
        paths@.len() > 0 ==> (r matches Some(p) && p@ == paths@[0]@),
{
    if paths.len() > 0 {
        Some(&paths[0])
    } else {
        None
    }
}

/// The result of the open-in-external-editor command. On the one
/// supported platform the shell spawns the editor and hands the spawn
/// outcome in as `Some`, and that outcome is the command's result; on
/// any other platform no spawn is attempted (`None`) and the command
/// succeeds as a deliberate no-op rather than an error.
pub fn open_externally(spawn_outcome: Option<Result<(), String>>) -> (r: Result<(), String>)
    ensures
        spawn_outcome is None ==> r is Ok,
        spawn_outcome matches Some(outcome) ==> r == outcome,
{
    match spawn_outcome {
        None => Ok(()),
        Some(outcome) => outcome,
    }
}

} // verus!
