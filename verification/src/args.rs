use vstd::prelude::*;

verus! {

/// The command-line input the dashboard needs: a user handle, required,
/// and zero or more organization handles.
pub struct Arguments {
    pub user: String,
    pub organizations: Vec<String>,
}

impl Arguments {
    /// Builds the arguments from the argument words that follow the
    /// program name: the first is the user handle, the rest are the
    /// organizations. No arguments at all is a startup error.
    pub fn from_args(args: Vec<String>) -> (r: Result<Arguments, &'static str>)
        ensures
            match r {
                Ok(a) => args@.len() >= 1 && a.user == args@[0] && a.organizations@ == args@.skip(
                    1,
                ),
                Err(m) => args@.len() == 0 && m@ == "No arguments given, needs [USER] [ORGANIZATION ...]"@,
            },
    {
        if args.len() == 0 {
            Err("No arguments given, needs [USER] [ORGANIZATION ...]")
        } else {
            let ghost args0 = args@;
            let mut rest = args;
            let user = rest.remove(0);
            proof {
                assert(rest@ =~= args0.skip(1));
            }
            Ok(Arguments { user, organizations: rest })
        }
    }
}

} // verus!
