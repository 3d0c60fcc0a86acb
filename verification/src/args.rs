//! Command-line configuration: the input and output file paths.

use vstd::prelude::*;

verus! {

/// The two positional arguments of a conversion run.
pub struct Args {
    pub input_file: String,
    pub output_file: String,
}

impl Args {
    /// Reads the configuration from an argument list whose first element is
    /// the program name. The first two positional arguments become the input
    /// and output paths; any further arguments are ignored. With fewer than
    /// two positional arguments the run is refused.
    pub fn new(args: Vec<String>) -> (r: Result<Args, &'static str>)
        ensures
            args@.len() >= 3 ==> r is Ok,
            r is Ok ==> args@.len() >= 3
                && r->Ok_0.input_file@ == args@[1]@
                && r->Ok_0.output_file@ == args@[2]@,
            r is Err ==> args@.len() < 3 && r->Err_0@ == "Didn't get a file name"@,
    {
        if args.len() < 3 {
            return Err("Didn't get a file name");
        }
        let input_file = args[1].clone();
        let output_file = args[2].clone();
        Ok(Args { input_file, output_file })
    }
}

} // verus!
