//! The program arguments.

use vstd::prelude::*;

use crate::ViewerError;

verus! {

/// The program arguments: the path of the model file to display.
#[derive(Debug)]
pub struct Arguments {
    pub input_file: String,
}

impl Arguments {
    /// Checks the raw argument list (everything after the program name):
    /// exactly one argument, the input file, is accepted.
    pub fn parse_args(args: &Vec<String>) -> (r: Result<Arguments, ViewerError>)
        ensures
            args@.len() == 1 ==> (r matches Ok(a) && a.input_file@ == args@[0]@),
            args@.len() != 1 ==> r == Result::<Arguments, ViewerError>::Err(
                ViewerError::InvalidArguments,
            ),
    {
        if args.len() != 1 {
            return Err(ViewerError::InvalidArguments);
        }
        Ok(Arguments { input_file: args[0].clone() })
    }

    /// The log line describing the arguments.
    pub fn print_to_log(&self) -> (r: String)
        ensures
            r@ == "Input File: "@ + self.input_file@,
    {
        let mut line = String::from_str("Input File: ");
        line.append(self.input_file.as_str());
        line
    }
}

} // verus!
