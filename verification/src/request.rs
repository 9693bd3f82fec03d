//! What a command line asks for.

use vstd::prelude::*;
use crate::failure::Failure;
use crate::sink::{target, target_spec};
use crate::size::{parse_size, parse_spec};

verus! {

/// A request for a file of random bytes.
#[derive(Clone, Debug)]
pub struct Request {
    /// The number of bytes to write.
    pub size: usize,
    /// The path of the file to create.
    pub path: String,
}

/// The texts of the arguments `args`.
pub open spec fn texts(args: Seq<String>) -> Seq<Seq<char>> {
    Seq::new(args.len(), |i: int| args[i]@)
}

/// What the arguments `args` ask for, the first of them being the name of
/// the program: a size, and after it a path or nothing, which stands for
/// the default path. Any other number of arguments is a usage error, and
/// the size is not looked at.
pub open spec fn plan_spec(args: Seq<Seq<char>>) -> Result<(usize, Seq<char>), Failure> {
    if args.len() < 2 || args.len() > 3 {
        Err(Failure::Usage)
    } else {
        match parse_spec(args[1]) {
            Err(e) => Err(Failure::Size(e)),
            Ok(size) => Ok(
                (
                    size,
                    target_spec(
                        if args.len() == 3 {
                            Some(args[2])
                        } else {
                            None
                        },
                    ),
                ),
            ),
        }
    }
}

/// Reads the arguments of a command line, the first of them being the name
/// of the program.
pub fn plan(args: &Vec<String>) -> (r: Result<Request, Failure>)
    ensures
        match r {
            Ok(request) => plan_spec(texts(args@)) == Ok::<(usize, Seq<char>), Failure>(
                (request.size, request.path@),
            ),
            Err(failure) => plan_spec(texts(args@)) == Err::<(usize, Seq<char>), Failure>(failure),
        },
{
    if args.len() < 2 || args.len() > 3 {
        return Err(Failure::Usage);
    }
    match parse_size(args[1].as_str()) {
        Err(e) => Err(Failure::Size(e)),
        Ok(size) => {
            let given = if args.len() == 3 {
                Some(args[2].as_str())
            } else {
                None
            };
            Ok(Request { size, path: target(given) })
        },
    }
}

} // verus!
