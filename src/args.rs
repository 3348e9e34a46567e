use vstd::prelude::*;

verus! {

/// The command line of a run: the two input images and the output path.
pub struct Args {
    pub img1: String,
    pub img2: String,
    pub output: String,
}

impl Args {
    /// Takes the three positional arguments that follow the program's name
    /// in `argv`; `None` where fewer than three are given. Any further
    /// arguments are ignored.
    pub fn new(argv: &Vec<String>) -> (r: Option<Args>)
        ensures
            r is Some <==> argv@.len() >= 4,
            r matches Some(a) ==> a.img1@ == argv@[1]@ && a.img2@ == argv@[2]@ && a.output@
                == argv@[3]@,
    {
        if argv.len() < 4 {
            return None;
        }
        Some(Args { img1: argv[1].clone(), img2: argv[2].clone(), output: argv[3].clone() })
    }
}

} // verus!
