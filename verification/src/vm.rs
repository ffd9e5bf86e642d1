use std::io::Write;
use vstd::prelude::*;

verus! {

/// The output capability: the one seam through which evaluation makes its
/// effects observable. `log` is the record of every line printed so far, as
/// sequences of characters; `println` appends to it.
pub trait VM {
    spec fn log(&self) -> Seq<Seq<char>>;

    fn println(&mut self, msg: &String)
        ensures
            final(self).log() == old(self).log().push(msg@),
    ;
}

/// An output capability that keeps every printed line in memory, so that a
/// caller can inspect what a program printed.
pub struct TestVM {
    pub output: Vec<String>,
}

impl TestVM {
    pub fn new() -> (r: TestVM)
        ensures
            r.log() == Seq::<Seq<char>>::empty(),
    {
        TestVM { output: Vec::new() }
    }
}

impl VM for TestVM {
    open spec fn log(&self) -> Seq<Seq<char>> {
        self.output@.map_values(|s: String| s@)
    }

    fn println(&mut self, msg: &String) {
        self.output.push(msg.clone());
        proof {
            assert(final(self).log() =~= old(self).log().push(msg@));
        }
    }
}

/// An output capability that writes each line to standard output.
pub struct DefaultVM {
    pub written: Ghost<Seq<Seq<char>>>,
}

impl DefaultVM {
    pub fn new() -> (r: DefaultVM)
        ensures
            r.log() == Seq::<Seq<char>>::empty(),
    {
        DefaultVM { written: Ghost(Seq::empty()) }
    }
}

/// Relies on writeln to standard output: the one visible effect of the
/// default capability. Nothing is promised of it; `DefaultVM` keeps its own
/// ghost record of the lines handed over.
#[verifier::external_body]
fn write_line(msg: &String) {
    let _ = writeln!(std::io::stdout(), "{}", msg);
}

impl VM for DefaultVM {
    open spec fn log(&self) -> Seq<Seq<char>> {
        self.written@
    }

    fn println(&mut self, msg: &String) {
        write_line(msg);
        self.written = Ghost(self.written@.push(msg@));
    }
}

} // verus!
