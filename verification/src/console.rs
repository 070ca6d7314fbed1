//! The stdout service as workload code sees it: the host-side sink that the
//! host-stdout-write hostcall appends to.

use vstd::prelude::*;
use vstd::string::StringExecFns;

verus! {

/// The host's standard-output sink for one process: everything workloads
/// have printed through the hostcall path, in order.
pub struct Stdout {
    out: String,
}

impl Stdout {
    /// Everything printed so far.
    pub closed spec fn view(&self) -> Seq<char> {
        self.out@
    }

    /// A sink with nothing printed yet.
    pub fn new() -> (r: Stdout)
        ensures
            r@ == Seq::<char>::empty(),
    {
        Stdout { out: String::new() }
    }

    /// Everything printed so far.
    pub fn contents(&self) -> (r: &String)
        ensures
            r@ == self@,
    {
        &self.out
    }
}

/// Prints workload text: appends it to the host's standard-output sink, as
/// the host-stdout-write hostcall does on the workload's behalf.
pub fn print(out: &mut Stdout, s: &str)
    ensures
        final(out)@ == old(out)@ + s@,
{
    out.out.append(s);
}

} // verus!
