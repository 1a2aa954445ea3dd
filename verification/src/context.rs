//! What a PipeWire context decides on its own when it connects to the
//! daemon. The daemon calls themselves are made by the application shell.

use vstd::prelude::*;

verus! {

/// Errors of PipeWire operations.
#[derive(PartialEq, Eq, Structural, Debug)]
pub enum Error {
    /// The library could not create the object that was asked for.
    CreationFailed,
}

/// A connection to the PipeWire daemon, held as the non-null address of
/// its core object.
#[derive(PartialEq, Eq, Structural, Debug)]
pub struct CoreBox {
    core: usize,
}

impl View for CoreBox {
    type V = usize;

    closed spec fn view(&self) -> usize {
        self.core
    }
}

impl CoreBox {
    /// Two values are equal exactly when their views are.
    pub proof fn lemma_eq_iff_view_eq(a: Self, b: Self)
        ensures
            (a == b) <==> (a@ == b@),
    {
    }

    /// The address of the core object; never zero.
    pub fn as_raw_addr(&self) -> (r: usize)
        ensures
            r == self@,
            r != 0,
    {
        proof {
            use_type_invariant(self);
        }
        self.core
    }

    #[verifier::type_invariant]
    spec fn non_null(self) -> bool {
        self.core != 0
    }
}

/// How `connect` answers the core address that the daemon connection
/// handed back: `CreationFailed` for a null address, else the connection.
pub fn connect_result(core: usize) -> (r: Result<CoreBox, Error>)
    ensures
        r is Err <==> core == 0,
        r matches Err(e) ==> e == Error::CreationFailed,
        r matches Ok(b) ==> b@ == core,
{
    if core == 0 {
        Err(Error::CreationFailed)
    } else {
        Ok(CoreBox { core })
    }
}

} // verus!
