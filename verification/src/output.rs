//! The virtual documents that the engine writes into.
//!
//! The document set is fixed and closed: type declarations, constants, the
//! implementation class, and the public interface.  During emission each
//! holds raw fragments; finalisation wraps every non-empty one with its
//! preamble.

use vstd::prelude::*;

verus! {

/// The fixed set of virtual documents, keyed by their file names.
pub struct Outputs {
    /// `Types.cs`: struct, enum and opaque-handle declarations.
    pub types: String,
    /// `Constants.cs`: the static constants class.
    pub constants: String,
    /// `Backend.cs`: wrappers, native imports, delegates and trampolines.
    pub backend: String,
    /// `IBackend.cs`: the public asynchronous interface.
    pub iface: String,
}

/// What `fetch` returns: the document named `n`, or nothing.
pub open spec fn spec_fetch(o: Outputs, n: Seq<char>) -> Seq<char> {
    if n == "Types.cs"@ {
        o.types@
    } else if n == "Constants.cs"@ {
        o.constants@
    } else if n == "Backend.cs"@ {
        o.backend@
    } else if n == "IBackend.cs"@ {
        o.iface@
    } else {
        Seq::<char>::empty()
    }
}

impl Outputs {
    /// An empty document set.
    pub fn new() -> (o: Outputs)
        ensures
            o.types@ == Seq::<char>::empty(),
            o.constants@ == Seq::<char>::empty(),
            o.backend@ == Seq::<char>::empty(),
            o.iface@ == Seq::<char>::empty(),
    {
        Outputs {
            types: String::new(),
            constants: String::new(),
            backend: String::new(),
            iface: String::new(),
        }
    }
}

impl Default for Outputs {
    fn default() -> (o: Outputs)
        ensures
            o.types@ == Seq::<char>::empty(),
            o.constants@ == Seq::<char>::empty(),
            o.backend@ == Seq::<char>::empty(),
            o.iface@ == Seq::<char>::empty(),
    {
        Outputs::new()
    }
}

/// Look a document up by its file name; an unknown name yields the empty
/// string, as does a document that received no fragments.
pub fn fetch<'a>(outputs: &'a Outputs, name: &str) -> (r: &'a str)
    ensures
        r@ == spec_fetch(*outputs, name@),
{
    let key = String::from_str(name);
    if key == String::from_str("Types.cs") {
        outputs.types.as_str()
    } else if key == String::from_str("Constants.cs") {
        outputs.constants.as_str()
    } else if key == String::from_str("Backend.cs") {
        outputs.backend.as_str()
    } else if key == String::from_str("IBackend.cs") {
        outputs.iface.as_str()
    } else {
        proof {
            reveal_strlit("");
            assert(""@ =~= Seq::<char>::empty());
        }
        ""
    }
}

} // verus!
