use vstd::prelude::*;

verus! {

/// One typed message of a transaction, carried as an opaque payload under a
/// routing type identifier, the way the chain's interface frames arbitrary
/// messages. The library never interprets the payload.
#[derive(Debug, Clone)]
pub struct AnyMsg {
    /// Slash-and-dot-delimited identifier of the message type.
    pub type_url: String,
    /// The encoded message, treated as opaque bytes.
    pub value: Vec<u8>,
}

impl View for AnyMsg {
    type V = (Seq<char>, Seq<u8>);

    open spec fn view(&self) -> Self::V {
        (self.type_url@, self.value@)
    }
}

/// A caller-constructed unsigned transaction body: a list of arbitrary typed
/// messages plus an optional memo. The orchestrator signs it without
/// interpreting it.
#[derive(Debug, Clone)]
pub struct Body {
    /// The messages of the transaction, in order.
    pub messages: Vec<AnyMsg>,
    /// Free-form note carried with the transaction; empty when absent.
    pub memo: String,
}

impl View for Body {
    type V = (Seq<(Seq<char>, Seq<u8>)>, Seq<char>);

    open spec fn view(&self) -> Self::V {
        (self.messages@.map_values(|m: AnyMsg| m@), self.memo@)
    }
}

} // verus!
