//! The compilation target of a pass.

use vstd::prelude::*;

verus! {

/// The execution target a compilation pass produces output for.
#[derive(Clone, Copy, Debug, PartialEq, Eq, Structural)]
pub enum ActionsTransform {
    Client,
    Server,
}

impl ActionsTransform {
    /// The textual rendering of the target: the name of the variant.
    pub open spec fn rendering(self) -> Seq<char> {
        match self {
            ActionsTransform::Client => "Client"@,
            ActionsTransform::Server => "Server"@,
        }
    }

    /// Whether the target is the privileged, server-side layer.
    pub open spec fn privileged(self) -> bool {
        self == ActionsTransform::Server
    }

    /// Renders the target as text.
    pub fn name(&self) -> (text: &'static str)
        ensures
            text@ == self.rendering(),
    {
        match self {
            ActionsTransform::Client => "Client",
            ActionsTransform::Server => "Server",
        }
    }

    /// Tells whether the target is the server.
    pub fn is_server(&self) -> (privileged: bool)
        ensures
            privileged == self.privileged(),
    {
        match self {
            ActionsTransform::Client => false,
            ActionsTransform::Server => true,
        }
    }
}

/// Every rendering has six characters, and its first character tells the
/// target: `S` for the server, `C` for the client.
pub proof fn lemma_rendering_shape(target: ActionsTransform)
    ensures
        target.rendering().len() == 6,
        target.rendering()[0] == (if target.privileged() { 'S' } else { 'C' }),
{
    reveal_strlit("Client");
    reveal_strlit("Server");
}

/// Two different targets never render as the same text.
pub proof fn lemma_rendering_distinct(first: ActionsTransform, second: ActionsTransform)
    requires
        first != second,
    ensures
        first.rendering() != second.rendering(),
{
    lemma_rendering_shape(first);
    lemma_rendering_shape(second);
}

} // verus!
