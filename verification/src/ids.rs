//! Identifiers and kinds that other parts of the application define. Here they
//! are carried through unchanged as plain values.
use vstd::prelude::*;

verus! {

/// The kind of a Warp Drive object.
#[derive(PartialEq, Eq, Debug)]
pub struct ObjectType(pub String);

/// How a set of diffs is computed.
#[derive(PartialEq, Eq, Debug)]
pub struct DiffMode(pub String);

/// A server-synced identifier.
#[derive(PartialEq, Eq, Debug)]
pub struct SyncId(pub String);

/// A server identifier.
#[derive(PartialEq, Eq, Debug)]
pub struct ServerId(pub String);

/// A user's identifier.
#[derive(PartialEq, Eq, Debug)]
pub struct UserUid(pub String);

/// A language model's identifier.
#[derive(PartialEq, Eq, Debug)]
pub struct LLMId(pub String);

/// An execution profile's identifier.
#[derive(PartialEq, Eq, Debug)]
pub struct ClientProfileId(pub String);

/// An AI conversation's identifier.
#[derive(PartialEq, Eq, Debug)]
pub struct AIConversationId(pub String);

/// An ambient agent task's identifier.
#[derive(PartialEq, Eq, Debug)]
pub struct AmbientAgentTaskId(pub String);

/// A shared session's identifier.
#[derive(PartialEq, Eq, Debug)]
pub struct SessionId(pub String);

/// A terminal block's identifier.
#[derive(PartialEq, Eq, Debug)]
pub struct BlockId(pub String);

/// A UI entity's identifier.
#[derive(Clone, Copy, PartialEq, Eq, Debug)]
pub struct EntityId(pub u64);

/// A window's identifier.
#[derive(Clone, Copy, PartialEq, Eq, Debug)]
pub struct WindowId(pub u64);

/// A language server kind.
#[derive(PartialEq, Eq, Debug)]
pub struct LSPServerType(pub String);

/// A team member's role.
#[derive(PartialEq, Eq, Debug)]
pub struct MembershipRole(pub String);

/// A toast's look.
#[derive(PartialEq, Eq, Debug)]
pub struct ToastFlavor(pub String);

/// A coding agent that runs in the terminal.
#[derive(PartialEq, Eq, Debug)]
pub struct CLIAgent(pub String);

/// A file attached to an agent request.
#[derive(PartialEq, Eq, Debug)]
pub struct AttachmentInput(pub String);

/// The token of a workspace snapshot uploaded for a cloud agent.
#[derive(PartialEq, Eq, Debug)]
pub struct InitialSnapshotToken(pub String);

/// The workspace that a local conversation touched.
#[derive(PartialEq, Eq, Debug)]
pub struct TouchedWorkspace(pub String);

impl Clone for ObjectType {
    fn clone(&self) -> (c: Self)
        ensures
            c == *self,
    {
        ObjectType(self.0.clone())
    }
}

impl Clone for DiffMode {
    fn clone(&self) -> (c: Self)
        ensures
            c == *self,
    {
        DiffMode(self.0.clone())
    }
}

impl Clone for SyncId {
    fn clone(&self) -> (c: Self)
        ensures
            c == *self,
    {
        SyncId(self.0.clone())
    }
}

impl Clone for ServerId {
    fn clone(&self) -> (c: Self)
        ensures
            c == *self,
    {
        ServerId(self.0.clone())
    }
}

impl Clone for UserUid {
    fn clone(&self) -> (c: Self)
        ensures
            c == *self,
    {
        UserUid(self.0.clone())
    }
}

impl Clone for LLMId {
    fn clone(&self) -> (c: Self)
        ensures
            c == *self,
    {
        LLMId(self.0.clone())
    }
}

impl Clone for ClientProfileId {
    fn clone(&self) -> (c: Self)
        ensures
            c == *self,
    {
        ClientProfileId(self.0.clone())
    }
}

impl Clone for AIConversationId {
    fn clone(&self) -> (c: Self)
        ensures
            c == *self,
    {
        AIConversationId(self.0.clone())
    }
}

impl Clone for AmbientAgentTaskId {
    fn clone(&self) -> (c: Self)
        ensures
            c == *self,
    {
        AmbientAgentTaskId(self.0.clone())
    }
}

impl Clone for SessionId {
    fn clone(&self) -> (c: Self)
        ensures
            c == *self,
    {
        SessionId(self.0.clone())
    }
}

impl Clone for BlockId {
    fn clone(&self) -> (c: Self)
        ensures
            c == *self,
    {
        BlockId(self.0.clone())
    }
}

impl Clone for LSPServerType {
    fn clone(&self) -> (c: Self)
        ensures
            c == *self,
    {
        LSPServerType(self.0.clone())
    }
}

impl Clone for MembershipRole {
    fn clone(&self) -> (c: Self)
        ensures
            c == *self,
    {
        MembershipRole(self.0.clone())
    }
}

impl Clone for ToastFlavor {
    fn clone(&self) -> (c: Self)
        ensures
            c == *self,
    {
        ToastFlavor(self.0.clone())
    }
}

impl Clone for CLIAgent {
    fn clone(&self) -> (c: Self)
        ensures
            c == *self,
    {
        CLIAgent(self.0.clone())
    }
}

impl Clone for AttachmentInput {
    fn clone(&self) -> (c: Self)
        ensures
            c == *self,
    {
        AttachmentInput(self.0.clone())
    }
}

impl Clone for InitialSnapshotToken {
    fn clone(&self) -> (c: Self)
        ensures
            c == *self,
    {
        InitialSnapshotToken(self.0.clone())
    }
}

impl Clone for TouchedWorkspace {
    fn clone(&self) -> (c: Self)
        ensures
            c == *self,
    {
        TouchedWorkspace(self.0.clone())
    }
}

} // verus!
