use vstd::prelude::*;

verus! {

/// What the graphics driver hands back for one command.
#[derive(Debug, PartialEq, Eq)]
pub enum Reply {
    /// The command was performed and has no result.
    Done,
    /// The identifier of the object that the command created.
    Handle(u32),
    /// The value of the status that the command queried.
    Status(i32),
    /// The bytes that the command read: a log buffer, or the contents of a mapped buffer.
    Bytes(Vec<u8>),
}

/// A reply as a mathematical value.
pub enum ReplyModel {
    Done,
    Handle(u32),
    Status(i32),
    Bytes(Seq<u8>),
}

impl View for Reply {
    type V = ReplyModel;

    open spec fn view(&self) -> ReplyModel {
        match self {
            Reply::Done => ReplyModel::Done,
            Reply::Handle(h) => ReplyModel::Handle(*h),
            Reply::Status(s) => ReplyModel::Status(*s),
            Reply::Bytes(b) => ReplyModel::Bytes(b@),
        }
    }
}

} // verus!
