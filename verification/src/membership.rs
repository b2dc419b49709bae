use vstd::prelude::*;

verus! {

/// What the membership service reports about one user in one chat.
#[derive(Clone, Copy, Debug, PartialEq, Eq, Structural)]
pub enum Membership {
    /// An ordinary member of the chat.
    Present,
    /// An owner or administrator of the chat.
    Privileged,
    /// Not a member: never joined, left, or banned.
    Absent,
    /// The service could not answer.
    Error,
}

impl Membership {
    /// The answer of a query that succeeded and found the user present or
    /// not, privileged or not. A privileged user counts as privileged
    /// whatever else is reported.
    pub fn observed(present: bool, privileged: bool) -> (m: Membership)
        ensures
            m == if privileged {
                Membership::Privileged
            } else if present {
                Membership::Present
            } else {
                Membership::Absent
            },
    {
        if privileged {
            Membership::Privileged
        } else if present {
            Membership::Present
        } else {
            Membership::Absent
        }
    }

    /// The user may read the chat: an ordinary or a privileged member.
    pub open spec fn present(self) -> bool {
        self is Present || self is Privileged
    }

    /// The user may switch logging on and off in the chat.
    pub open spec fn privileged(self) -> bool {
        self is Privileged
    }

    /// Whether the answer counts as membership. A failed query counts as
    /// absence, never as a pending state.
    pub fn is_present(&self) -> (b: bool)
        ensures
            b == self.present(),
    {
        match self {
            Membership::Present => true,
            Membership::Privileged => true,
            Membership::Absent => false,
            Membership::Error => false,
        }
    }

    /// Whether the answer grants the right to change the registry.
    pub fn is_privileged(&self) -> (b: bool)
        ensures
            b == self.privileged(),
    {
        match self {
            Membership::Privileged => true,
            _ => false,
        }
    }
}

} // verus!
