//! A role-tagged reference to one raw OS pipe descriptor.
//!
//! An owning reference shares responsibility for the descriptor with the
//! other owning references to it: the last one to go releases it. A
//! non-owning reference is what an owner is turned into when it must let go
//! of the descriptor without releasing it; it no longer reaches the
//! descriptor.
use vstd::prelude::*;

verus! {

#[derive(Clone, Copy, Debug, PartialEq, Eq)]
pub struct Handle<R> {
    pub raw: Option<i64>,
    pub owning: bool,
    pub role: R,
}

impl<R: Copy> Handle<R> {
    /// A non-owning reference never reaches a descriptor.
    pub open spec fn wf(&self) -> bool {
        !self.owning ==> self.raw is None
    }

    /// An owning reference to the descriptor `raw`, tagged `role`.
    pub fn owning(raw: i64, role: R) -> (r: Self)
        ensures
            r.raw == Some(raw),
            r.owning,
            r.role == role,
            r.wf(),
    {
        Handle { raw: Some(raw), owning: true, role }
    }

    /// A non-owning placeholder, tagged `role`.
    pub fn neutral(role: R) -> (r: Self)
        ensures
            r.raw is None,
            !r.owning,
            r.role == role,
            r.wf(),
    {
        Handle { raw: None, owning: false, role }
    }

    /// The descriptor this reference reaches, if any.
    pub fn raw(&self) -> (r: Option<i64>)
        ensures
            r == self.raw,
    {
        self.raw
    }

    pub fn handle_type(&self) -> (r: R)
        ensures
            r == self.role,
    {
        self.role
    }

    pub fn set_type(&mut self, role: R)
        ensures
            *final(self) == (Handle { role, ..*old(self) }),
    {
        self.role = role;
    }

    /// Another reference to the same descriptor, with the same ownership.
    pub fn share(&self) -> (r: Self)
        ensures
            r == *self,
    {
        Handle { raw: self.raw, owning: self.owning, role: self.role }
    }
}

} // verus!
