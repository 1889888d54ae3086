use vstd::prelude::*;

verus! {

/// The shared ownership slot: the one piece of state reachable from both
/// the main execution context and the interrupt context.
///
/// It holds the USB device instance and the responder that answers the
/// host's block commands. Both entries are absent at boot and installed
/// together, exactly once, before the interrupt is unmasked. Every access
/// must happen inside one critical section: the service routine checks both
/// entries out together and puts both back before the critical section
/// ends. The slot's invariant is that the two entries are either both
/// present or both absent, so no observer in either context can ever see a
/// half-initialized slot.
pub struct Slot<U, R> {
    device: Option<U>,
    responder: Option<R>,
}

impl<U, R> Slot<U, R> {
    #[verifier::type_invariant]
    spec fn both_or_neither(&self) -> bool {
        self.device is Some <==> self.responder is Some
    }

    /// Whether the device entry is occupied.
    pub closed spec fn has_device(&self) -> bool {
        self.device is Some
    }

    /// Whether the responder entry is occupied.
    pub closed spec fn has_responder(&self) -> bool {
        self.responder is Some
    }

    /// The pair held by the slot, if it is populated.
    pub closed spec fn stored(&self) -> Option<(U, R)> {
        match (self.device, self.responder) {
            (Some(device), Some(responder)) => Some((device, responder)),
            _ => None,
        }
    }

    /// The empty slot, as it stands at boot.
    pub fn empty() -> (r: Slot<U, R>)
        ensures
            r.stored() is None,
            !r.has_device(),
            !r.has_responder(),
    {
        Slot { device: None, responder: None }
    }

    /// Whether the slot is populated and ready to service interrupts.
    pub fn is_ready(&self) -> (r: bool)
        ensures
            r == (self.stored() is Some),
    {
        proof {
            use_type_invariant(self);
        }
        self.device.is_some()
    }

    /// Whether the device entry is occupied. The second clause is the
    /// slot's invariant stated as a law: whenever the slot is observed, its
    /// two entries are both present or both absent; a half-initialized slot
    /// is not a constructible value.
    pub fn device_installed(&self) -> (r: bool)
        ensures
            r == self.has_device(),
            self.has_device() <==> self.has_responder(),
    {
        proof {
            use_type_invariant(self);
        }
        self.device.is_some()
    }

    /// Whether the responder entry is occupied; equal to `has_device` by
    /// the slot's invariant.
    pub fn responder_installed(&self) -> (r: bool)
        ensures
            r == self.has_responder(),
            self.has_device() <==> self.has_responder(),
    {
        proof {
            use_type_invariant(self);
        }
        self.responder.is_some()
    }

    /// Populate the slot with both entries at once. An already-populated
    /// slot is left untouched and the pair is handed back: the slot is
    /// populated exactly once, at setup.
    pub fn install(&mut self, device: U, responder: R) -> (r: Result<(), (U, R)>)
        ensures
            old(self).stored() is Some ==> {
                &&& r matches Err(p) && p == (device, responder)
                &&& final(self).stored() == old(self).stored()
            },
            old(self).stored() is None ==> {
                &&& r is Ok
                &&& final(self).stored() == Some((device, responder))
            },
    {
        proof {
            use_type_invariant(&*self);
        }
        if self.device.is_some() {
            Err((device, responder))
        } else {
            *self = Slot { device: Some(device), responder: Some(responder) };
            Ok(())
        }
    }

    /// Check both entries out for one servicing pass. Inside the critical
    /// section the service routine owns them exclusively; it puts them back
    /// with `install` before the critical section ends. An empty slot
    /// yields nothing and is left untouched.
    pub fn begin_service(&mut self) -> (r: Option<(U, R)>)
        ensures
            old(self).stored() matches Some(p) ==> {
                &&& r == Some(p)
                &&& final(self).stored() is None
            },
            old(self).stored() is None ==> {
                &&& r is None
                &&& final(self).stored() is None
            },
    {
        let mut taken: Slot<U, R> = Slot { device: None, responder: None };
        core::mem::swap(&mut taken, self);
        proof {
            use_type_invariant(&taken);
        }
        match (taken.device, taken.responder) {
            (Some(device), Some(responder)) => Some((device, responder)),
            _ => None,
        }
    }
}

} // verus!
