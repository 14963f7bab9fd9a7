//! The interrupt handlers the uACPI interpreter installs: how an ACPI interrupt is routed to an
//! I/O APIC pin, and the registry of handlers by dynamic vector of the bootstrap processor.
use vstd::prelude::*;

use crate::acpi::irq_routing::{resolve_acpi_interrupt, resolve_from};
use crate::acpi::madt::{MadtEntryIndex, MadtEntryType};
use crate::interrupt_routing::LEGACY_IRQ_COUNT;
use crate::uacpi_host::UacpiStatus;

verus! {

/// The global system interrupts an I/O APIC serves: `pin_count` pins from `gsi_base` on.
#[derive(Debug, Clone, Copy, PartialEq, Eq, Structural)]
pub struct IoapicPins {
    pub id: u8,
    pub gsi_base: u32,
    pub pin_count: u8,
}

/// The pin of `gsi` on the first I/O APIC of `ioapics` that serves it.
pub open spec fn pin_for_gsi_spec(ioapics: Seq<IoapicPins>, gsi: u32) -> Option<(u8, u8)>
    decreases ioapics.len(),
{
    if ioapics.len() == 0 {
        None
    } else {
        let c = ioapics[0];
        if c.gsi_base <= gsi && gsi < c.gsi_base + c.pin_count {
            Some((c.id, (gsi - c.gsi_base) as u8))
        } else {
            pin_for_gsi_spec(ioapics.drop_first(), gsi)
        }
    }
}

/// The I/O APIC and pin that global system interrupt `gsi` arrives at, if any serves it.
pub fn pin_for_gsi(ioapics: &Vec<IoapicPins>, gsi: u32) -> (r: Option<(u8, u8)>)
    ensures
        r == pin_for_gsi_spec(ioapics@, gsi),
{
    let mut i: usize = 0;
    assert(ioapics@.skip(0) =~= ioapics@);
    while i < ioapics.len()
        invariant
            i <= ioapics@.len(),
            pin_for_gsi_spec(ioapics@, gsi) == pin_for_gsi_spec(ioapics@.skip(i as int), gsi),
        decreases ioapics@.len() - i,
    {
        let c = ioapics[i];
        assert(ioapics@.skip(i as int).drop_first() =~= ioapics@.skip(i + 1));
        if c.gsi_base <= gsi && (gsi as u64) < (c.gsi_base as u64) + (c.pin_count as u64) {
            return Some((c.id, (gsi - c.gsi_base) as u8));
        }
        i = i + 1;
    }
    None
}

/// What installing a handler needs: the handler, and the line and pin its interrupt arrives on.
#[derive(Debug, Clone, Copy, PartialEq, Eq, Structural)]
pub struct InstallPlan {
    pub handler: usize,
    pub gsi: u32,
    pub active_low: bool,
    pub level: bool,
    pub ioapic: u8,
    pub pin: u8,
}

/// The route of ACPI interrupt `irq` by the override entries of the MADT: its global system
/// interrupt, polarity and trigger mode.
pub open spec fn acpi_route(madt: MadtEntryIndex, irq: u32) -> Option<(u32, bool, bool)> {
    if irq >= LEGACY_IRQ_COUNT {
        Some((irq, true, true))
    } else {
        resolve_from(madt.table@, madt.ptr_matrix@[MadtEntryType::InterruptSourceOverride.raw_value() as int]@, irq)
    }
}

/// Checks a request to install `handler` for ACPI interrupt `irq` and finds where the interrupt
/// arrives: a missing handler or result slot, or an interrupt without a valid route, is an invalid
/// argument; an interrupt that no I/O APIC serves is not found.
pub fn plan_install(
    madt: &MadtEntryIndex,
    ioapics: &Vec<IoapicPins>,
    irq: u32,
    handler: Option<usize>,
    out_handle_present: bool,
) -> (r: Result<InstallPlan, UacpiStatus>)
    requires
        madt.wf(),
    ensures
        handler is None || !out_handle_present ==> r == Err::<InstallPlan, UacpiStatus>(UacpiStatus::InvalidArgument),
        handler is Some && out_handle_present ==> match acpi_route(*madt, irq) {
            None => r == Err::<InstallPlan, UacpiStatus>(UacpiStatus::InvalidArgument),
            Some((gsi, active_low, level)) => match pin_for_gsi_spec(ioapics@, gsi) {
                None => r == Err::<InstallPlan, UacpiStatus>(UacpiStatus::NotFound),
                Some((ioapic, pin)) => r == Ok::<InstallPlan, UacpiStatus>(
                    InstallPlan { handler: handler->0, gsi, active_low, level, ioapic, pin },
                ),
            },
        },
{
    let handler = match handler {
        Some(h) => h,
        None => return Err(UacpiStatus::InvalidArgument),
    };
    if !out_handle_present {
        return Err(UacpiStatus::InvalidArgument);
    }
    let (gsi, active_low, level) = match resolve_acpi_interrupt(madt, irq) {
        Some(route) => route,
        None => return Err(UacpiStatus::InvalidArgument),
    };
    match pin_for_gsi(ioapics, gsi) {
        Some((ioapic, pin)) => Ok(InstallPlan { handler, gsi, active_low, level, ioapic, pin }),
        None => Err(UacpiStatus::NotFound),
    }
}

/// A handler installed for an ACPI interrupt: the handler and its context, the line, the I/O APIC
/// pin and the vector it is delivered on.
#[derive(Debug, Clone, Copy, PartialEq, Eq, Structural)]
pub struct HandlerRegistration {
    pub handler: usize,
    pub context: usize,
    pub gsi: u32,
    pub ioapic: u8,
    pub pin: u8,
    pub vector: u8,
}

/// An installed handler: the handle given to the interpreter and the registration.
#[derive(Debug, Clone, Copy, PartialEq, Eq, Structural)]
pub struct InstalledHandler {
    pub handle: usize,
    pub registration: HandlerRegistration,
}

/// The handlers of the dynamic vectors of the bootstrap processor: one slot per vector from
/// `first_vector` on, each empty or holding an installed handler.
pub struct HandlerRegistry {
    first_vector: u8,
    slots: Vec<Option<InstalledHandler>>,
}

/// Slot `i` holds a registration for line `gsi`.
pub open spec fn slot_has_gsi(slots: Seq<Option<InstalledHandler>>, i: int, gsi: u32) -> bool {
    slots[i] matches Some(e) && e.registration.gsi == gsi
}

/// The first slot that holds the registration with handle `handle`.
pub open spec fn slot_of_handle(slots: Seq<Option<InstalledHandler>>, handle: usize) -> Option<int>
    decreases slots.len(),
{
    if slots.len() == 0 {
        None
    } else if slots[0] matches Some(e) && e.handle == handle {
        Some(0)
    } else {
        match slot_of_handle(slots.drop_first(), handle) {
            Some(i) => Some(i + 1),
            None => None,
        }
    }
}

proof fn lemma_slot_of_handle(slots: Seq<Option<InstalledHandler>>, handle: usize)
    ensures
        match slot_of_handle(slots, handle) {
            Some(i) => 0 <= i < slots.len() && (slots[i] matches Some(e) && e.handle == handle)
                && forall|j: int| 0 <= j < i ==> !(#[trigger] slots[j] matches Some(e) && e.handle == handle),
            None => forall|j: int| 0 <= j < slots.len() ==> !(#[trigger] slots[j] matches Some(e) && e.handle == handle),
        },
    decreases slots.len(),
{
    if slots.len() > 0 {
        lemma_slot_of_handle(slots.drop_first(), handle);
        assert forall|j: int| 1 <= j < slots.len() implies #[trigger] slots[j] == slots.drop_first()[j - 1] by {}
    }
}

impl HandlerRegistry {
    /// The slots, by vector from the first one on.
    pub closed spec fn view(&self) -> Seq<Option<InstalledHandler>> {
        self.slots@
    }

    /// The vector of the first slot.
    pub closed spec fn first(&self) -> u8 {
        self.first_vector
    }

    /// The vectors fit in a byte, each registration sits in the slot of its vector, and no two
    /// registrations serve the same line.
    #[verifier::type_invariant]
    spec fn wf(self) -> bool {
        &&& self.first_vector + self.slots@.len() <= 256
        &&& forall|i: int| 0 <= i < self.slots@.len() ==> (#[trigger] self.slots@[i] matches Some(e)
            ==> e.registration.vector == self.first_vector + i)
        &&& forall|i: int, j: int| 0 <= i < self.slots@.len() && 0 <= j < self.slots@.len() && i != j
            ==> !(#[trigger] self.slots@[i] matches Some(a) && #[trigger] self.slots@[j] matches Some(b) && a.registration.gsi == b.registration.gsi)
    }

    /// The registry of `vector_count` empty slots for the vectors from `first_vector` on.
    pub fn new(first_vector: u8, vector_count: usize) -> (r: Self)
        requires
            first_vector + vector_count <= 256,
        ensures
            r.first() == first_vector,
            r@ == Seq::new(vector_count as nat, |i: int| None::<InstalledHandler>),
    {
        let mut slots: Vec<Option<InstalledHandler>> = Vec::new();
        let mut i: usize = 0;
        while i < vector_count
            invariant
                i <= vector_count,
                slots@ == Seq::new(i as nat, |k: int| None::<InstalledHandler>),
            decreases vector_count - i,
        {
            slots.push(None);
            i = i + 1;
            assert(slots@ =~= Seq::new(i as nat, |k: int| None::<InstalledHandler>));
        }
        HandlerRegistry { first_vector, slots }
    }

    /// Whether a handler is installed for line `gsi`.
    pub fn is_gsi_registered(&self, gsi: u32) -> (r: bool)
        ensures
            r == exists|i: int| 0 <= i < self@.len() && #[trigger] slot_has_gsi(self@, i, gsi),
    {
        let mut i: usize = 0;
        while i < self.slots.len()
            invariant
                i <= self.slots@.len(),
                forall|j: int| 0 <= j < i ==> !#[trigger] slot_has_gsi(self.slots@, j, gsi),
            decreases self.slots@.len() - i,
        {
            if let Some(e) = self.slots[i] {
                if e.registration.gsi == gsi {
                    assert(slot_has_gsi(self@, i as int, gsi));
                    return true;
                }
            }
            i = i + 1;
        }
        false
    }

    /// Whether `vector` is one of the registry's vectors.
    pub fn holds_vector(&self, vector: u8) -> (r: bool)
        ensures
            r == (self.first() <= vector < self.first() + self@.len()),
    {
        proof {
            use_type_invariant(self);
        }
        vector >= self.first_vector && ((vector - self.first_vector) as usize) < self.slots.len()
    }

    /// The vector an installation goes on, from what the vector table offered: no free vector is
    /// out of memory, and a vector outside the registry's range is an internal error. The registry
    /// is not changed.
    pub fn accept_vector(&self, offered: Option<u8>) -> (r: Result<u8, UacpiStatus>)
        ensures
            offered is None ==> r == Err::<u8, UacpiStatus>(UacpiStatus::OutOfMemory),
            offered is Some && !(self.first() <= offered->0 < self.first() + self@.len())
                ==> r == Err::<u8, UacpiStatus>(UacpiStatus::InternalError),
            offered is Some && self.first() <= offered->0 < self.first() + self@.len()
                ==> r == Ok::<u8, UacpiStatus>(offered->0),
    {
        match offered {
            None => Err(UacpiStatus::OutOfMemory),
            Some(v) => if self.holds_vector(v) {
                Ok(v)
            } else {
                Err(UacpiStatus::InternalError)
            },
        }
    }

    /// Records `registration` under `handle` in the slot of its vector, which the caller took from
    /// the free vectors. A handler already installed for the same line is refused.
    pub fn record(&mut self, handle: usize, registration: HandlerRegistration) -> (r: Result<(), UacpiStatus>)
        requires
            old(self).first() <= registration.vector < old(self).first() + old(self)@.len(),
        ensures
            final(self).first() == old(self).first(),
            (exists|i: int| 0 <= i < old(self)@.len() && #[trigger] slot_has_gsi(old(self)@, i, registration.gsi)) ==> {
                &&& r == Err::<(), UacpiStatus>(UacpiStatus::AlreadyExists)
                &&& final(self)@ == old(self)@
            },
            !(exists|i: int| 0 <= i < old(self)@.len() && #[trigger] slot_has_gsi(old(self)@, i, registration.gsi)) ==> {
                &&& r == Ok::<(), UacpiStatus>(())
                &&& final(self)@ == old(self)@.update(registration.vector - old(self).first(), Some(InstalledHandler { handle, registration }))
            },
    {
        proof {
            use_type_invariant(&*self);
        }
        if self.is_gsi_registered(registration.gsi) {
            return Err(UacpiStatus::AlreadyExists);
        }
        let idx = (registration.vector - self.first_vector) as usize;
        let ghost old_slots = self.slots@;
        let mut slots: Vec<Option<InstalledHandler>> = Vec::new();
        std::mem::swap(&mut slots, &mut self.slots);
        slots.set(idx, Some(InstalledHandler { handle, registration }));
        proof {
            let s = slots@;
            assert forall|i: int, j: int| 0 <= i < s.len() && 0 <= j < s.len() && i != j
                implies !(#[trigger] s[i] matches Some(a) && #[trigger] s[j] matches Some(b) && a.registration.gsi == b.registration.gsi) by {
                if i == idx as int {
                    assert(!slot_has_gsi(old_slots, j, registration.gsi));
                } else if j == idx as int {
                    assert(!slot_has_gsi(old_slots, i, registration.gsi));
                } else {
                    assert(s[i] == old_slots[i] && s[j] == old_slots[j]);
                }
            }
        }
        self.slots = slots;
        Ok(())
    }

    /// The handle and registration that interrupts on `vector` are delivered to.
    pub fn dispatch_target(&self, vector: u8) -> (r: Option<InstalledHandler>)
        requires
            self.first() <= vector < self.first() + self@.len(),
        ensures
            r == self@[vector - self.first()],
    {
        self.slots[(vector - self.first_vector) as usize]
    }

    /// Removes the registration with handle `handle`, installed for `handler`, and returns it: the
    /// caller masks its pin, frees its vector and waits for its running calls. A missing handler is
    /// an invalid argument, an unknown handle is not found, and another handler than the one
    /// installed is an invalid argument.
    pub fn unregister(&mut self, handler: Option<usize>, handle: usize) -> (r: Result<HandlerRegistration, UacpiStatus>)
        ensures
            final(self).first() == old(self).first(),
            handler is None ==> r == Err::<HandlerRegistration, UacpiStatus>(UacpiStatus::InvalidArgument)
                && final(self)@ == old(self)@,
            handler is Some ==> match slot_of_handle(old(self)@, handle) {
                None => r == Err::<HandlerRegistration, UacpiStatus>(UacpiStatus::NotFound) && final(self)@ == old(self)@,
                Some(i) => {
                    let reg = old(self)@[i]->0.registration;
                    if reg.handler != handler->0 {
                        r == Err::<HandlerRegistration, UacpiStatus>(UacpiStatus::InvalidArgument) && final(self)@ == old(self)@
                    } else {
                        r == Ok::<HandlerRegistration, UacpiStatus>(reg) && final(self)@ == old(self)@.update(i, None)
                    }
                },
            },
    {
        proof {
            use_type_invariant(&*self);
        }
        let expected = match handler {
            Some(h) => h,
            None => return Err(UacpiStatus::InvalidArgument),
        };
        let mut i: usize = 0;
        while i < self.slots.len()
            invariant
                i <= self.slots@.len(),
                self.slots@ == old(self).slots@,
                self.first_vector == old(self).first_vector,
                handler == Some(expected),
                forall|j: int| 0 <= j < i ==> !(#[trigger] self.slots@[j] matches Some(e) && e.handle == handle),
            decreases self.slots@.len() - i,
        {
            proof {
                lemma_slot_of_handle(self.slots@, handle);
            }
            if let Some(e) = self.slots[i] {
                if e.handle == handle {
                    assert(slot_of_handle(self.slots@, handle) == Some(i as int));
                    assert(old(self)@[i as int]->0.registration == e.registration);
                    proof {
                        use_type_invariant(&*self);
                    }
                    if e.registration.handler != expected {
                        return Err(UacpiStatus::InvalidArgument);
                    }
                    let ghost old_slots = self.slots@;
                    let mut slots: Vec<Option<InstalledHandler>> = Vec::new();
                    std::mem::swap(&mut slots, &mut self.slots);
                    slots.set(i, None);
                    proof {
                        let s = slots@;
                        assert forall|a: int, b: int| 0 <= a < s.len() && 0 <= b < s.len() && a != b
                            implies !(#[trigger] s[a] matches Some(x) && #[trigger] s[b] matches Some(y) && x.registration.gsi == y.registration.gsi) by {
                            if a != i as int && b != i as int {
                                assert(s[a] == old_slots[a] && s[b] == old_slots[b]);
                            }
                        }
                    }
                    self.slots = slots;
                    return Ok(e.registration);
                }
            }
            i = i + 1;
        }
        proof {
            lemma_slot_of_handle(self.slots@, handle);
        }
        Err(UacpiStatus::NotFound)
    }
}

/// Recording a registration makes interrupts on its vector reach it; unregistering it with the
/// same handler gives it back and empties that slot again.
pub proof fn lemma_record_then_unregister(
    slots: Seq<Option<InstalledHandler>>,
    first: u8,
    handle: usize,
    registration: HandlerRegistration,
)
    requires
        first <= registration.vector < first + slots.len(),
        forall|j: int| 0 <= j < slots.len() ==> !(#[trigger] slots[j] matches Some(e) && e.handle == handle),
    ensures
        ({
            let i = registration.vector - first;
            let after = slots.update(i, Some(InstalledHandler { handle, registration }));
            &&& after[i] == Some(InstalledHandler { handle, registration })
            &&& slot_of_handle(after, handle) == Some(i)
            &&& after.update(i, None) == slots.update(i, None)
        }),
{
    let i = registration.vector - first;
    let after = slots.update(i, Some(InstalledHandler { handle, registration }));
    lemma_slot_of_handle(after, handle);
    if let Some(k) = slot_of_handle(after, handle) {
        if k != i {
            assert(after[k] == slots[k]);
        }
    }
    assert(after.update(i, None) =~= slots.update(i, None));
}

/// A handler is installed for line `gsi` in the slots `slots`.
pub open spec fn gsi_registered(slots: Seq<Option<InstalledHandler>>, gsi: u32) -> bool {
    exists|i: int| 0 <= i < slots.len() && #[trigger] slot_has_gsi(slots, i, gsi)
}

/// Where the installation of a handler stands.
#[derive(Debug, Clone, Copy, PartialEq, Eq, Structural)]
pub enum InstallState {
    /// The memory of the registration is to be allocated.
    Start,
    /// The registration is allocated at `handle`; a free vector is to be found.
    Allocated { handle: usize },
    /// The pin is to be routed, masked, to `vector`.
    VectorFound { handle: usize, vector: u8 },
    /// The pin is routed; `vector` is to be pointed at the dispatcher.
    Routed { handle: usize, vector: u8 },
    /// The handler is recorded; the pin is to be unmasked.
    Recorded { handle: usize },
    /// Installed: `handle` goes to the interpreter with success.
    Installed { handle: usize },
    /// Failed with `status`; the allocation, where there is one, is to be freed.
    Failed { status: UacpiStatus, allocation: Option<usize> },
}

/// What the kernel does next for an installation.
#[derive(Debug, Clone, Copy, PartialEq, Eq, Structural)]
pub enum InstallAction {
    /// Allocate the memory of the registration.
    Allocate,
    /// Ask the vector table of the bootstrap processor for a free vector.
    FindVector,
    /// Route pin `pin` of I/O APIC `ioapic` to `vector` of the bootstrap processor, masked.
    Route { ioapic: u8, pin: u8, vector: u8, active_low: bool, level: bool },
    /// Point `vector` at the dispatcher.
    SetHandler { vector: u8 },
    /// Unmask pin `pin` of I/O APIC `ioapic`.
    Unmask { ioapic: u8, pin: u8 },
    /// Hand `handle` to the interpreter and return success.
    Succeed { handle: usize },
    /// Free `allocation`, where there is one, and return `status`.
    Fail { status: UacpiStatus, allocation: Option<usize> },
}

/// What the kernel reports back after an action.
#[derive(Debug, Clone, Copy, PartialEq, Eq, Structural)]
pub enum InstallEvent {
    /// The registration's memory, or none when memory ran out.
    Allocated(Option<usize>),
    /// The vector the vector table offered, or none.
    VectorOffered(Option<u8>),
    /// Whether the routing, the pointing of the vector or the unmasking succeeded.
    Completed(bool),
}

/// The action of an installation of `plan` in `state`.
pub open spec fn install_action(plan: InstallPlan, state: InstallState) -> InstallAction {
    match state {
        InstallState::Start => InstallAction::Allocate,
        InstallState::Allocated { .. } => InstallAction::FindVector,
        InstallState::VectorFound { vector, .. } => InstallAction::Route {
            ioapic: plan.ioapic,
            pin: plan.pin,
            vector,
            active_low: plan.active_low,
            level: plan.level,
        },
        InstallState::Routed { vector, .. } => InstallAction::SetHandler { vector },
        InstallState::Recorded { .. } => InstallAction::Unmask { ioapic: plan.ioapic, pin: plan.pin },
        InstallState::Installed { handle } => InstallAction::Succeed { handle },
        InstallState::Failed { status, allocation } => InstallAction::Fail { status, allocation },
    }
}

/// The registration recorded for `plan` on `vector`.
pub open spec fn registration_of(plan: InstallPlan, context: usize, vector: u8) -> HandlerRegistration {
    HandlerRegistration { handler: plan.handler, context, gsi: plan.gsi, ioapic: plan.ioapic, pin: plan.pin, vector }
}

/// The state after `event` answers the action of `state`, the registry holding `slots` from
/// vector `first` on. The checks come in the order the kernel makes them: out of memory for the
/// registration, a handler already installed for the line, no free vector, a route the I/O APIC
/// refuses, a vector that cannot take the dispatcher.
pub open spec fn install_next(
    plan: InstallPlan,
    state: InstallState,
    event: InstallEvent,
    slots: Seq<Option<InstalledHandler>>,
    first: u8,
) -> InstallState {
    match (state, event) {
        (InstallState::Start, InstallEvent::Allocated(None)) => InstallState::Failed {
            status: UacpiStatus::OutOfMemory,
            allocation: None,
        },
        (InstallState::Start, InstallEvent::Allocated(Some(handle))) => if gsi_registered(slots, plan.gsi) {
            InstallState::Failed { status: UacpiStatus::AlreadyExists, allocation: Some(handle) }
        } else {
            InstallState::Allocated { handle }
        },
        (InstallState::Allocated { handle }, InstallEvent::VectorOffered(None)) => InstallState::Failed {
            status: UacpiStatus::OutOfMemory,
            allocation: Some(handle),
        },
        (InstallState::Allocated { handle }, InstallEvent::VectorOffered(Some(vector))) => if first <= vector
            < first + slots.len() {
            InstallState::VectorFound { handle, vector }
        } else {
            InstallState::Failed { status: UacpiStatus::InternalError, allocation: Some(handle) }
        },
        (InstallState::VectorFound { handle, vector }, InstallEvent::Completed(ok)) => if ok {
            InstallState::Routed { handle, vector }
        } else {
            InstallState::Failed { status: UacpiStatus::Unimplemented, allocation: Some(handle) }
        },
        (InstallState::Routed { handle, vector }, InstallEvent::Completed(ok)) => if !ok || !(first <= vector
            < first + slots.len()) {
            InstallState::Failed { status: UacpiStatus::InternalError, allocation: Some(handle) }
        } else if gsi_registered(slots, plan.gsi) {
            InstallState::Failed { status: UacpiStatus::AlreadyExists, allocation: Some(handle) }
        } else {
            InstallState::Recorded { handle }
        },
        (InstallState::Recorded { handle }, InstallEvent::Completed(_)) => InstallState::Installed { handle },
        _ => state,
    }
}

/// An installation of a handler for an ACPI interrupt: what `plan_install` found, the context
/// handed with each call, and where it stands. The kernel performs each action under the lock of
/// the registry and reports back.
pub struct HandlerInstall {
    pub plan: InstallPlan,
    pub context: usize,
    pub state: InstallState,
}

impl HandlerInstall {
    pub fn new(plan: InstallPlan, context: usize) -> (r: Self)
        ensures
            r.plan == plan,
            r.context == context,
            r.state == InstallState::Start,
    {
        HandlerInstall { plan, context, state: InstallState::Start }
    }

    /// What to do next.
    pub fn action(&self) -> (r: InstallAction)
        ensures
            r == install_action(self.plan, self.state),
    {
        match self.state {
            InstallState::Start => InstallAction::Allocate,
            InstallState::Allocated { .. } => InstallAction::FindVector,
            InstallState::VectorFound { vector, .. } => InstallAction::Route {
                ioapic: self.plan.ioapic,
                pin: self.plan.pin,
                vector,
                active_low: self.plan.active_low,
                level: self.plan.level,
            },
            InstallState::Routed { vector, .. } => InstallAction::SetHandler { vector },
            InstallState::Recorded { .. } => InstallAction::Unmask { ioapic: self.plan.ioapic, pin: self.plan.pin },
            InstallState::Installed { handle } => InstallAction::Succeed { handle },
            InstallState::Failed { status, allocation } => InstallAction::Fail { status, allocation },
        }
    }

    /// Takes the outcome of the last action. The registry changes only when the vector has been
    /// pointed at the dispatcher: the registration is then recorded in the slot of its vector.
    pub fn advance(&mut self, registry: &mut HandlerRegistry, event: InstallEvent)
        ensures
            final(self).plan == old(self).plan,
            final(self).context == old(self).context,
            final(self).state == install_next(old(self).plan, old(self).state, event, old(registry)@, old(registry).first()),
            final(registry).first() == old(registry).first(),
            (old(self).state is Routed && final(self).state is Recorded)
                ==> final(registry)@ == old(registry)@.update(
                    old(self).state->Routed_vector - old(registry).first(),
                    Some(InstalledHandler {
                        handle: old(self).state->Routed_handle,
                        registration: registration_of(old(self).plan, old(self).context, old(self).state->Routed_vector),
                    }),
                ),
            !(old(self).state is Routed && final(self).state is Recorded) ==> final(registry)@ == old(registry)@,
    {
        let ghost old_slots = registry@;
        let gsi = self.plan.gsi;
        let next = match (self.state, event) {
            (InstallState::Start, InstallEvent::Allocated(None)) => InstallState::Failed {
                status: UacpiStatus::OutOfMemory,
                allocation: None,
            },
            (InstallState::Start, InstallEvent::Allocated(Some(handle))) => if registry.is_gsi_registered(gsi) {
                InstallState::Failed { status: UacpiStatus::AlreadyExists, allocation: Some(handle) }
            } else {
                InstallState::Allocated { handle }
            },
            (InstallState::Allocated { handle }, InstallEvent::VectorOffered(offered)) => match registry.accept_vector(offered) {
                Ok(vector) => InstallState::VectorFound { handle, vector },
                Err(status) => InstallState::Failed { status, allocation: Some(handle) },
            },
            (InstallState::VectorFound { handle, vector }, InstallEvent::Completed(ok)) => if ok {
                InstallState::Routed { handle, vector }
            } else {
                InstallState::Failed { status: UacpiStatus::Unimplemented, allocation: Some(handle) }
            },
            (InstallState::Routed { handle, vector }, InstallEvent::Completed(ok)) => if !ok || !registry.holds_vector(vector) {
                InstallState::Failed { status: UacpiStatus::InternalError, allocation: Some(handle) }
            } else {
                let registration = HandlerRegistration {
                    handler: self.plan.handler,
                    context: self.context,
                    gsi,
                    ioapic: self.plan.ioapic,
                    pin: self.plan.pin,
                    vector,
                };
                assert(registry@ == old_slots);
                assert(registration.gsi == gsi);
                let recorded = registry.record(handle, registration);
                match recorded {
                    Ok(()) => InstallState::Recorded { handle },
                    Err(status) => InstallState::Failed { status, allocation: Some(handle) },
                }
            },
            (InstallState::Recorded { handle }, InstallEvent::Completed(_)) => InstallState::Installed { handle },
            (state, _) => state,
        };
        self.state = next;
    }
}

} // verus!
