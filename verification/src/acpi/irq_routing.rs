//! Routing of legacy IRQs and ACPI event interrupts to global system interrupts, as the MADT's
//! interrupt source overrides direct.
use vstd::prelude::*;

use crate::acpi::interrupt_flags::{InterruptPolarity, InterruptTrigger};
use crate::acpi::madt::{
    entry_fits, InterruptSourceOverrideEntry, MadtEntryIndex, MadtEntryType,
    INTERRUPT_SOURCE_OVERRIDE_ENTRY_SIZE,
};
use crate::acpi::GlobalSystemInterrupt;
use crate::byte_order::lemma_slice_len_fits;
use crate::interrupt_routing::LEGACY_IRQ_COUNT;

verus! {

/// Where a legacy IRQ is delivered: its global system interrupt, whether it is active high
/// (`polarity`) and whether it is level triggered (`latched`).
#[derive(Debug, Clone, Copy, PartialEq, Eq)]
pub struct IrqGsiMapping {
    pub irq: u8,
    pub gsi: GlobalSystemInterrupt,
    pub polarity: bool,
    pub latched: bool,
}

/// The legacy default for an ISA IRQ: identity mapped, active high, edge triggered.
pub open spec fn default_mapping(irq: int) -> IrqGsiMapping {
    IrqGsiMapping { irq: irq as u8, gsi: irq as u32, polarity: true, latched: false }
}

/// The mapping of `m`'s IRQ as the override entry `e` states it.
pub open spec fn overridden_mapping(m: IrqGsiMapping, e: InterruptSourceOverrideEntry) -> IrqGsiMapping {
    IrqGsiMapping {
        irq: m.irq,
        gsi: e.global_system_interrupt,
        polarity: e.flags.polarity_spec() != InterruptPolarity::ActiveLow,
        latched: e.flags.trigger_spec() == InterruptTrigger::Level,
    }
}

/// The IRQ table after applying, in order, the override entries at `isos`. An entry too short to
/// be an override or for an IRQ beyond the legacy range changes nothing; a later entry for the
/// same IRQ replaces an earlier one.
pub open spec fn irq_table(table: Seq<u8>, isos: Seq<usize>) -> Seq<IrqGsiMapping>
    decreases isos.len(),
{
    if isos.len() == 0 {
        Seq::new(LEGACY_IRQ_COUNT as nat, |i: int| default_mapping(i))
    } else {
        let t = irq_table(table, isos.drop_last());
        let off = isos.last() as int;
        let e = InterruptSourceOverrideEntry::from_spec(table, off);
        if table[off + 1] < INTERRUPT_SOURCE_OVERRIDE_ENTRY_SIZE || e.irq_source >= LEGACY_IRQ_COUNT {
            t
        } else {
            t.update(e.irq_source as int, overridden_mapping(t[e.irq_source as int], e))
        }
    }
}

proof fn lemma_irq_table_len(table: Seq<u8>, isos: Seq<usize>)
    ensures
        irq_table(table, isos).len() == LEGACY_IRQ_COUNT,
        forall|i: int| 0 <= i < LEGACY_IRQ_COUNT ==> (#[trigger] irq_table(table, isos)[i]).irq == i,
    decreases isos.len(),
{
    if isos.len() > 0 {
        lemma_irq_table_len(table, isos.drop_last());
    }
}

/// Creates the table mapping legacy IRQ numbers to global system interrupts: the legacy defaults,
/// replaced where the MADT holds interrupt source overrides.
pub fn create_irq_gsi_mapping_table(madt: &MadtEntryIndex) -> (r: Vec<IrqGsiMapping>)
    requires
        madt.wf(),
    ensures
        r@ == irq_table(madt.table@, madt.ptr_matrix@[MadtEntryType::InterruptSourceOverride.raw_value() as int]@),
{
    let isos = madt.get_entries_with_type(MadtEntryType::InterruptSourceOverride);
    let table = madt.table.as_slice();
    proof {
        lemma_slice_len_fits(table);
    }
    let mut mappings: Vec<IrqGsiMapping> = Vec::new();
    let mut irq: usize = 0;
    while irq < LEGACY_IRQ_COUNT
        invariant
            irq <= LEGACY_IRQ_COUNT,
            mappings@.len() == irq,
            forall|i: int| 0 <= i < irq ==> mappings@[i] == default_mapping(i),
        decreases LEGACY_IRQ_COUNT - irq,
    {
        mappings.push(IrqGsiMapping { irq: irq as u8, gsi: irq as u32, polarity: true, latched: false });
        irq = irq + 1;
    }
    assert(mappings@ =~= irq_table(table@, isos@.take(0)));
    let mut i: usize = 0;
    while i < isos.len()
        invariant
            madt.wf(),
            table@ == madt.table@,
            table@.len() <= usize::MAX,
            isos@ == madt.ptr_matrix@[MadtEntryType::InterruptSourceOverride.raw_value() as int]@,
            i <= isos@.len(),
            mappings@ == irq_table(table@, isos@.take(i as int)),
        decreases isos@.len() - i,
    {
        let off = isos[i];
        assert(entry_fits(table@, off as int));
        assert(isos@.take(i + 1).drop_last() =~= isos@.take(i as int));
        proof {
            lemma_irq_table_len(table@, isos@.take(i as int));
        }
        if table[off + 1] as usize >= INTERRUPT_SOURCE_OVERRIDE_ENTRY_SIZE {
            let entry = InterruptSourceOverrideEntry::read(table, off);
            let src = entry.irq_source as usize;
            if src < LEGACY_IRQ_COUNT {
                let old_mapping = mappings[src];
                let updated = IrqGsiMapping {
                    irq: old_mapping.irq,
                    gsi: entry.global_system_interrupt,
                    polarity: entry.flags.polarity() != InterruptPolarity::ActiveLow,
                    latched: entry.flags.trigger() == InterruptTrigger::Level,
                };
                mappings.set(src, updated);
            }
        }
        i = i + 1;
    }
    assert(isos@.take(isos@.len() as int) =~= isos@);
    mappings
}

/// The route of an ACPI event interrupt found by the override entries from `isos` on: the
/// global system interrupt, whether it is active low and whether it is level triggered, or
/// `None` where an entry is too short or states a reserved polarity or trigger mode.
pub open spec fn resolve_from(table: Seq<u8>, isos: Seq<usize>, irq: u32) -> Option<(u32, bool, bool)>
    decreases isos.len(),
{
    if isos.len() == 0 {
        Some((irq, true, true))
    } else {
        let off = isos[0] as int;
        let e = InterruptSourceOverrideEntry::from_spec(table, off);
        if table[off + 1] < INTERRUPT_SOURCE_OVERRIDE_ENTRY_SIZE {
            None
        } else if e.bus != 0 || e.irq_source != irq {
            resolve_from(table, isos.drop_first(), irq)
        } else if e.flags.polarity_spec() == InterruptPolarity::Reserved
            || e.flags.trigger_spec() == InterruptTrigger::Reserved {
            None
        } else {
            Some((
                e.global_system_interrupt,
                e.flags.polarity_spec() != InterruptPolarity::ActiveHigh,
                e.flags.trigger_spec() != InterruptTrigger::Edge,
            ))
        }
    }
}

/// Resolves an ACPI event interrupt. SCI/GPE lines default to active-low, level-triggered; only
/// explicit MADT flags replace those defaults. The result is the global system interrupt and
/// whether the line is active low and level triggered.
pub fn resolve_acpi_interrupt(madt: &MadtEntryIndex, irq: u32) -> (r: Option<(u32, bool, bool)>)
    requires
        madt.wf(),
    ensures
        irq >= LEGACY_IRQ_COUNT ==> r == Some((irq, true, true)),
        irq < LEGACY_IRQ_COUNT ==> r == resolve_from(
            madt.table@,
            madt.ptr_matrix@[MadtEntryType::InterruptSourceOverride.raw_value() as int]@,
            irq,
        ),
{
    if irq as usize >= LEGACY_IRQ_COUNT {
        return Some((irq, true, true));
    }
    let isos = madt.get_entries_with_type(MadtEntryType::InterruptSourceOverride);
    let table = madt.table.as_slice();
    proof {
        lemma_slice_len_fits(table);
    }
    assert(isos@.skip(0) =~= isos@);
    let mut i: usize = 0;
    while i < isos.len()
        invariant
            madt.wf(),
            table@ == madt.table@,
            table@.len() <= usize::MAX,
            isos@ == madt.ptr_matrix@[MadtEntryType::InterruptSourceOverride.raw_value() as int]@,
            i <= isos@.len(),
            irq < LEGACY_IRQ_COUNT,
            resolve_from(table@, isos@, irq) == resolve_from(table@, isos@.skip(i as int), irq),
        decreases isos@.len() - i,
    {
        let off = isos[i];
        assert(entry_fits(table@, off as int));
        assert(isos@.skip(i as int).drop_first() =~= isos@.skip(i + 1));
        assert(isos@.skip(i as int)[0] == off);
        if (table[off + 1] as usize) < INTERRUPT_SOURCE_OVERRIDE_ENTRY_SIZE {
            return None;
        }
        let entry = InterruptSourceOverrideEntry::read(table, off);
        if entry.bus == 0 && entry.irq_source as u32 == irq {
            let active_low = match entry.flags.polarity() {
                InterruptPolarity::BusSpec => true,
                InterruptPolarity::ActiveHigh => false,
                InterruptPolarity::ActiveLow => true,
                InterruptPolarity::Reserved => {
                    return None;
                },
            };
            let level = match entry.flags.trigger() {
                InterruptTrigger::BusSpec => true,
                InterruptTrigger::Edge => false,
                InterruptTrigger::Level => true,
                InterruptTrigger::Reserved => {
                    return None;
                },
            };
            return Some((entry.global_system_interrupt, active_low, level));
        }
        i = i + 1;
    }
    assert(isos@.skip(isos@.len() as int) =~= Seq::<usize>::empty());
    Some((irq, true, true))
}


/// The offset of the last override entry among `isos` that the IRQ table applies to legacy IRQ
/// `irq`: an entry long enough to be an override, for that IRQ.
pub open spec fn last_override(table: Seq<u8>, isos: Seq<usize>, irq: int) -> Option<int>
    decreases isos.len(),
{
    if isos.len() == 0 {
        None
    } else {
        let off = isos.last() as int;
        if table[off + 1] >= INTERRUPT_SOURCE_OVERRIDE_ENTRY_SIZE
            && InterruptSourceOverrideEntry::from_spec(table, off).irq_source == irq {
            Some(off)
        } else {
            last_override(table, isos.drop_last(), irq)
        }
    }
}

/// What the IRQ table gives a legacy IRQ, from the raw flags of the override that applies: with
/// no override the IRQ is identity mapped, active high and edge triggered; with one, it takes the
/// override's GSI, is active high unless the polarity field (bits 0-1) is active low (3), and is
/// level triggered exactly when the trigger-mode field (bits 2-3) is level (3), so an edge (1)
/// or bus-conforming (0) override is edge triggered.
pub proof fn lemma_irq_table_flags(table: Seq<u8>, isos: Seq<usize>, irq: int)
    requires
        0 <= irq < LEGACY_IRQ_COUNT,
    ensures
        irq_table(table, isos)[irq].irq == irq,
        match last_override(table, isos, irq) {
            None => {
                &&& irq_table(table, isos)[irq].gsi == irq
                &&& irq_table(table, isos)[irq].polarity
                &&& !irq_table(table, isos)[irq].latched
            },
            Some(off) => {
                let e = InterruptSourceOverrideEntry::from_spec(table, off);
                &&& irq_table(table, isos)[irq].gsi == e.global_system_interrupt
                &&& irq_table(table, isos)[irq].polarity == (e.flags.0 % 4 != 3)
                &&& irq_table(table, isos)[irq].latched == ((e.flags.0 / 4) % 4 == 3)
            },
        },
    decreases isos.len(),
{
    lemma_irq_table_len(table, isos);
    if isos.len() > 0 {
        lemma_irq_table_flags(table, isos.drop_last(), irq);
        lemma_irq_table_len(table, isos.drop_last());
    }
}

/// The offset of the first override entry among `isos` for ACPI interrupt `irq` on bus 0.
pub open spec fn first_override(table: Seq<u8>, isos: Seq<usize>, irq: u32) -> Option<int>
    decreases isos.len(),
{
    if isos.len() == 0 {
        None
    } else {
        let e = InterruptSourceOverrideEntry::from_spec(table, isos[0] as int);
        if e.bus == 0 && e.irq_source == irq {
            Some(isos[0] as int)
        } else {
            first_override(table, isos.drop_first(), irq)
        }
    }
}

/// What a resolved ACPI interrupt route says, from the raw flags of the first override for the
/// interrupt: with none the line keeps the SCI default, active low and level triggered; with one,
/// it takes the override's GSI, is active low unless the polarity field (bits 0-1) is active high
/// (1), and level triggered unless the trigger-mode field (bits 2-3) is edge (1). An override with
/// a reserved field (2) resolves to nothing.
pub proof fn lemma_resolve_flags(table: Seq<u8>, isos: Seq<usize>, irq: u32)
    ensures
        resolve_from(table, isos, irq) matches Some((gsi, active_low, level)) ==> match first_override(table, isos, irq) {
            None => gsi == irq && active_low && level,
            Some(off) => {
                let e = InterruptSourceOverrideEntry::from_spec(table, off);
                &&& gsi == e.global_system_interrupt
                &&& active_low == (e.flags.0 % 4 != 1)
                &&& level == ((e.flags.0 / 4) % 4 != 1)
                &&& e.flags.0 % 4 != 2
                &&& (e.flags.0 / 4) % 4 != 2
            },
        },
        first_override(table, isos, irq) matches Some(off) ==> ({
            let e = InterruptSourceOverrideEntry::from_spec(table, off);
            (e.flags.0 % 4 == 2 || (e.flags.0 / 4) % 4 == 2) ==> resolve_from(table, isos, irq) is None
        }),
    decreases isos.len(),
{
    if isos.len() > 0 {
        lemma_resolve_flags(table, isos.drop_first(), irq);
    }
}

} // verus!
